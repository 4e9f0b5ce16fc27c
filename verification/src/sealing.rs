//! From a Secret and a public key to the sealed resource.

use crate::age_keys;
use crate::encryption::{self, Failure};
use crate::resources::{self, Secret, SecretView};
use crate::string_map::StringMap;
use crate::types::{FieldValue, FieldValueView, MetadataValue, MetadataValueView};
use crate::types::{SecretTemplate, SecretTemplateView};
use vstd::prelude::*;
use vstd::string::*;
use vstd::utf8::*;

verus! {

/// All entries of a Secret as bytes: its `data`, and its `stringData`, which wins where both
/// have an entry.
pub open spec fn plaintext_of(source: SecretView) -> Map<Seq<char>, Seq<u8>> {
    let data = match source.data {
        Some(data) => data,
        None => Map::empty(),
    };
    match source.string_data {
        Some(texts) => data.union_prefer_right(
            texts.map_values(|text: Seq<char>| encode_utf8(text)),
        ),
        None => data,
    }
}

/// Collects the entries of a Secret as bytes.
pub fn plaintext_data(source: &Secret) -> (plaintext: StringMap<Vec<u8>>)
    ensures
        plaintext@ == plaintext_of(source@),
{
    let mut plaintext: StringMap<Vec<u8>> = match &source.data {
        Some(data) => resources::copy_data(data),
        None => StringMap::new(),
    };
    if let Some(texts) = &source.string_data {
        let ghost base = plaintext@;
        let n: usize = texts.len();
        let mut i: usize = 0;
        while i < n
            invariant
                i <= n,
                n == texts.keys().len(),
                forall|key: Seq<char>| #[trigger]
                    plaintext@.contains_key(key) <==> base.contains_key(key) || exists|j: int|
                        0 <= j < i && #[trigger] texts.keys()[j] == key,
                forall|key: Seq<char>| #[trigger]
                    plaintext@.contains_key(key) ==> plaintext@[key] == (if exists|j: int|
                        0 <= j < i && #[trigger] texts.keys()[j] == key {
                        encode_utf8(texts@[key])
                    } else {
                        base[key]
                    }),
            decreases n - i,
        {
            let value = texts.value_at(i).as_str().as_bytes_vec();
            plaintext.insert(texts.key_at(i).clone(), value);
            i += 1;
        }
        proof {
            texts.keys_have_places();
            assert(plaintext@ =~= plaintext_of(source@));
        }
    }
    plaintext
}

/// `encrypted` has the entries of `data` under the same names, each of them armored and such
/// that it opens for `recipient`.
pub open spec fn is_sealing_of(
    recipient: Seq<char>,
    data: Map<Seq<char>, Seq<u8>>,
    encrypted: Map<Seq<char>, Seq<char>>,
) -> bool {
    &&& encrypted.dom() == data.dom()
    &&& forall|key: Seq<char>| #[trigger]
        data.contains_key(key) ==> age_keys::is_armored(encrypted[key]) && age_keys::opens_for(
            recipient,
            encrypted[key],
            data[key],
        )
}

/// What encrypting `data` comes to: each value is encrypted; where there are any, a text
/// that is no public key is an error.
pub open spec fn seals_data(
    public_key: Seq<char>,
    data: Map<Seq<char>, Seq<u8>>,
    outcome: encryption::Result<StringMap<String>>,
) -> bool {
    if data.dom() == Set::<Seq<char>>::empty() {
        outcome matches Ok(encrypted) && encrypted@ == Map::<Seq<char>, Seq<char>>::empty()
    } else {
        match age_keys::age_recipient(public_key) {
            Ok(recipient) => outcome matches Ok(encrypted) && is_sealing_of(
                recipient,
                data,
                encrypted@,
            ),
            Err(reason) => outcome matches Err(e) && e@ == Failure::InvalidPublicKey(reason),
        }
    }
}

/// Encrypts each value to the public key.
pub fn encrypt_data(public_key: &str, data: &StringMap<Vec<u8>>) -> (outcome: encryption::Result<
    StringMap<String>,
>)
    requires
        !age_keys::is_weak_recipient(public_key@) || data@.dom() == Set::<Seq<char>>::empty(),
    ensures
        seals_data(public_key@, data@, outcome),
{
    let n: usize = data.len();
    let mut encrypted: StringMap<String> = StringMap::new();
    let mut i: usize = 0;
    while i < n
        invariant
            i <= n,
            n == data.keys().len(),
            n > 0 ==> data@.dom() != Set::<Seq<char>>::empty(),
            !age_keys::is_weak_recipient(public_key@) || data@.dom() == Set::<Seq<char>>::empty(),
            i > 0 ==> age_keys::age_recipient(public_key@) is Ok,
            forall|key: Seq<char>| #[trigger]
                encrypted@.contains_key(key) <==> exists|j: int|
                    0 <= j < i && #[trigger] data.keys()[j] == key,
            forall|key: Seq<char>| #[trigger]
                encrypted@.contains_key(key) ==> age_keys::is_armored(encrypted@[key])
                    && age_keys::opens_for(
                    age_keys::age_recipient(public_key@)->Ok_0,
                    encrypted@[key],
                    data@[key],
                ),
        decreases n - i,
    {
        match encryption::encrypt(public_key, data.value_at(i).as_slice()) {
            Ok(ciphertext) => {
                encrypted.insert(data.key_at(i).clone(), ciphertext);
            },
            Err(error) => {
                return Err(error);
            },
        }
        i += 1;
    }
    proof {
        data.keys_have_places();
        assert(encrypted@.dom() =~= data@.dom());
        if n == 0 {
            assert(data@.dom() =~= Set::<Seq<char>>::empty());
            assert(encrypted@ =~= Map::<Seq<char>, Seq<char>>::empty());
        }
    }
    Ok(encrypted)
}

/// A table of texts as a template holds it.
pub open spec fn fields_of(texts: Map<Seq<char>, Seq<char>>) -> Map<Seq<char>, FieldValueView> {
    texts.map_values(|text: Seq<char>| FieldValueView::Text(text))
}

/// Metadata with an entry more, where there is a text for it.
pub open spec fn with_text(
    metadata: Map<Seq<char>, MetadataValueView>,
    key: Seq<char>,
    text: Option<Seq<char>>,
) -> Map<Seq<char>, MetadataValueView> {
    match text {
        Some(text) => metadata.insert(key, MetadataValueView::Text(text)),
        None => metadata,
    }
}

/// Metadata with an entry more, where there is a table for it.
pub open spec fn with_table(
    metadata: Map<Seq<char>, MetadataValueView>,
    key: Seq<char>,
    table: Option<Map<Seq<char>, Seq<char>>>,
) -> Map<Seq<char>, MetadataValueView> {
    match table {
        Some(texts) => metadata.insert(key, MetadataValueView::Table(fields_of(texts))),
        None => metadata,
    }
}

/// The template that preserves a Secret's name, namespace, labels, annotations, type and
/// immutability.
pub open spec fn template_of(source: SecretView) -> SecretTemplateView {
    let named = with_text(Map::empty(), "name"@, Some(source.metadata.name_any()));
    let placed = with_text(named, "namespace"@, source.metadata.namespace);
    let labelled = with_table(placed, "labels"@, source.metadata.labels);
    SecretTemplateView {
        metadata: Some(with_table(labelled, "annotations"@, source.metadata.annotations)),
        type_: source.type_,
        immutable: source.immutable,
    }
}

/// Copies a table of texts as a template holds it.
fn copy_fields(texts: &StringMap<String>) -> (fields: StringMap<FieldValue>)
    ensures
        fields@ == fields_of(texts@),
{
    let n: usize = texts.len();
    let mut fields: StringMap<FieldValue> = StringMap::new();
    let mut i: usize = 0;
    while i < n
        invariant
            i <= n,
            n == texts.keys().len(),
            forall|key: Seq<char>| #[trigger]
                fields@.contains_key(key) <==> exists|j: int|
                    0 <= j < i && #[trigger] texts.keys()[j] == key,
            forall|key: Seq<char>| #[trigger]
                fields@.contains_key(key) ==> fields@[key] == FieldValueView::Text(texts@[key]),
        decreases n - i,
    {
        fields.insert(texts.key_at(i).clone(), FieldValue::Text(texts.value_at(i).clone()));
        i += 1;
    }
    proof {
        texts.keys_have_places();
        assert(fields@ =~= fields_of(texts@));
    }
    fields
}

/// Writes the template that preserves what a Secret is beside its data.
pub fn make_template(source: &Secret) -> (template: SecretTemplate)
    ensures
        template@ == template_of(source@),
{
    let mut metadata: StringMap<MetadataValue> = StringMap::new();
    metadata.insert("name".to_owned(), MetadataValue::Text(source.metadata.name_any()));
    if let Some(namespace) = &source.metadata.namespace {
        metadata.insert("namespace".to_owned(), MetadataValue::Text(namespace.clone()));
    }
    if let Some(labels) = &source.metadata.labels {
        metadata.insert("labels".to_owned(), MetadataValue::Table(copy_fields(labels)));
    }
    if let Some(annotations) = &source.metadata.annotations {
        metadata.insert("annotations".to_owned(), MetadataValue::Table(copy_fields(annotations)));
    }
    let type_ = match &source.type_ {
        Some(text) => Some(text.clone()),
        None => None,
    };
    SecretTemplate { metadata: Some(metadata), type_, immutable: source.immutable }
}

} // verus!
