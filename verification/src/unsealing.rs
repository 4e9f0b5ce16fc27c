//! From encrypted values and a template to the Secret they stand for.

use crate::encryption::{self, Failure};
use crate::resources::{ObjectMeta, ObjectMetaView, OwnerReference, OwnerReferenceView};
use crate::resources::{Secret, SecretView};
use crate::resources;
use crate::string_map::{self, StringMap};
use crate::types::{FieldValue, FieldValueView, MetadataValue, MetadataValueView};
use crate::types::{SecretTemplate, SecretTemplateView};
use vstd::prelude::*;

verus! {

/// `key` is the first key, in the order of the keys, whose value does not decrypt.
pub open spec fn fails_first(
    private_key: Seq<char>,
    encrypted: Map<Seq<char>, Seq<char>>,
    key: Seq<char>,
) -> bool {
    &&& encrypted.contains_key(key)
    &&& encryption::decrypted(private_key, encrypted[key]) is Err
    &&& forall|earlier: Seq<char>|
        encrypted.contains_key(earlier) && #[trigger] string_map::key_less(earlier, key)
            ==> encryption::decrypted(private_key, encrypted[earlier]) is Ok
}

/// Every value decrypts.
pub open spec fn all_decrypt(
    private_key: Seq<char>,
    encrypted: Map<Seq<char>, Seq<char>>,
) -> bool {
    forall|key: Seq<char>| #[trigger]
        encrypted.contains_key(key) ==> encryption::decrypted(private_key, encrypted[key]) is Ok
}

/// The values decrypted under their own names, or the failure of the first that does not
/// decrypt.
pub open spec fn decrypted_data(
    private_key: Seq<char>,
    encrypted: Map<Seq<char>, Seq<char>>,
) -> Result<Map<Seq<char>, Seq<u8>>, Failure> {
    if all_decrypt(private_key, encrypted) {
        Ok(
            encrypted.map_values(
                |ciphertext: Seq<char>| encryption::decrypted(private_key, ciphertext)->Ok_0,
            ),
        )
    } else {
        let key = choose|key: Seq<char>| #[trigger] fails_first(private_key, encrypted, key);
        Err(encryption::decrypted(private_key, encrypted[key])->Err_0)
    }
}

/// At most one key is the first to fail.
proof fn fails_first_is_unique(
    private_key: Seq<char>,
    encrypted: Map<Seq<char>, Seq<char>>,
    a: Seq<char>,
    b: Seq<char>,
)
    requires
        fails_first(private_key, encrypted, a),
        fails_first(private_key, encrypted, b),
    ensures
        a == b,
{
    if a != b {
        string_map::key_less_total(a, b);
    }
}

/// Where some value does not decrypt, there is a first one, and its failure is what comes of
/// the data.
pub proof fn first_failure_decides(
    private_key: Seq<char>,
    encrypted: Map<Seq<char>, Seq<char>>,
) -> (first: Seq<char>)
    requires
        encrypted.dom().finite(),
        !all_decrypt(private_key, encrypted),
    ensures
        fails_first(private_key, encrypted, first),
        decrypted_data(private_key, encrypted) == Err::<Map<Seq<char>, Seq<u8>>, Failure>(
            encryption::decrypted(private_key, encrypted[first])->Err_0,
        ),
{
    let failing = encrypted.dom().filter(
        |key: Seq<char>| encryption::decrypted(private_key, encrypted[key]) is Err,
    );
    let some = choose|key: Seq<char>|
        encrypted.contains_key(key) && !(encryption::decrypted(private_key, encrypted[key]) is Ok);
    assert(failing.contains(some));
    let first = string_map::least_key(failing);
    assert forall|earlier: Seq<char>|
        encrypted.contains_key(earlier) && #[trigger] string_map::key_less(
            earlier,
            first,
        ) implies encryption::decrypted(private_key, encrypted[earlier]) is Ok by {
        if failing.contains(earlier) {
            string_map::key_less_irreflexive(first);
            if earlier != first {
                string_map::key_less_transitive(first, earlier, first);
            }
        }
    }
    assert(fails_first(private_key, encrypted, first));
    let chosen = choose|key: Seq<char>| #[trigger] fails_first(private_key, encrypted, key);
    fails_first_is_unique(private_key, encrypted, first, chosen);
    first
}

/// Decrypts each value with the private key.
pub fn decrypt_data(private_key: &str, encrypted: &StringMap<String>) -> (data: encryption::Result<
    StringMap<Vec<u8>>,
>)
    ensures
        match decrypted_data(private_key@, encrypted@) {
            Ok(values) => data matches Ok(d) && d@ == values,
            Err(failure) => data matches Err(e) && e@ == failure,
        },
{
    let n: usize = encrypted.len();
    let mut data: StringMap<Vec<u8>> = StringMap::new();
    let mut i: usize = 0;
    while i < n
        invariant
            i <= n,
            n == encrypted.keys().len(),
            string_map::ascending(encrypted.keys()),
            forall|j: int|
                0 <= j < i ==> encryption::decrypted(
                    private_key@,
                    encrypted@[#[trigger] encrypted.keys()[j]],
                ) is Ok,
            forall|key: Seq<char>| #[trigger]
                data@.contains_key(key) <==> exists|j: int|
                    0 <= j < i && #[trigger] encrypted.keys()[j] == key,
            forall|key: Seq<char>| #[trigger]
                data@.contains_key(key) ==> encryption::decrypted(private_key@, encrypted@[key])
                    == Ok::<Seq<u8>, Failure>(data@[key]),
        decreases n - i,
    {
        let ghost keys = encrypted.keys();
        let key = encrypted.key_at(i);
        let value = encrypted.value_at(i);
        match encryption::decrypt(private_key, value.as_str()) {
            Ok(plaintext) => {
                data.insert(key.clone(), plaintext);
            },
            Err(error) => {
                proof {
                    assert forall|earlier: Seq<char>|
                        encrypted@.contains_key(earlier) && #[trigger] string_map::key_less(
                            earlier,
                            key@,
                        ) implies encryption::decrypted(
                        private_key@,
                        encrypted@[earlier],
                    ) is Ok by {
                        encrypted.keys_have_places();
                        let j = choose|j: int| 0 <= j < keys.len() && #[trigger] keys[j] == earlier;
                        string_map::key_less_irreflexive(key@);
                        if i < j {
                            assert(string_map::key_less(keys[i as int], keys[j]));
                            string_map::key_less_transitive(key@, earlier, key@);
                        }
                    }
                    assert(fails_first(private_key@, encrypted@, key@));
                    let first = choose|key: Seq<char>| #[trigger]
                        fails_first(private_key@, encrypted@, key);
                    fails_first_is_unique(private_key@, encrypted@, key@, first);
                    assert(!all_decrypt(private_key@, encrypted@));
                }
                return Err(error);
            },
        }
        i += 1;
    }
    proof {
        encrypted.keys_have_places();
        assert forall|key: Seq<char>| #[trigger] encrypted@.contains_key(key) implies
            encryption::decrypted(private_key@, encrypted@[key]) is Ok by {
            assert(data@.contains_key(key));
        }
        assert(data@ =~= decrypted_data(private_key@, encrypted@)->Ok_0);
    }
    Ok(data)
}

/// The entry of a template's metadata under `key`.
pub open spec fn template_entry(
    template: Option<SecretTemplateView>,
    key: Seq<char>,
) -> Option<MetadataValueView> {
    match template {
        Some(t) => match t.metadata {
            Some(metadata) => if metadata.contains_key(key) {
                Some(metadata[key])
            } else {
                None
            },
            None => None,
        },
        None => None,
    }
}

/// The text that a template's metadata have under `key`.
pub open spec fn template_text(template: Option<SecretTemplateView>, key: Seq<char>) -> Option<
    Seq<char>,
> {
    match template_entry(template, key) {
        Some(MetadataValueView::Text(text)) => Some(text),
        _ => None,
    }
}

/// The entries of a table that are text.
pub open spec fn texts_of(table: Map<Seq<char>, FieldValueView>) -> Map<Seq<char>, Seq<char>> {
    Map::new(
        |key: Seq<char>| table.contains_key(key) && table[key] is Text,
        |key: Seq<char>| table[key]->Text_0,
    )
}

/// The texts of the table that a template's metadata have under `key`.
pub open spec fn template_table(template: Option<SecretTemplateView>, key: Seq<char>) -> Option<
    Map<Seq<char>, Seq<char>>,
> {
    match template_entry(template, key) {
        Some(MetadataValueView::Table(table)) => Some(texts_of(table)),
        _ => None,
    }
}

/// Looks up an entry of a template's metadata.
fn find_entry<'a>(template: &'a Option<SecretTemplate>, key: &str) -> (entry: Option<
    &'a MetadataValue,
>)
    ensures
        match template_entry(resources::opt_view(*template), key@) {
            Some(value) => entry matches Some(e) && e@ == value,
            None => entry is None,
        },
{
    match template {
        Some(t) => match &t.metadata {
            Some(metadata) => metadata.get(key),
            None => None,
        },
        None => None,
    }
}

/// Looks up a text in a template's metadata.
pub fn find_text(template: &Option<SecretTemplate>, key: &str) -> (text: Option<String>)
    ensures
        resources::opt_view(text) == template_text(resources::opt_view(*template), key@),
{
    match find_entry(template, key) {
        Some(MetadataValue::Text(text)) => Some(text.clone()),
        _ => None,
    }
}

/// Looks up a table of texts in a template's metadata.
pub fn find_table(template: &Option<SecretTemplate>, key: &str) -> (table: Option<
    StringMap<String>,
>)
    ensures
        resources::opt_view(table) == template_table(resources::opt_view(*template), key@),
{
    match find_entry(template, key) {
        Some(MetadataValue::Table(table)) => Some(collect_texts(table)),
        _ => None,
    }
}

/// Copies the entries of a table that are text.
fn collect_texts(table: &StringMap<FieldValue>) -> (texts: StringMap<String>)
    ensures
        texts@ == texts_of(table@),
{
    let n: usize = table.len();
    let mut texts: StringMap<String> = StringMap::new();
    let mut i: usize = 0;
    while i < n
        invariant
            i <= n,
            n == table.keys().len(),
            forall|key: Seq<char>| #[trigger]
                texts@.contains_key(key) <==> (exists|j: int|
                    0 <= j < i && #[trigger] table.keys()[j] == key) && table@[key] is Text,
            forall|key: Seq<char>| #[trigger]
                texts@.contains_key(key) ==> texts@[key] == table@[key]->Text_0,
        decreases n - i,
    {
        let key = table.key_at(i);
        if let FieldValue::Text(text) = table.value_at(i) {
            texts.insert(key.clone(), text.clone());
        }
        i += 1;
    }
    proof {
        table.keys_have_places();
        assert(texts@ =~= texts_of(table@));
    }
    texts
}

/// The name of the Secret that a sealed resource stands for: the one its template gives,
/// else the resource's own.
pub open spec fn output_name(
    template: Option<SecretTemplateView>,
    metadata: ObjectMetaView,
) -> Seq<char> {
    match template_text(template, "name"@) {
        Some(name) => name,
        None => metadata.name_any(),
    }
}

/// The Secret that decrypted `data` make: named and owned as given, in `namespace`, with the
/// labels, annotations, type and immutability of the template.
pub open spec fn unsealed(
    template: Option<SecretTemplateView>,
    name: Seq<char>,
    namespace: Seq<char>,
    owner: OwnerReferenceView,
    data: Map<Seq<char>, Seq<u8>>,
) -> SecretView {
    SecretView {
        metadata: ObjectMetaView {
            name: Some(name),
            namespace: Some(namespace),
            labels: template_table(template, "labels"@),
            annotations: template_table(template, "annotations"@),
            owner_references: Some(seq![owner]),
            ..ObjectMetaView::empty()
        },
        data: Some(data),
        string_data: None,
        immutable: match template {
            Some(t) => t.immutable,
            None => None,
        },
        type_: match template {
            Some(t) => t.type_,
            None => None,
        },
    }
}

/// The name of the Secret that a sealed resource stands for.
pub fn find_output_name(template: &Option<SecretTemplate>, metadata: &ObjectMeta) -> (name: String)
    ensures
        name@ == output_name(resources::opt_view(*template), metadata@),
{
    match find_text(template, "name") {
        Some(name) => name,
        None => metadata.name_any(),
    }
}

/// Puts a Secret together from decrypted data and a template.
pub fn unseal(
    template: &Option<SecretTemplate>,
    name: String,
    namespace: String,
    owner: OwnerReference,
    data: StringMap<Vec<u8>>,
) -> (secret: Secret)
    ensures
        secret@ == unsealed(
            resources::opt_view(*template),
            name@,
            namespace@,
            owner@,
            data@,
        ),
{
    let labels = find_table(template, "labels");
    let annotations = find_table(template, "annotations");
    let type_ = match template {
        Some(t) => match &t.type_ {
            Some(text) => Some(text.clone()),
            None => None,
        },
        None => None,
    };
    let immutable = match template {
        Some(t) => t.immutable,
        None => None,
    };
    let mut owner_references: Vec<OwnerReference> = Vec::new();
    owner_references.push(owner);
    assert(resources::list_view(owner_references@) =~= seq![owner@]);
    Secret {
        metadata: ObjectMeta {
            name: Some(name),
            namespace: Some(namespace),
            labels,
            annotations,
            owner_references: Some(owner_references),
            ..ObjectMeta::default()
        },
        data: Some(data),
        string_data: None,
        immutable,
        type_,
    }
}

} // verus!
