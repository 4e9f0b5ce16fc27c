//! What holds of sealed resources.

use crate::age_keys;
use crate::cli::{self, ErrorView, SealArgs, Sealed};
use crate::encryption::{self, Failure};
use crate::laws::reconciling;
use crate::laws::recreating;
use crate::laws::views;
use crate::resources::{self, ObjectMetaView, SecretView};
use crate::sealing;
use crate::string_map::StringMap;
use crate::types::{FieldValueView, MetadataValueView, SecretTemplateView};
use vstd::prelude::*;
use vstd::utf8::*;

verus! {

/// The Secret has an entry under `key`, in `data` or in `stringData`.
pub open spec fn has_entry(source: SecretView, key: Seq<char>) -> bool {
    ||| source.data is Some && source.data->0.contains_key(key)
    ||| source.string_data is Some && source.string_data->0.contains_key(key)
}

/// `bytes` are the entry of the Secret under `key`: the text of `stringData` as UTF-8 where it
/// has one, else that of `data`.
pub open spec fn is_entry(source: SecretView, key: Seq<char>, bytes: Seq<u8>) -> bool {
    if source.string_data is Some && source.string_data->0.contains_key(key) {
        bytes == encode_utf8(source.string_data->0[key])
    } else {
        source.data is Some && source.data->0.contains_key(key) && bytes == source.data->0[key]
    }
}

/// The entries to seal are exactly those of `data` and `stringData`.
pub proof fn every_entry_and_no_other_is_sealed(source: SecretView, key: Seq<char>)
    ensures
        sealing::plaintext_of(source).contains_key(key) <==> has_entry(source, key),
        has_entry(source, key) ==> is_entry(source, key, sealing::plaintext_of(source)[key]),
{
}

/// `table` has exactly `texts`.
pub open spec fn is_table_of(
    table: Map<Seq<char>, FieldValueView>,
    texts: Map<Seq<char>, Seq<char>>,
) -> bool {
    &&& forall|key: Seq<char>| #[trigger] table.contains_key(key) <==> texts.contains_key(key)
    &&& forall|key: Seq<char>| #[trigger]
        texts.contains_key(key) ==> table[key] == FieldValueView::Text(texts[key])
}

/// The template has the text under `key`, or nothing where there is none.
pub open spec fn keeps_text(
    template: SecretTemplateView,
    key: Seq<char>,
    text: Option<Seq<char>>,
) -> bool {
    &&& template.metadata is Some
    &&& text is Some <==> template.metadata->0.contains_key(key)
    &&& text is Some ==> template.metadata->0[key] == MetadataValueView::Text(text->0)
}

/// The template has the texts as a table under `key`, or nothing where there are none.
pub open spec fn keeps_table(
    template: SecretTemplateView,
    key: Seq<char>,
    texts: Option<Map<Seq<char>, Seq<char>>>,
) -> bool {
    &&& template.metadata is Some
    &&& texts is Some <==> template.metadata->0.contains_key(key)
    &&& texts is Some ==> template.metadata->0[key] is Table && is_table_of(
        template.metadata->0[key]->Table_0,
        texts->0,
    )
}

/// The template keeps the name, namespace, labels, annotations, type and immutability of the
/// Secret, and nothing else.
pub open spec fn keeps_all(template: SecretTemplateView, source: SecretView) -> bool {
    &&& keeps_text(template, "name"@, Some(reconciling::best_name(source.metadata)))
    &&& keeps_text(template, "namespace"@, source.metadata.namespace)
    &&& keeps_table(template, "labels"@, source.metadata.labels)
    &&& keeps_table(template, "annotations"@, source.metadata.annotations)
    &&& template.type_ == source.type_
    &&& template.immutable == source.immutable
    &&& forall|key: Seq<char>| #[trigger]
        template.metadata->0.contains_key(key) ==> key == "name"@ || key == "namespace"@ || key
            == "labels"@ || key == "annotations"@
}

/// The template of a Secret keeps all that it is beside its data, and nothing else.
pub proof fn template_keeps_all(source: SecretView)
    ensures
        keeps_all(sealing::template_of(source), source),
{
    reveal_strlit("name");
    reveal_strlit("namespace");
    reveal_strlit("labels");
    reveal_strlit("annotations");
    assert("name"@.len() == 4);
    assert("namespace"@.len() == 9);
    assert("labels"@.len() == 6);
    assert("annotations"@.len() == 11);
}

/// `encrypted` has a text for every entry of the Secret and no other; each stands in age's
/// armor, and gives the entry back to every private key of `recipient`.
pub open spec fn holds_the_entries(
    source: SecretView,
    recipient: Seq<char>,
    encrypted: Map<Seq<char>, Seq<char>>,
) -> bool {
    &&& forall|key: Seq<char>| #[trigger]
        encrypted.contains_key(key) <==> has_entry(source, key)
    &&& forall|key: Seq<char>, private_key: Seq<char>|
        encrypted.contains_key(key) && age_keys::age_identity(private_key) == Ok::<
            Seq<char>,
            Seq<char>,
        >(recipient) ==> (#[trigger] age_keys::age_decrypt(private_key, encrypted[key]) matches Ok(
            bytes,
        ) && is_entry(source, key, bytes))
    &&& forall|key: Seq<char>| #[trigger]
        encrypted.contains_key(key) ==> is_ascii_chars(encrypted[key])
            && "-----BEGIN AGE ENCRYPTED FILE-----"@.is_prefix_of(encrypted[key])
}

/// The metadata have a name and nothing else.
pub open spec fn has_a_name_only(metadata: ObjectMetaView, name: Seq<char>) -> bool {
    &&& metadata.name == Some(name)
    &&& metadata.generate_name is None
    &&& metadata.namespace is None
    &&& metadata.uid is None
    &&& metadata.generation is None
    &&& metadata.labels is None
    &&& metadata.annotations is None
    &&& metadata.owner_references is None
}

proof fn entries_are_held(
    source: SecretView,
    recipient: Seq<char>,
    encrypted: Map<Seq<char>, Seq<char>>,
)
    requires
        sealing::is_sealing_of(recipient, sealing::plaintext_of(source), encrypted),
    ensures
        holds_the_entries(source, recipient, encrypted),
{
    let plaintext = sealing::plaintext_of(source);
    assert forall|key: Seq<char>| #[trigger] encrypted.contains_key(key) <==> has_entry(
        source,
        key,
    ) by {
        every_entry_and_no_other_is_sealed(source, key);
        assert(encrypted.dom().contains(key) <==> plaintext.dom().contains(key));
    }
    assert forall|key: Seq<char>, private_key: Seq<char>|
        encrypted.contains_key(key) && age_keys::age_identity(private_key) == Ok::<
            Seq<char>,
            Seq<char>,
        >(recipient) implies (#[trigger] age_keys::age_decrypt(
        private_key,
        encrypted[key],
    ) matches Ok(bytes) && is_entry(source, key, bytes)) by {
        every_entry_and_no_other_is_sealed(source, key);
        assert(has_entry(source, key));
        assert(plaintext.contains_key(key));
        assert(age_keys::opens_for(recipient, encrypted[key], plaintext[key]));
        assert(age_keys::is_key_pair(private_key, recipient));
    }
    assert forall|key: Seq<char>| #[trigger] encrypted.contains_key(key) implies is_ascii_chars(
        encrypted[key],
    ) && "-----BEGIN AGE ENCRYPTED FILE-----"@.is_prefix_of(encrypted[key]) by {
        assert(has_entry(source, key));
        every_entry_and_no_other_is_sealed(source, key);
        assert(plaintext.contains_key(key));
        let text = encrypted[key];
        assert(age_keys::is_armored(text));
        let (payload, line_end) = choose|payload: Seq<char>, line_end: Seq<char>| #[trigger]
            age_keys::is_armored_with(text, payload, line_end);
        let begin = "-----BEGIN AGE ENCRYPTED FILE-----"@;
        assert(begin =~= text.take(begin.len() as int));
    }
}

/// A sealed resource is cluster-wide exactly where that was asked for. It is named like the
/// Secret, holds its entries, and its template keeps all else; a cluster-wide one excludes the
/// namespaces that were given, and selects by the labels that were given.
pub proof fn sealed_resource_is_as_asked(
    args: SealArgs,
    source: SecretView,
    recipient: Seq<char>,
    sealed: Sealed,
)
    requires
        cli::is_sealed(args, source, recipient, sealed),
    ensures
        sealed is ClusterWide <==> args.cluster_wide,
        sealed matches Sealed::Namespaced(resource) ==> {
            &&& has_a_name_only(resource@.metadata, reconciling::best_name(source.metadata))
            &&& resource@.status is None
            &&& holds_the_entries(source, recipient, resource@.spec.encrypted_data)
            &&& resource@.spec.template matches Some(template) && keeps_all(template, source)
        },
        sealed matches Sealed::ClusterWide(resource) ==> {
            &&& has_a_name_only(resource@.metadata, reconciling::best_name(source.metadata))
            &&& resource@.status is None
            &&& holds_the_entries(source, recipient, resource@.spec.encrypted_data)
            &&& resource@.spec.template matches Some(template) && keeps_all(template, source)
            &&& views::is_list_of(
                args.exclude_namespaces@,
                resource@.spec.exclude_namespaces,
            )
            &&& cli::labels_of(resources::list_view(args.namespace_labels@)) matches Ok(labels)
                && labels == resource@.spec.namespace_selector
        },
{
    template_keeps_all(source);
    match sealed {
        Sealed::Namespaced(resource) => {
            entries_are_held(source, recipient, resource@.spec.encrypted_data);
        },
        Sealed::ClusterWide(resource) => {
            entries_are_held(source, recipient, resource@.spec.encrypted_data);
        },
    }
}

/// Sealing comes to what the inputs decide: a label that cannot be read, where the labels
/// count, is refused first; a Secret without any entry next; and only then does the public key
/// count.
pub proof fn sealing_refuses_in_order(
    args: SealArgs,
    source: SecretView,
    public_key: Seq<char>,
    outcome: Option<Result<Sealed, cli::Error>>,
)
    requires
        cli::seals(args, source, public_key, outcome),
    ensures
        ({
            let labels = cli::labels_of(resources::list_view(args.namespace_labels@));
            let bad_label = args.cluster_wide && labels is Err;
            let empty = forall|key: Seq<char>| !#[trigger] has_entry(source, key);
            &&& bad_label ==> (outcome matches Some(Err(e)) && e@ == ErrorView::Input(
                "invalid namespace label `"@ + labels->Err_0 + "`: expected key=value"@,
            ))
            &&& !bad_label && empty ==> (outcome matches Some(Err(e)) && e@
                == ErrorView::EmptySecret(reconciling::best_name(source.metadata)))
            &&& !bad_label && !empty && age_keys::age_recipient(public_key) is Err ==> (
            outcome matches Some(Err(e)) && e@ == ErrorView::Encryption(
                Failure::InvalidPublicKey(age_keys::age_recipient(public_key)->Err_0),
            ))
            &&& !bad_label && !empty && age_keys::is_weak_recipient(public_key) ==> outcome is None
            &&& !bad_label && !empty && age_keys::age_recipient(public_key) is Ok
                && !age_keys::is_weak_recipient(public_key) ==> (outcome matches Some(Ok(sealed))
                && cli::is_sealed(args, source, age_keys::age_recipient(public_key)->Ok_0, sealed))
        }),
{
    let plaintext = sealing::plaintext_of(source);
    assert forall|key: Seq<char>| #[trigger] plaintext.contains_key(key) <==> has_entry(
        source,
        key,
    ) by {
        every_entry_and_no_other_is_sealed(source, key);
    }
    if plaintext.dom() == Set::<Seq<char>>::empty() {
        assert forall|key: Seq<char>| !#[trigger] has_entry(source, key) by {
            assert(!plaintext.dom().contains(key));
            every_entry_and_no_other_is_sealed(source, key);
        }
    }
    if forall|key: Seq<char>| !#[trigger] has_entry(source, key) {
        assert forall|key: Seq<char>| !#[trigger] plaintext.dom().contains(key) by {
            every_entry_and_no_other_is_sealed(source, key);
            assert(!has_entry(source, key));
        }
        assert(plaintext.dom() =~= Set::<Seq<char>>::empty());
    }
}

/// Encrypting data gives a text for every value and no other, each of which opens for the
/// public key; with a text that is no public key it fails, where there is any value.
pub proof fn encrypted_data_has_every_value(
    public_key: Seq<char>,
    data: Map<Seq<char>, Seq<u8>>,
    outcome: encryption::Result<StringMap<String>>,
    key: Seq<char>,
    private_key: Seq<char>,
)
    requires
        sealing::seals_data(public_key, data, outcome),
    ensures
        outcome matches Ok(encrypted) ==> (encrypted@.contains_key(key) <==> data.contains_key(
            key,
        )),
        outcome is Ok && data.contains_key(key) && age_keys::age_identity(
            private_key,
        ) == age_keys::age_recipient(public_key) ==> (age_keys::age_decrypt(
            private_key,
            outcome->Ok_0@[key],
        ) matches Ok(bytes) && bytes == data[key]),
        data.contains_key(key) && age_keys::age_recipient(public_key) is Err ==> (
        outcome matches Err(e) && e@ == Failure::InvalidPublicKey(
            age_keys::age_recipient(public_key)->Err_0,
        )),
        age_keys::age_recipient(public_key) is Ok ==> outcome is Ok,
        (forall|k: Seq<char>| !#[trigger] data.contains_key(k)) ==> outcome is Ok,
{
    if data.contains_key(key) {
        assert(data.dom().contains(key));
    }
    if forall|k: Seq<char>| !#[trigger] data.contains_key(k) {
        assert(data.dom() =~= Set::<Seq<char>>::empty());
    }
    if let Ok(encrypted) = outcome {
        assert(encrypted@.dom().contains(key) <==> data.dom().contains(key));
        if data.contains_key(key) && age_keys::age_identity(private_key) == age_keys::age_recipient(
            public_key,
        ) {
            assert(age_keys::opens_for(
                age_keys::age_recipient(public_key)->Ok_0,
                encrypted@[key],
                data[key],
            ));
            assert(age_keys::is_key_pair(private_key, age_keys::age_recipient(public_key)->Ok_0));
        }
    }
}

/// What the template of a Secret keeps is what a Secret with that template is shaped by.
pub proof fn template_shapes_like_the_source(source: SecretView, secret: SecretView)
    requires
        recreating::is_shaped(Some(sealing::template_of(source)), secret),
    ensures
        secret.type_ == source.type_,
        secret.immutable == source.immutable,
        secret.metadata.labels == source.metadata.labels,
        secret.metadata.annotations == source.metadata.annotations,
{
    let template = sealing::template_of(source);
    template_keeps_all(source);
    table_comes_back(template, "labels"@, source.metadata.labels, secret.metadata.labels);
    table_comes_back(
        template,
        "annotations"@,
        source.metadata.annotations,
        secret.metadata.annotations,
    );
}

proof fn table_comes_back(
    template: SecretTemplateView,
    key: Seq<char>,
    texts: Option<Map<Seq<char>, Seq<char>>>,
    taken: Option<Map<Seq<char>, Seq<char>>>,
)
    requires
        keeps_table(template, key, texts),
        recreating::takes_over(Some(template), key, taken),
    ensures
        taken == texts,
{
    if texts is Some {
        let table = template.metadata->0[key]->Table_0;
        assert(recreating::says_table(Some(template), key, table));
        assert forall|name: Seq<char>| #[trigger] taken->0.contains_key(name)
            <==> texts->0.contains_key(name) by {
            assert(table.contains_key(name) <==> texts->0.contains_key(name));
        }
        assert(taken->0 =~= texts->0);
    }
}

} // verus!
