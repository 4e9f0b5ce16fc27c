//! What holds of the Secrets that the controller recreates.

use crate::age_keys;
use crate::cluster::{self, NamespaceView};
use crate::controller::{self, ErrorView};
use crate::encryption::{self, Failure};
use crate::resources::{ObjectMetaView, SecretView};
use crate::types::{FieldValueView, FuinClusterSealedSecretView, FuinSealedSecretView};
use crate::types::{MetadataValueView, SecretTemplateView};
use crate::unsealing;
use vstd::prelude::*;

verus! {

/// The template's metadata have `text` under `key`.
pub open spec fn says_text(
    template: Option<SecretTemplateView>,
    key: Seq<char>,
    text: Seq<char>,
) -> bool {
    &&& template is Some
    &&& template->0.metadata is Some
    &&& template->0.metadata->0.contains_key(key)
    &&& template->0.metadata->0[key] == MetadataValueView::Text(text)
}

/// The template's metadata have `table` under `key`.
pub open spec fn says_table(
    template: Option<SecretTemplateView>,
    key: Seq<char>,
    table: Map<Seq<char>, FieldValueView>,
) -> bool {
    &&& template is Some
    &&& template->0.metadata is Some
    &&& template->0.metadata->0.contains_key(key)
    &&& template->0.metadata->0[key] == MetadataValueView::Table(table)
}

/// `texts` are the texts of the table that the template has under `key`, and nothing where it
/// has no table there.
pub open spec fn takes_over(
    template: Option<SecretTemplateView>,
    key: Seq<char>,
    texts: Option<Map<Seq<char>, Seq<char>>>,
) -> bool {
    &&& forall|table: Map<Seq<char>, FieldValueView>| #[trigger]
        says_table(template, key, table) ==> texts is Some && forall|name: Seq<char>|
            {
                &&& #[trigger] texts->0.contains_key(name) <==> table.contains_key(name)
                    && table[name] is Text
                &&& texts->0.contains_key(name) ==> table[name] == FieldValueView::Text(
                    texts->0[name],
                )
            }
    &&& (forall|table: Map<Seq<char>, FieldValueView>| !#[trigger]
        says_table(template, key, table)) ==> texts is None
}

/// The Secret has exactly one owner: the sealed resource of that kind, with that name and uid,
/// as the controller.
pub open spec fn is_owned(metadata: ObjectMetaView, kind: Seq<char>, secret: SecretView) -> bool {
    &&& secret.metadata.owner_references is Some
    &&& secret.metadata.owner_references->0.len() == 1
    &&& ({
        let owner = secret.metadata.owner_references->0[0];
        &&& owner.api_version == "fuin.abr.sh/v1alpha1"@
        &&& owner.kind == kind
        &&& metadata.name == Some(owner.name)
        &&& metadata.uid == Some(owner.uid)
        &&& owner.controller == Some(true)
        &&& owner.block_owner_deletion is None
    })
}

/// The Secret is named as the template says, or else as the sealed resource.
pub open spec fn is_named(
    template: Option<SecretTemplateView>,
    metadata: ObjectMetaView,
    secret: SecretView,
) -> bool {
    &&& forall|name: Seq<char>| #[trigger]
        says_text(template, "name"@, name) ==> secret.metadata.name == Some(name)
    &&& (forall|name: Seq<char>| !#[trigger] says_text(template, "name"@, name))
        ==> secret.metadata.name == metadata.name
}

/// The Secret has an entry for every encrypted value and no other, and each is what age
/// recovers from that value.
pub open spec fn has_what_age_recovers(
    private_key: Seq<char>,
    encrypted: Map<Seq<char>, Seq<char>>,
    secret: SecretView,
) -> bool {
    &&& secret.string_data is None
    &&& secret.data is Some
    &&& forall|key: Seq<char>| #[trigger]
        secret.data->0.contains_key(key) <==> encrypted.contains_key(key)
    &&& forall|key: Seq<char>| #[trigger]
        secret.data->0.contains_key(key) ==> (age_keys::age_decrypt(
            private_key,
            encrypted[key],
        ) matches Ok(bytes) && bytes == secret.data->0[key])
}

/// The Secret has the labels, annotations, type and immutability of the template, and no more
/// metadata than that, its name, namespace and owner.
pub open spec fn is_shaped(template: Option<SecretTemplateView>, secret: SecretView) -> bool {
    &&& takes_over(template, "labels"@, secret.metadata.labels)
    &&& takes_over(template, "annotations"@, secret.metadata.annotations)
    &&& template is Some ==> secret.type_ == template->0.type_ && secret.immutable
        == template->0.immutable
    &&& template is None ==> secret.type_ is None && secret.immutable is None
    &&& secret.metadata.generate_name is None
    &&& secret.metadata.uid is None
    &&& secret.metadata.generation is None
}

proof fn tables_are_taken_over(template: Option<SecretTemplateView>, key: Seq<char>)
    ensures
        takes_over(template, key, unsealing::template_table(template, key)),
{
    if unsealing::template_table(template, key) is Some {
        let table = template->0.metadata->0[key]->Table_0;
        assert(says_table(template, key, table));
    }
}

proof fn name_is_taken_over(template: Option<SecretTemplateView>, metadata: ObjectMetaView)
    ensures
        forall|name: Seq<char>| #[trigger]
            says_text(template, "name"@, name) ==> unsealing::output_name(template, metadata)
                == name,
        (forall|name: Seq<char>| !#[trigger] says_text(template, "name"@, name))
            ==> unsealing::output_name(template, metadata) == metadata.name_any(),
{
    if unsealing::template_text(template, "name"@) is Some {
        let name = unsealing::template_text(template, "name"@)->0;
        assert(says_text(template, "name"@, name));
    }
}

/// A table of a template is found as its texts, and a text as it is; what is not there, or is
/// something else, is not found.
pub proof fn template_is_found_as_it_is(template: Option<SecretTemplateView>, key: Seq<char>)
    ensures
        takes_over(template, key, unsealing::template_table(template, key)),
        forall|text: Seq<char>| #[trigger]
            says_text(template, key, text) <==> unsealing::template_text(template, key) == Some(
                text,
            ),
{
    tables_are_taken_over(template, key);
}

/// Whatever the template, a recreated Secret is in the namespace of its sealed Secret and owned
/// by it alone; it is named and shaped by the template, and has what age recovers.
pub proof fn recreated_secret_is_as_sealed(sealed: FuinSealedSecretView, private_key: Seq<char>)
    requires
        controller::desired_secret_of(sealed, private_key) is Ok,
    ensures
        ({
            let secret = controller::desired_secret_of(sealed, private_key)->Ok_0;
            &&& is_owned(sealed.metadata, "FuinSealedSecret"@, secret)
            &&& is_named(sealed.spec.template, sealed.metadata, secret)
            &&& secret.metadata.namespace == sealed.metadata.namespace
            &&& secret.metadata.namespace is Some
            &&& has_what_age_recovers(private_key, sealed.spec.encrypted_data, secret)
            &&& is_shaped(sealed.spec.template, secret)
        }),
{
    name_is_taken_over(sealed.spec.template, sealed.metadata);
    tables_are_taken_over(sealed.spec.template, "labels"@);
    tables_are_taken_over(sealed.spec.template, "annotations"@);
}

/// Whatever the template, every Secret of a cluster-wide sealed Secret is owned by it alone;
/// it is named and shaped by the template, and has what age recovers.
pub proof fn recreated_cluster_secret_is_as_sealed(
    sealed: FuinClusterSealedSecretView,
    private_key: Seq<char>,
    namespaces: Seq<NamespaceView>,
    i: int,
)
    requires
        cluster::desired_secrets_of(sealed, private_key, namespaces) is Ok,
        0 <= i < cluster::desired_secrets_of(sealed, private_key, namespaces)->Ok_0.len(),
    ensures
        ({
            let secret = cluster::desired_secrets_of(sealed, private_key, namespaces)->Ok_0[i];
            &&& is_owned(sealed.metadata, "FuinClusterSealedSecret"@, secret)
            &&& is_named(sealed.spec.template, sealed.metadata, secret)
            &&& has_what_age_recovers(private_key, sealed.spec.encrypted_data, secret)
            &&& is_shaped(sealed.spec.template, secret)
        }),
{
    name_is_taken_over(sealed.spec.template, sealed.metadata);
    tables_are_taken_over(sealed.spec.template, "labels"@);
    tables_are_taken_over(sealed.spec.template, "annotations"@);
}

/// A sealed Secret in a namespace, with a name and a uid, is recreated where age reads the
/// private key and recovers every value, whatever its template.
pub proof fn recovered_secret_is_recreated(sealed: FuinSealedSecretView, private_key: Seq<char>)
    requires
        sealed.metadata.namespace is Some,
        sealed.metadata.name is Some,
        sealed.metadata.uid is Some,
        age_keys::age_identity(private_key) is Ok,
        forall|key: Seq<char>| #[trigger]
            sealed.spec.encrypted_data.contains_key(key) ==> age_keys::age_decrypt(
                private_key,
                sealed.spec.encrypted_data[key],
            ) is Ok,
    ensures
        controller::desired_secret_of(sealed, private_key) is Ok,
{
}

/// A sealed Secret without values is recreated, whatever the private key is.
pub proof fn nothing_to_recover_takes_no_key(
    sealed: FuinSealedSecretView,
    cluster_sealed: FuinClusterSealedSecretView,
    private_key: Seq<char>,
    namespaces: Seq<NamespaceView>,
)
    ensures
        sealed.metadata.namespace is Some && sealed.metadata.name is Some && sealed.metadata.uid
            is Some && (forall|key: Seq<char>| !#[trigger]
            sealed.spec.encrypted_data.contains_key(key)) ==> controller::desired_secret_of(
            sealed,
            private_key,
        ) is Ok,
        cluster_sealed.metadata.name is Some && cluster_sealed.metadata.uid is Some && (forall|
            key: Seq<char>,
        | !#[trigger] cluster_sealed.spec.encrypted_data.contains_key(key))
            ==> cluster::desired_secrets_of(cluster_sealed, private_key, namespaces) is Ok,
{
}

/// The same for a cluster-wide sealed Secret, whatever the namespaces.
pub proof fn recovered_cluster_secret_is_recreated(
    sealed: FuinClusterSealedSecretView,
    private_key: Seq<char>,
    namespaces: Seq<NamespaceView>,
)
    requires
        sealed.metadata.name is Some,
        sealed.metadata.uid is Some,
        age_keys::age_identity(private_key) is Ok,
        forall|key: Seq<char>| #[trigger]
            sealed.spec.encrypted_data.contains_key(key) ==> age_keys::age_decrypt(
                private_key,
                sealed.spec.encrypted_data[key],
            ) is Ok,
    ensures
        cluster::desired_secrets_of(sealed, private_key, namespaces) is Ok,
{
}

/// Without a namespace nothing is recreated, whatever else is wrong; and without a name or a
/// uid nothing is, where all else is right.
pub proof fn unplaced_or_unnamed_is_refused(sealed: FuinSealedSecretView, private_key: Seq<char>)
    ensures
        sealed.metadata.namespace is None ==> (controller::desired_secret_of(
            sealed,
            private_key,
        ) matches Err(e) && e is MissingNamespace),
        sealed.metadata.namespace is Some && (sealed.metadata.name is None
            || sealed.metadata.uid is None) && age_keys::age_identity(private_key) is Ok && (
        forall|key: Seq<char>| #[trigger]
            sealed.spec.encrypted_data.contains_key(key) ==> age_keys::age_decrypt(
                private_key,
                sealed.spec.encrypted_data[key],
            ) is Ok) ==> (controller::desired_secret_of(sealed, private_key) matches Err(e) && e
            == ErrorView::Configuration("sealed secret has no owner reference"@)),
{
}

/// Without a name or a uid nothing is recreated for the cluster, where all else is right.
pub proof fn unnamed_cluster_secret_is_refused(
    sealed: FuinClusterSealedSecretView,
    private_key: Seq<char>,
    namespaces: Seq<NamespaceView>,
)
    requires
        sealed.metadata.name is None || sealed.metadata.uid is None,
        age_keys::age_identity(private_key) is Ok,
        forall|key: Seq<char>| #[trigger]
            sealed.spec.encrypted_data.contains_key(key) ==> age_keys::age_decrypt(
                private_key,
                sealed.spec.encrypted_data[key],
            ) is Ok,
    ensures
        cluster::desired_secrets_of(sealed, private_key, namespaces) matches Err(e) && e
            == ErrorView::Configuration("sealed secret has no owner reference"@),
{
}

/// `key` is the first, in the order of the keys, under which age recovers nothing.
pub open spec fn is_first_unrecovered(
    private_key: Seq<char>,
    encrypted: Map<Seq<char>, Seq<char>>,
    key: Seq<char>,
) -> bool {
    &&& encrypted.contains_key(key)
    &&& age_keys::age_decrypt(private_key, encrypted[key]) is Err
    &&& forall|earlier: Seq<char>|
        encrypted.contains_key(earlier) && #[trigger] crate::string_map::key_less(earlier, key)
            ==> age_keys::age_decrypt(private_key, encrypted[earlier]) is Ok
}

/// Where age reads the private key but does not recover some value, nothing is recreated, and
/// the error is age's reason for the first such value.
pub proof fn first_unrecovered_value_is_the_error(
    sealed: FuinSealedSecretView,
    private_key: Seq<char>,
    key: Seq<char>,
)
    requires
        sealed.metadata.namespace is Some,
        age_keys::age_identity(private_key) is Ok,
        is_first_unrecovered(private_key, sealed.spec.encrypted_data, key),
    ensures
        controller::desired_secret_of(sealed, private_key) matches Err(e) && e
            == ErrorView::Encryption(
            Failure::Decrypt(
                age_keys::age_decrypt(private_key, sealed.spec.encrypted_data[key])->Err_0,
            ),
        ),
{
    let encrypted = sealed.spec.encrypted_data;
    first_unrecovered_decides(private_key, encrypted, key);
}

/// The same for a cluster-wide sealed Secret.
pub proof fn first_unrecovered_cluster_value_is_the_error(
    sealed: FuinClusterSealedSecretView,
    private_key: Seq<char>,
    namespaces: Seq<NamespaceView>,
    key: Seq<char>,
)
    requires
        age_keys::age_identity(private_key) is Ok,
        is_first_unrecovered(private_key, sealed.spec.encrypted_data, key),
    ensures
        cluster::desired_secrets_of(sealed, private_key, namespaces) matches Err(e) && e
            == ErrorView::Encryption(
            Failure::Decrypt(
                age_keys::age_decrypt(private_key, sealed.spec.encrypted_data[key])->Err_0,
            ),
        ),
{
    first_unrecovered_decides(private_key, sealed.spec.encrypted_data, key);
}

proof fn first_unrecovered_decides(
    private_key: Seq<char>,
    encrypted: Map<Seq<char>, Seq<char>>,
    key: Seq<char>,
)
    requires
        age_keys::age_identity(private_key) is Ok,
        is_first_unrecovered(private_key, encrypted, key),
    ensures
        unsealing::decrypted_data(private_key, encrypted) matches Err(e) && e == Failure::Decrypt(
            age_keys::age_decrypt(private_key, encrypted[key])->Err_0,
        ),
{
    assert(encryption::decrypted(private_key, encrypted[key]) is Err);
    assert(!unsealing::all_decrypt(private_key, encrypted));
    assert(unsealing::fails_first(private_key, encrypted, key));
    let first = choose|k: Seq<char>| #[trigger] unsealing::fails_first(private_key, encrypted, k);
    if first != key {
        crate::string_map::key_less_total(first, key);
    }
}

/// Where age does not read the private key, nothing that has a value is recreated, and the
/// error is age's reason.
pub proof fn unreadable_private_key_is_the_error(
    sealed: FuinSealedSecretView,
    private_key: Seq<char>,
    key: Seq<char>,
)
    requires
        sealed.metadata.namespace is Some,
        age_keys::age_identity(private_key) is Err,
        sealed.spec.encrypted_data.dom().finite(),
        sealed.spec.encrypted_data.contains_key(key),
    ensures
        controller::desired_secret_of(sealed, private_key) matches Err(e) && e
            == ErrorView::Encryption(
            Failure::InvalidPrivateKey(age_keys::age_identity(private_key)->Err_0),
        ),
{
    assert(encryption::decrypted(private_key, sealed.spec.encrypted_data[key]) is Err);
    let first = unsealing::first_failure_decides(private_key, sealed.spec.encrypted_data);
}

/// The same for a cluster-wide sealed Secret.
pub proof fn unreadable_private_key_is_the_cluster_error(
    sealed: FuinClusterSealedSecretView,
    private_key: Seq<char>,
    namespaces: Seq<NamespaceView>,
    key: Seq<char>,
)
    requires
        age_keys::age_identity(private_key) is Err,
        sealed.spec.encrypted_data.dom().finite(),
        sealed.spec.encrypted_data.contains_key(key),
    ensures
        cluster::desired_secrets_of(sealed, private_key, namespaces) matches Err(e) && e
            == ErrorView::Encryption(
            Failure::InvalidPrivateKey(age_keys::age_identity(private_key)->Err_0),
        ),
{
    assert(encryption::decrypted(private_key, sealed.spec.encrypted_data[key]) is Err);
    let first = unsealing::first_failure_decides(private_key, sealed.spec.encrypted_data);
}

/// Values are put into a Secret as given, under the given name, in the given namespace and for
/// the given owner; the template shapes it.
pub proof fn values_are_put_together_as_given(
    template: Option<SecretTemplateView>,
    name: Seq<char>,
    namespace: Seq<char>,
    owner: crate::resources::OwnerReferenceView,
    data: Map<Seq<char>, Seq<u8>>,
)
    ensures
        ({
            let secret = unsealing::unsealed(template, name, namespace, owner, data);
            &&& secret.metadata.name == Some(name)
            &&& secret.metadata.namespace == Some(namespace)
            &&& secret.metadata.owner_references == Some(seq![owner])
            &&& secret.data == Some(data)
            &&& secret.string_data is None
            &&& is_shaped(template, secret)
        }),
{
    tables_are_taken_over(template, "labels"@);
    tables_are_taken_over(template, "annotations"@);
}

/// The name of an object is its own, else the prefix to make one from, else nothing.
pub proof fn best_name_is_taken(metadata: ObjectMetaView)
    ensures
        metadata.name matches Some(name) ==> metadata.name_any() == name,
        metadata.name is None ==> (metadata.generate_name matches Some(prefix)
            ==> metadata.name_any() == prefix),
        metadata.name is None && metadata.generate_name is None ==> metadata.name_any().len() == 0,
{
}

/// An object is named as an owner, as the controller, where it has a name and a uid, and only
/// there.
pub proof fn owner_is_named_by_name_and_uid(metadata: ObjectMetaView, kind: Seq<char>)
    ensures
        metadata.controller_owner_ref(kind) is Some <==> metadata.name is Some && metadata.uid
            is Some,
        metadata.controller_owner_ref(kind) matches Some(owner) ==> {
            &&& owner.api_version == "fuin.abr.sh/v1alpha1"@
            &&& owner.kind == kind
            &&& metadata.name == Some(owner.name)
            &&& metadata.uid == Some(owner.uid)
            &&& owner.controller == Some(true)
            &&& owner.block_owner_deletion is None
        },
{
}

} // verus!
