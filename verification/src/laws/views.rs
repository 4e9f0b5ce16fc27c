//! What the views say: everything that the values hold.

use crate::cli;
use crate::cluster::Namespace;
use crate::controller;
use crate::encryption::{self, Failure};
use crate::resources::{self, ObjectMeta, OwnerReference, Secret};
use crate::secret_file::ParsedSecret;
use crate::types::{EventRecord, FieldValue, FieldValueView, MetadataValue, MetadataValueView};
use crate::types::{FuinClusterSealedSecret, FuinClusterSealedSecretStatus};
use crate::types::{FuinSealedSecret, FuinSealedSecretStatus, SecretTemplate};
use vstd::prelude::*;

verus! {

/// `view` is the view of the optional `value`.
pub open spec fn is_option_of<T: View>(value: Option<T>, view: Option<T::V>) -> bool {
    &&& value is Some <==> view is Some
    &&& value matches Some(inner) ==> view == Some(inner@)
}

/// `view` is the list of the views of `items`.
pub open spec fn is_list_of<T: View>(items: Seq<T>, view: Seq<T::V>) -> bool {
    &&& items.len() == view.len()
    &&& forall|i: int| 0 <= i < items.len() ==> #[trigger] view[i] == items[i]@
}

/// An optional value is seen as what it holds.
pub proof fn option_is_seen<T: View>(value: Option<T>)
    ensures
        is_option_of(value, resources::opt_view(value)),
{
}

/// A list is seen item by item.
pub proof fn list_is_seen<T: View>(items: Seq<T>)
    ensures
        is_list_of(items, resources::list_view(items)),
{
}

/// Of an owner reference every field is seen.
pub proof fn owner_reference_is_seen(owner: OwnerReference)
    ensures
        owner@.api_version == owner.api_version@,
        owner@.kind == owner.kind@,
        owner@.name == owner.name@,
        owner@.uid == owner.uid@,
        owner@.controller == owner.controller,
        owner@.block_owner_deletion == owner.block_owner_deletion,
{
}

/// Of metadata every field is seen.
pub proof fn metadata_is_seen(metadata: ObjectMeta)
    ensures
        is_option_of(metadata.name, metadata@.name),
        is_option_of(metadata.generate_name, metadata@.generate_name),
        is_option_of(metadata.namespace, metadata@.namespace),
        is_option_of(metadata.uid, metadata@.uid),
        metadata@.generation == metadata.generation,
        is_option_of(metadata.labels, metadata@.labels),
        is_option_of(metadata.annotations, metadata@.annotations),
        metadata.owner_references is Some <==> metadata@.owner_references is Some,
        metadata.owner_references matches Some(owners) ==> is_list_of(
            owners@,
            metadata@.owner_references->0,
        ),
{
}

/// Of a Secret every field is seen.
pub proof fn secret_is_seen(secret: Secret)
    ensures
        secret@.metadata == secret.metadata@,
        is_option_of(secret.data, secret@.data),
        is_option_of(secret.string_data, secret@.string_data),
        secret@.immutable == secret.immutable,
        is_option_of(secret.type_, secret@.type_),
{
}

/// A value inside metadata is seen as the text that it is, or as no text.
pub proof fn field_is_seen(field: FieldValue)
    ensures
        field matches FieldValue::Text(text) ==> field@ == FieldValueView::Text(text@),
        field is Other <==> field@ is Other,
{
}

/// An entry of metadata is seen as the text or the table that it is, or as neither.
pub proof fn metadata_entry_is_seen(entry: MetadataValue)
    ensures
        entry matches MetadataValue::Text(text) ==> entry@ == MetadataValueView::Text(text@),
        entry matches MetadataValue::Table(table) ==> entry@ == MetadataValueView::Table(table@),
        entry is Other <==> entry@ is Other,
{
}

/// Of a template every field is seen.
pub proof fn template_is_seen(template: SecretTemplate)
    ensures
        is_option_of(template.metadata, template@.metadata),
        is_option_of(template.type_, template@.type_),
        template@.immutable == template.immutable,
{
}

/// Of a sealed Secret every field is seen.
pub proof fn sealed_secret_is_seen(sealed: FuinSealedSecret)
    ensures
        sealed@.metadata == sealed.metadata@,
        sealed@.spec.encrypted_data == sealed.spec.encrypted_data@,
        is_option_of(sealed.spec.template, sealed@.spec.template),
        is_option_of(sealed.status, sealed@.status),
{
}

/// Of a cluster-wide sealed Secret every field is seen.
pub proof fn cluster_sealed_secret_is_seen(sealed: FuinClusterSealedSecret)
    ensures
        sealed@.metadata == sealed.metadata@,
        sealed@.spec.encrypted_data == sealed.spec.encrypted_data@,
        sealed@.spec.namespace_selector == sealed.spec.namespace_selector.match_labels@,
        is_list_of(sealed.spec.exclude_namespaces@, sealed@.spec.exclude_namespaces),
        is_option_of(sealed.spec.template, sealed@.spec.template),
        is_option_of(sealed.status, sealed@.status),
{
}

/// Of a status every field is seen.
pub proof fn status_is_seen(status: FuinSealedSecretStatus)
    ensures
        status@.phase == status.phase,
        is_option_of(status.message, status@.message),
        status@.data_count == status.data_count,
        status@.observed_generation == status.observed_generation,
        status@.conditions == status.conditions@,
{
}

/// Of a cluster-wide status every field is seen.
pub proof fn cluster_status_is_seen(status: FuinClusterSealedSecretStatus)
    ensures
        status@.phase == status.phase,
        is_option_of(status.message, status@.message),
        status@.namespace_count == status.namespace_count,
        status@.observed_generation == status.observed_generation,
        status@.conditions == status.conditions@,
{
}

/// Of an event every field is seen.
pub proof fn event_is_seen(event: EventRecord)
    ensures
        event@.kind == event.kind,
        event@.reason == event.reason@,
        is_option_of(event.note, event@.note),
        event@.action == event.action@,
{
}

/// Of a namespace every field is seen.
pub proof fn namespace_is_seen(namespace: Namespace)
    ensures
        namespace@.name == namespace.name@,
        namespace@.labels == namespace.labels@,
{
}

/// Of a parsed Secret every field is seen.
pub proof fn parsed_secret_is_seen(parsed: ParsedSecret)
    ensures
        is_option_of(parsed.name, parsed@.name),
        is_option_of(parsed.generate_name, parsed@.generate_name),
        is_option_of(parsed.namespace, parsed@.namespace),
        is_option_of(parsed.uid, parsed@.uid),
        parsed@.generation == parsed.generation,
        parsed.labels is Some <==> parsed@.labels is Some,
        parsed.labels matches Some(pairs) ==> is_list_of(pairs@, parsed@.labels->0),
        parsed.annotations is Some <==> parsed@.annotations is Some,
        parsed.annotations matches Some(pairs) ==> is_list_of(pairs@, parsed@.annotations->0),
        parsed.data is Some <==> parsed@.data is Some,
        parsed.data matches Some(pairs) ==> is_list_of(pairs@, parsed@.data->0),
        parsed.string_data is Some <==> parsed@.string_data is Some,
        parsed.string_data matches Some(pairs) ==> is_list_of(pairs@, parsed@.string_data->0),
        parsed@.immutable == parsed.immutable,
        is_option_of(parsed.type_, parsed@.type_),
{
}

/// An error of encryption is seen as its kind, with the reason where there is one.
pub proof fn encryption_error_is_seen(error: encryption::Error)
    ensures
        error@ matches Failure::InvalidPublicKey(reason) ==> error
            matches encryption::Error::InvalidPublicKey(r) && r@ == reason,
        error@ matches Failure::InvalidPrivateKey(reason) ==> error
            matches encryption::Error::InvalidPrivateKey(r) && r@ == reason,
        error@ is Encrypt <==> error is Encrypt,
        error@ matches Failure::Decrypt(reason) ==> error matches encryption::Error::Decrypt(f)
            && f@ == reason,
        error@ is InvalidUtf8 <==> error is InvalidUtf8,
{
}

/// An error of the controller is seen as its kind, with all that it holds.
pub proof fn controller_error_is_seen(error: controller::Error)
    ensures
        error@ matches controller::ErrorView::Kubernetes(inner) ==> error
            == controller::Error::Kubernetes(inner),
        error@ matches controller::ErrorView::Encryption(failure) ==> error
            matches controller::Error::Encryption(e) && e@ == failure,
        error@ matches controller::ErrorView::Configuration(text) ==> error
            matches controller::Error::Configuration(t) && t@ == text,
        error@ is MissingNamespace <==> error is MissingNamespace,
{
}

/// An error of the command line tool is seen as its kind, with all that it holds.
pub proof fn cli_error_is_seen(error: cli::Error)
    ensures
        error@ matches cli::ErrorView::Kubernetes(inner) ==> error == cli::Error::Kubernetes(inner),
        error@ matches cli::ErrorView::Encryption(failure) ==> error matches cli::Error::Encryption(
            e,
        ) && e@ == failure,
        error@ matches cli::ErrorView::Input(text) ==> error matches cli::Error::Input(t) && t@
            == text,
        error@ matches cli::ErrorView::EmptySecret(name) ==> error matches cli::Error::EmptySecret(
            n,
        ) && n@ == name,
{
}

} // verus!
