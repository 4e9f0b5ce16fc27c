//! What holds of sealing and unsealing together.

use crate::age_keys;
use crate::cli::{self, Error, SealArgs, SealStep, Sealed};
use crate::cluster::{self, NamespaceView};
use crate::controller;
use crate::encryption::{self, Failure, KeyPair};
use crate::resources::{self, SecretView};
use crate::sealing;
use crate::secret_file;
use crate::types::{FuinClusterSealedSecretView, FuinSealedSecretView};
use crate::unsealing;
use vstd::prelude::*;
use vstd::utf8::*;

pub mod collecting;
pub mod delivering;
pub mod encrypting;
pub mod reconciling;
pub mod recreating;
pub mod sealed;
pub mod selecting;
pub mod views;
pub mod words;

verus! {

/// Both `data` and `stringData` are sealed: every entry of either is among the entries to
/// encrypt, and where both have one it is that of `stringData`.
pub proof fn both_kinds_of_data_are_sealed(source: SecretView, key: Seq<char>)
    ensures
        source.string_data matches Some(texts) && texts.contains_key(key) ==> {
            &&& sealing::plaintext_of(source).contains_key(key)
            &&& sealing::plaintext_of(source)[key] == encode_utf8(source.string_data->0[key])
        },
        !(source.string_data matches Some(texts) && texts.contains_key(key)) && (
        source.data matches Some(data) && data.contains_key(key)) ==> {
            &&& sealing::plaintext_of(source).contains_key(key)
            &&& sealing::plaintext_of(source)[key] == source.data->0[key]
        },
{
}

/// The names of the entries stay readable: a sealed resource has the names of the source's
/// entries, and no others.
pub proof fn entry_names_stay_readable(
    args: SealArgs,
    source: SecretView,
    recipient: Seq<char>,
    sealed: Sealed,
)
    requires
        cli::is_sealed(args, source, recipient, sealed),
    ensures
        match sealed {
            Sealed::Namespaced(resource) => resource@.spec.encrypted_data.dom()
                == sealing::plaintext_of(source).dom(),
            Sealed::ClusterWide(resource) => resource@.spec.encrypted_data.dom()
                == sealing::plaintext_of(source).dom(),
        },
{
}

/// Sealing a Secret that has entries with the public key of a key pair succeeds, unless a
/// cluster-wide one is asked for with a label that cannot be read.
pub proof fn sealing_succeeds(
    keys: KeyPair,
    args: SealArgs,
    source: SecretView,
    outcome: Option<Result<Sealed, Error>>,
)
    requires
        keys.belongs_together(),
        sealing::plaintext_of(source).dom() != Set::<Seq<char>>::empty(),
        args.cluster_wide ==> cli::labels_of(resources::list_view(args.namespace_labels@)) is Ok,
        cli::seals(args, source, keys.public_key@, outcome),
    ensures
        outcome matches Some(Ok(sealed)) && cli::is_sealed(
            args,
            source,
            keys.public_key@,
            sealed,
        ),
{
}

/// What is sealed with the public key of a key pair decrypts, with its private key, to the
/// entries it was made of.
pub proof fn sealed_data_decrypts(
    keys: KeyPair,
    data: Map<Seq<char>, Seq<u8>>,
    encrypted: Map<Seq<char>, Seq<char>>,
)
    requires
        keys.belongs_together(),
        sealing::is_sealing_of(keys.public_key@, data, encrypted),
    ensures
        unsealing::decrypted_data(keys.private_key@, encrypted) == Ok::<
            Map<Seq<char>, Seq<u8>>,
            Failure,
        >(data),
{
    let private_key = keys.private_key@;
    assert forall|key: Seq<char>| #[trigger] encrypted.contains_key(key) implies
        encryption::decrypted(private_key, encrypted[key]) == Ok::<Seq<u8>, Failure>(
        data[key],
    ) by {
        assert(encrypted.dom().contains(key));
        assert(data.contains_key(key));
        assert(age_keys::opens_for(keys.public_key@, encrypted[key], data[key]));
        assert(age_keys::age_decrypt(private_key, encrypted[key]) is Ok);
    }
    assert(unsealing::decrypted_data(private_key, encrypted)->Ok_0 =~= data);
}

/// The template of a Secret gives back its name, namespace, labels and annotations.
pub proof fn template_gives_back_metadata(source: SecretView)
    ensures
        ({
            let template = Some(sealing::template_of(source));
            &&& unsealing::template_text(template, "name"@) == Some(source.metadata.name_any())
            &&& unsealing::template_text(template, "namespace"@) == source.metadata.namespace
            &&& unsealing::template_table(template, "labels"@) == source.metadata.labels
            &&& unsealing::template_table(template, "annotations"@) == source.metadata.annotations
        }),
{
    reveal_strlit("name");
    reveal_strlit("namespace");
    reveal_strlit("labels");
    reveal_strlit("annotations");
    assert("name"@.len() != "namespace"@.len());
    assert("name"@.len() != "labels"@.len());
    assert("name"@.len() != "annotations"@.len());
    assert("namespace"@.len() != "labels"@.len());
    assert("namespace"@.len() != "annotations"@.len());
    assert("labels"@.len() != "annotations"@.len());
    if let Some(labels) = source.metadata.labels {
        assert(unsealing::texts_of(sealing::fields_of(labels)) =~= labels);
    }
    if let Some(annotations) = source.metadata.annotations {
        assert(unsealing::texts_of(sealing::fields_of(annotations)) =~= annotations);
    }
}

/// `secret` is `source` as it is in `namespace`: the same name, entries, labels, annotations,
/// type and immutability.
pub open spec fn restores(source: SecretView, namespace: Seq<char>, secret: SecretView) -> bool {
    &&& secret.data == Some(sealing::plaintext_of(source))
    &&& secret.string_data is None
    &&& secret.type_ == source.type_
    &&& secret.immutable == source.immutable
    &&& secret.metadata.name == Some(source.metadata.name_any())
    &&& secret.metadata.namespace == Some(namespace)
    &&& secret.metadata.labels == source.metadata.labels
    &&& secret.metadata.annotations == source.metadata.annotations
}

/// A Secret that is sealed with the controller's public key and applied is recreated by the
/// controller as it was, in the namespace that the sealed Secret is in.
pub proof fn sealed_secret_is_recreated(
    keys: KeyPair,
    args: SealArgs,
    source: SecretView,
    sealed: Sealed,
    stored: FuinSealedSecretView,
)
    requires
        keys.belongs_together(),
        cli::is_sealed(args, source, keys.public_key@, sealed),
        sealed matches Sealed::Namespaced(resource) && stored.spec == resource@.spec
            && stored.metadata.name == resource@.metadata.name,
        stored.metadata.namespace is Some,
        stored.metadata.uid is Some,
    ensures
        controller::desired_secret_of(stored, keys.private_key@) matches Ok(secret) && restores(
            source,
            stored.metadata.namespace->0,
            secret,
        ),
{
    sealed_data_decrypts(keys, sealing::plaintext_of(source), stored.spec.encrypted_data);
    template_gives_back_metadata(source);
}

/// The Secret that a file holds, once sealed with the controller's public key and applied, is
/// recreated by the controller as the file says.
pub proof fn file_is_recreated(
    keys: KeyPair,
    args: SealArgs,
    path: Seq<char>,
    text: String,
    outcome: Result<SealStep, Error>,
    sealed: Sealed,
    stored: FuinSealedSecretView,
)
    requires
        keys.belongs_together(),
        cli::goes_on_file_read(args, path, Ok(text), outcome),
        outcome matches Ok(step) && step matches SealStep::FetchPublicKey { source, .. }
            && cli::is_sealed(args, source@, keys.public_key@, sealed),
        sealed matches Sealed::Namespaced(resource) && stored.spec == resource@.spec
            && stored.metadata.name == resource@.metadata.name,
        stored.metadata.namespace is Some,
        stored.metadata.uid is Some,
    ensures
        secret_file::yaml_secret(text@) matches Ok(parsed) && controller::desired_secret_of(
            stored,
            keys.private_key@,
        ) matches Ok(secret) && restores(
            secret_file::secret_of(parsed),
            stored.metadata.namespace->0,
            secret,
        ),
{
    let source = outcome->Ok_0->FetchPublicKey_source;
    sealed_secret_is_recreated(keys, args, source@, sealed, stored);
}

/// A Secret that is sealed for the cluster with the controller's public key and applied is
/// recreated by the controller as it was, in every selected namespace.
pub proof fn cluster_sealed_secret_is_recreated(
    keys: KeyPair,
    args: SealArgs,
    source: SecretView,
    sealed: Sealed,
    stored: FuinClusterSealedSecretView,
    namespaces: Seq<NamespaceView>,
)
    requires
        keys.belongs_together(),
        cli::is_sealed(args, source, keys.public_key@, sealed),
        sealed matches Sealed::ClusterWide(resource) && stored.spec == resource@.spec
            && stored.metadata.name == resource@.metadata.name,
        stored.metadata.uid is Some,
    ensures
        cluster::desired_secrets_of(stored, keys.private_key@, namespaces) matches Ok(secrets) && {
            let targets = cluster::targets_of(stored.spec, namespaces);
            &&& secrets.len() == targets.len()
            &&& forall|i: int|
                0 <= i < targets.len() ==> restores(source, targets[i], #[trigger] secrets[i])
        },
{
    sealed_data_decrypts(keys, sealing::plaintext_of(source), stored.spec.encrypted_data);
    template_gives_back_metadata(source);
}

} // verus!
