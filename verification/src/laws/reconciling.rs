//! What holds of the steps of a reconciliation and of the controller's key.

use crate::age_keys;
use crate::cluster::{self, ClusterStatusPatch, ClusterStep, Namespace};
use crate::controller::{self, Error, ErrorView, KeyStep, ReconcileStep, StatusPatch};
use crate::encryption::{Failure, KeyPair};
use crate::resources::ObjectMetaView;
use crate::resources::{self, ApiError};
use crate::types::{EventKind, EventRecordView, FuinClusterSealedSecretView, FuinPrivateKeySpec};
use crate::types::{FuinSealedSecretView, SecretPhase};
use vstd::prelude::*;

verus! {

/// The name, else the prefix to make one from, else nothing.
pub open spec fn best_name(metadata: ObjectMetaView) -> Seq<char> {
    if metadata.name is Some {
        metadata.name->0
    } else if metadata.generate_name is Some {
        metadata.generate_name->0
    } else {
        Seq::empty()
    }
}

/// The event warns, in these words, of a failed reconciliation.
pub open spec fn warns(event: EventRecordView, words: Seq<char>) -> bool {
    &&& event.kind == EventKind::Warning
    &&& event.reason == "ReconcileFailed"@
    &&& event.note == Some(words)
    &&& event.action == "Reconcile"@
}

/// The event tells of a Secret that was applied.
pub open spec fn tells_of_success(event: EventRecordView) -> bool {
    &&& event.kind == EventKind::Normal
    &&& event.reason == "SecretApplied"@
    &&& event.note == Some("Decrypted the sealed values and applied the Secret"@)
    &&& event.action == "Reconcile"@
}

/// The patch goes to the sealed Secret itself and gives it this status, as of the generation
/// that was looked at.
pub open spec fn gives_status(
    sealed: FuinSealedSecretView,
    patch: StatusPatch,
    phase: SecretPhase,
    message: Option<Seq<char>>,
    data_count: i32,
) -> bool {
    &&& sealed.metadata.namespace == Some(patch.namespace@)
    &&& patch.name@ == best_name(sealed.metadata)
    &&& patch.status@.phase == Some(phase)
    &&& patch.status@.message == message
    &&& patch.status@.data_count == Some(data_count)
    &&& patch.status@.observed_generation == sealed.metadata.generation
    &&& patch.status@.conditions.len() == 0
}

/// The patch goes to the cluster-wide sealed Secret itself and gives it this status, as of the
/// generation that was looked at.
pub open spec fn gives_cluster_status(
    sealed: FuinClusterSealedSecretView,
    patch: ClusterStatusPatch,
    phase: SecretPhase,
    message: Option<Seq<char>>,
    namespace_count: i32,
) -> bool {
    &&& patch.name@ == best_name(sealed.metadata)
    &&& patch.status@.phase == Some(phase)
    &&& patch.status@.message == message
    &&& patch.status@.namespace_count == Some(namespace_count)
    &&& patch.status@.observed_generation == sealed.metadata.generation
    &&& patch.status@.conditions.len() == 0
}

/// The events say what happened.
pub proof fn events_say_what_happened(words: Seq<char>)
    ensures
        tells_of_success(controller::applied_event()),
        warns(controller::failed_event(words), words),
{
}

/// A status is patched as given, in a namespace and only there.
pub proof fn status_is_patched_as_given(
    sealed: FuinSealedSecretView,
    phase: SecretPhase,
    message: Option<Seq<char>>,
    data_count: i32,
    outcome: controller::Result<StatusPatch>,
)
    requires
        controller::patches_status(sealed, phase, message, data_count, outcome),
    ensures
        sealed.metadata.namespace is None ==> (outcome matches Err(e) && e@
            == ErrorView::MissingNamespace),
        sealed.metadata.namespace is Some ==> outcome is Ok && gives_status(
            sealed,
            outcome->Ok_0,
            phase,
            message,
            data_count,
        ),
{
}

/// A cluster-wide status is patched as given.
pub proof fn cluster_status_is_patched_as_given(
    sealed: FuinClusterSealedSecretView,
    patch: ClusterStatusPatch,
    phase: SecretPhase,
    message: Option<Seq<char>>,
    namespace_count: i32,
)
    requires
        cluster::is_cluster_status_patch(sealed, patch, phase, message, namespace_count),
    ensures
        gives_cluster_status(sealed, patch, phase, message, namespace_count),
{
}

/// A sealed Secret that unseals is begun with by applying that very Secret, where it belongs
/// and under its own name.
pub proof fn unsealed_secret_is_applied_where_it_belongs(
    sealed: FuinSealedSecretView,
    private_key: Seq<char>,
    step: ReconcileStep,
)
    requires
        controller::desired_secret_of(sealed, private_key) is Ok,
        controller::reconcile_begins(sealed, private_key, step),
    ensures
        step is ApplySecret,
        step->ApplySecret_secret@ == controller::desired_secret_of(sealed, private_key)->Ok_0,
        sealed.metadata.namespace == Some(step->ApplySecret_namespace@),
        step->ApplySecret_secret@.metadata.name == Some(step->ApplySecret_name@),
{
}

/// The step reports `error` in the status, in words and with no values, or where there is no
/// namespace, warns of it.
pub open spec fn tells_of_failure(
    sealed: FuinSealedSecretView,
    error: Error,
    step: ReconcileStep,
) -> bool {
    if sealed.metadata.namespace is Some {
        &&& step is ReportFailed
        &&& step->ReportFailed_error == error
        &&& step->ReportFailed_patch.status@.message matches Some(words) && error.describes(words)
            && gives_status(sealed, step->ReportFailed_patch, SecretPhase::Failed, Some(words), 0)
    } else {
        warns_of_failure(error, step)
    }
}

/// The step warns of `error` in words.
pub open spec fn warns_of_failure(error: Error, step: ReconcileStep) -> bool {
    &&& step is RecordFailed
    &&& step->RecordFailed_error == error
    &&& step->RecordFailed_event@.note matches Some(words) && error.describes(words) && warns(
        step->RecordFailed_event@,
        words,
    )
}

proof fn failure_is_told(sealed: FuinSealedSecretView, error: Error, step: ReconcileStep)
    requires
        controller::turns_to_failure(sealed, error, step),
    ensures
        tells_of_failure(sealed, error, step),
{
}

/// A sealed Secret that does not unseal is begun with by telling why.
pub proof fn failure_to_unseal_is_told(
    sealed: FuinSealedSecretView,
    private_key: Seq<char>,
    step: ReconcileStep,
) -> (error: Error)
    requires
        controller::desired_secret_of(sealed, private_key) is Err,
        controller::reconcile_begins(sealed, private_key, step),
    ensures
        error@ == controller::desired_secret_of(sealed, private_key)->Err_0,
        tells_of_failure(sealed, error, step),
{
    let view = controller::desired_secret_of(sealed, private_key)->Err_0;
    let error = choose|error: Error| #[trigger]
        controller::turns_to_failure(sealed, error, step) && error@ == view;
    failure_is_told(sealed, error, step);
    error
}

/// After the Secret was applied, the number of its values is reported; after that, the success
/// is recorded; and that ends well, whether or not it could be recorded, until an hour later.
pub proof fn success_goes_its_way(
    sealed: FuinSealedSecretView,
    step: ReconcileStep,
    reply: std::result::Result<(), ApiError>,
    next: ReconcileStep,
)
    requires
        controller::reconcile_continues(sealed, step, reply, next),
        sealed.metadata.namespace is Some,
    ensures
        step is ApplySecret && reply is Ok ==> next is ReportApplied && gives_status(
            sealed,
            next->ReportApplied_0,
            SecretPhase::Applied,
            None,
            sealed.spec.encrypted_data.len() as i32,
        ),
        step is ReportApplied && reply is Ok ==> next is RecordApplied && tells_of_success(
            next->RecordApplied_0@,
        ),
        step is RecordApplied ==> next is Finish && next->Finish_0.requeue_after_seconds == 3600,
{
}

/// A request that the cluster refuses, to apply or to report success, is told of as the error;
/// a told error is warned of, and a warned error is the end, whether or not it could be told.
pub proof fn failure_goes_its_way(
    sealed: FuinSealedSecretView,
    step: ReconcileStep,
    reply: std::result::Result<(), ApiError>,
    next: ReconcileStep,
)
    requires
        controller::reconcile_continues(sealed, step, reply, next),
    ensures
        (step is ApplySecret || step is ReportApplied) && reply is Err ==> tells_of_failure(
            sealed,
            Error::Kubernetes(reply->Err_0),
            next,
        ),
        step is ApplySecret && reply is Ok && sealed.metadata.namespace is None
            ==> tells_of_failure(sealed, Error::MissingNamespace, next),
        step is ReportFailed ==> warns_of_failure(step->ReportFailed_error, next),
        step is RecordFailed ==> next is Fail && next->Fail_0 == step->RecordFailed_error,
        step is Finish || step is Fail ==> next == step,
{
    if (step is ApplySecret || step is ReportApplied) && reply is Err {
        failure_is_told(sealed, Error::Kubernetes(reply->Err_0), next);
    }
    if step is ApplySecret && reply is Ok && sealed.metadata.namespace is None {
        failure_is_told(sealed, Error::MissingNamespace, next);
    }
}

/// Every failed reconciliation is tried again after half a minute.
pub proof fn failure_is_retried_soon(error: Error)
    ensures
        controller::retry_of(error).requeue_after_seconds == 30,
{
}

/// The step reports `error` in the cluster-wide status, in words and with no namespaces.
pub open spec fn tells_of_cluster_failure(
    sealed: FuinClusterSealedSecretView,
    error: Error,
    step: ClusterStep,
) -> bool {
    &&& step is ReportFailed
    &&& step->ReportFailed_error == error
    &&& step->ReportFailed_patch.status@.message matches Some(words) && error.describes(words)
        && gives_cluster_status(
        sealed,
        step->ReportFailed_patch,
        SecretPhase::Failed,
        Some(words),
        0,
    )
}

/// A cluster-wide sealed Secret that unseals is begun with by applying its Secrets from the
/// first, or, where it is for no namespace, by reporting that.
pub proof fn cluster_secrets_are_applied_from_the_first(
    sealed: FuinClusterSealedSecretView,
    private_key: Seq<char>,
    namespaces: Vec<Namespace>,
    step: ClusterStep,
)
    requires
        cluster::desired_secrets_of(sealed, private_key, resources::list_view(namespaces@)) is Ok,
        cluster::cluster_reconcile_begins(sealed, private_key, Ok(namespaces), step),
    ensures
        ({
            let secrets = cluster::desired_secrets_of(
                sealed,
                private_key,
                resources::list_view(namespaces@),
            )->Ok_0;
            &&& secrets.len() > 0 ==> {
                &&& step is ApplySecrets
                &&& step->ApplySecrets_next == 0
                &&& step->ApplySecrets_secrets@.len() == secrets.len()
                &&& forall|i: int|
                    0 <= i < secrets.len() ==> #[trigger] step->ApplySecrets_secrets@[i]@
                        == secrets[i]
            }
            &&& secrets.len() == 0 ==> step is ReportApplied && gives_cluster_status(
                sealed,
                step->ReportApplied_0,
                SecretPhase::Applied,
                None,
                0,
            )
        }),
{
    let secrets = cluster::desired_secrets_of(
        sealed,
        private_key,
        resources::list_view(namespaces@),
    )->Ok_0;
    if secrets.len() > 0 {
        let applied = step->ApplySecrets_secrets@;
        assert(resources::list_view(applied) == secrets);
        assert forall|i: int| 0 <= i < secrets.len() implies #[trigger] applied[i]@
            == secrets[i] by {
            assert(resources::list_view(applied)[i] == applied[i]@);
        }
    }
}

/// Namespaces that cannot be listed, and a cluster-wide sealed Secret that does not unseal, are
/// begun with by telling why.
pub proof fn cluster_failure_is_told(
    sealed: FuinClusterSealedSecretView,
    private_key: Seq<char>,
    listed: Result<Vec<Namespace>, ApiError>,
    step: ClusterStep,
) -> (error: Error)
    requires
        cluster::cluster_reconcile_begins(sealed, private_key, listed, step),
        listed matches Ok(namespaces) ==> cluster::desired_secrets_of(
            sealed,
            private_key,
            resources::list_view(namespaces@),
        ) is Err,
    ensures
        listed matches Err(e) ==> error == Error::Kubernetes(e),
        listed matches Ok(namespaces) ==> error@ == cluster::desired_secrets_of(
            sealed,
            private_key,
            resources::list_view(namespaces@),
        )->Err_0,
        tells_of_cluster_failure(sealed, error, step),
{
    match listed {
        Err(e) => Error::Kubernetes(e),
        Ok(namespaces) => {
            let view = cluster::desired_secrets_of(
                sealed,
                private_key,
                resources::list_view(namespaces@),
            )->Err_0;
            choose|error: Error| #[trigger]
                cluster::reports_failure(sealed, error, step) && error@ == view
        },
    }
}

/// The Secrets are applied one after the other; after the last, their number is reported; after
/// that, the success is recorded; and that ends well until an hour later.
pub proof fn cluster_success_goes_its_way(
    sealed: FuinClusterSealedSecretView,
    step: ClusterStep,
    reply: Result<(), ApiError>,
    following: ClusterStep,
)
    requires
        cluster::cluster_reconcile_continues(sealed, step, reply, following),
    ensures
        step is ApplySecrets && reply is Ok && step->ApplySecrets_next + 1
            < step->ApplySecrets_secrets@.len() ==> {
            &&& following is ApplySecrets
            &&& following->ApplySecrets_secrets == step->ApplySecrets_secrets
            &&& following->ApplySecrets_next == step->ApplySecrets_next + 1
        },
        step is ApplySecrets && reply is Ok && step->ApplySecrets_next + 1
            >= step->ApplySecrets_secrets@.len() ==> following is ReportApplied
            && gives_cluster_status(
            sealed,
            following->ReportApplied_0,
            SecretPhase::Applied,
            None,
            step->ApplySecrets_secrets@.len() as i32,
        ),
        step is ReportApplied && reply is Ok ==> following is RecordApplied && tells_of_success(
            following->RecordApplied_0@,
        ),
        step is RecordApplied ==> following is Finish && following->Finish_0.requeue_after_seconds
            == 3600,
{
    if let ClusterStep::ApplySecrets { secrets, next } = step {
        assert(secrets@.len() == secrets.len());
    }
}

/// A request that the cluster refuses, to apply or to report success, is told of as the error;
/// a told error is warned of, and a warned error is the end, whether or not it could be told.
pub proof fn cluster_failure_goes_its_way(
    sealed: FuinClusterSealedSecretView,
    step: ClusterStep,
    reply: Result<(), ApiError>,
    following: ClusterStep,
)
    requires
        cluster::cluster_reconcile_continues(sealed, step, reply, following),
    ensures
        (step is ApplySecrets || step is ReportApplied) && reply is Err
            ==> tells_of_cluster_failure(sealed, Error::Kubernetes(reply->Err_0), following),
        step is ReportFailed ==> {
            &&& following is RecordFailed
            &&& following->RecordFailed_error == step->ReportFailed_error
            &&& following->RecordFailed_event@.note matches Some(words)
                && step->ReportFailed_error.describes(words) && warns(
                following->RecordFailed_event@,
                words,
            )
        },
        step is RecordFailed ==> following is Fail && following->Fail_0
            == step->RecordFailed_error,
        step is Finish || step is Fail ==> following == step,
{
}

/// The controller's namespace is what its variable says; without it there is none.
pub proof fn controller_namespace_is_what_is_set(
    variable: Option<String>,
    namespace: controller::Result<String>,
)
    requires
        controller::is_controller_namespace(variable, namespace),
    ensures
        variable matches Some(value) ==> (namespace matches Ok(n) && n@ == value@),
        variable is None ==> (namespace matches Err(e) && e@ == ErrorView::Configuration(
            "FUIN_CONTROLLER_NAMESPACE"@ + " must be set to the controller namespace"@,
        )),
{
}

/// The controller and the command line tool go by fixed names.
pub proof fn managers_go_by_their_names()
    ensures
        controller::FIELD_MANAGER@ == "fuin-controller"@,
        crate::cli::CLI_FIELD_MANAGER@ == "fuin-cli"@,
        controller::CONTROLLER_NAMESPACE_ENV@ == "FUIN_CONTROLLER_NAMESPACE"@,
        resources::API_VERSION@ == "fuin.abr.sh/v1alpha1"@,
        controller::SEALED_SECRET_KIND@ == "FuinSealedSecret"@,
        cluster::CLUSTER_SEALED_SECRET_KIND@ == "FuinClusterSealedSecret"@,
{
}

/// The step publishes, as `fuin-controller`, the public key that age derives from
/// `private_key`, which is kept.
pub open spec fn publishes_the_key_of(private_key: Seq<char>, step: KeyStep) -> bool {
    &&& step is PublishPublicKey
    &&& step->PublishPublicKey_name@ == "fuin-controller"@
    &&& step->PublishPublicKey_private_key@ == private_key
    &&& age_keys::age_identity(private_key) == Ok::<Seq<char>, Seq<char>>(
        step->PublishPublicKey_spec.public_key@,
    )
    &&& step->PublishPublicKey_spec.public_key@ != private_key
}

/// What is decided with a private key that was found: its public key is published, or it is no
/// private key.
pub open spec fn uses_the_key(private_key: Seq<char>, outcome: controller::Result<KeyStep>) -> bool {
    &&& age_keys::age_identity(private_key) is Ok ==> outcome is Ok && publishes_the_key_of(
        private_key,
        outcome->Ok_0,
    )
    &&& age_keys::age_identity(private_key) is Err ==> (outcome matches Err(e) && e@
        == ErrorView::Encryption(
        Failure::InvalidPrivateKey(age_keys::age_identity(private_key)->Err_0),
    ))
}

/// The key is looked for as `fuin-controller-key` in the controller's namespace; one that is
/// there is used, and where there is none a new one is to be created there.
pub proof fn existing_key_is_used_else_created(
    namespace: Seq<char>,
    first: KeyStep,
    reply: std::result::Result<Option<FuinPrivateKeySpec>, ApiError>,
    outcome: controller::Result<KeyStep>,
)
    requires
        controller::key_set_up_begins(namespace, first),
        controller::goes_on_read(namespace, reply, outcome),
    ensures
        first is ReadPrivateKey,
        first->ReadPrivateKey_namespace@ == namespace,
        first->ReadPrivateKey_name@ == "fuin-controller-key"@,
        reply matches Ok(Some(found)) ==> uses_the_key(found.private_key@, outcome),
        reply matches Ok(None) ==> (outcome matches Ok(step) && step is CreatePrivateKey && {
            &&& step->CreatePrivateKey_namespace@ == namespace
            &&& step->CreatePrivateKey_name@ == "fuin-controller-key"@
            &&& age_keys::age_identity(step->CreatePrivateKey_keys.private_key@) == Ok::<
                Seq<char>,
                Seq<char>,
            >(step->CreatePrivateKey_keys.public_key@)
        }),
        reply matches Err(error) ==> (outcome matches Err(e) && e == Error::Kubernetes(error)),
{
}

/// A key that was created is published and kept; where another was there already, and only
/// there, that one is read and used instead; any other refusal is the error of the cluster.
pub proof fn key_that_was_there_first_is_used(
    namespace: Seq<char>,
    keys: KeyPair,
    reply: std::result::Result<(), ApiError>,
    outcome: controller::Result<KeyStep>,
    reread: std::result::Result<FuinPrivateKeySpec, ApiError>,
    after_reread: controller::Result<KeyStep>,
)
    requires
        controller::goes_on_created(namespace, keys, reply, outcome),
        controller::goes_on_reread(reread, after_reread),
    ensures
        reply is Ok ==> (outcome matches Ok(step) && step is PublishPublicKey && {
            &&& step->PublishPublicKey_name@ == "fuin-controller"@
            &&& step->PublishPublicKey_spec.public_key@ == keys.public_key@
            &&& step->PublishPublicKey_private_key@ == keys.private_key@
        }),
        reply matches Err(error) ==> (error.code == Some(409u16) ==> (outcome matches Ok(step)
            && step is RereadPrivateKey && {
            &&& step->RereadPrivateKey_namespace@ == namespace
            &&& step->RereadPrivateKey_name@ == "fuin-controller-key"@
        })),
        reply matches Err(error) ==> (error.code != Some(409u16) ==> (outcome matches Err(e) && e
            == Error::Kubernetes(error))),
        reread matches Ok(found) ==> uses_the_key(found.private_key@, after_reread),
        reread matches Err(error) ==> (after_reread matches Err(e) && e == Error::Kubernetes(
            error,
        )),
{
}

/// Once the public key is published, the private key is ready; where it cannot be published,
/// there is no key.
pub proof fn published_key_is_ready(
    private_key: String,
    reply: std::result::Result<(), ApiError>,
    outcome: controller::Result<KeyStep>,
)
    requires
        controller::goes_on_published(private_key, reply, outcome),
    ensures
        reply is Ok ==> (outcome matches Ok(step) && step is Ready && step->Ready_0
            == private_key),
        reply matches Err(error) ==> (outcome matches Err(e) && e == Error::Kubernetes(error)),
{
}

} // verus!
