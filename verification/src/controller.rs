//! What the controller decides: its key at start-up, and how one sealed Secret is
//! reconciled.
//!
//! Each decision names the next request to the cluster. The caller performs it and hands
//! the reply to the next decision, until there is nothing left to ask.

use crate::age_keys;
use crate::encryption::{self, Failure, KeyPair};
use crate::resources::{ApiError, Secret, SecretView};
use crate::resources;
use crate::types::{EventKind, EventRecord, EventRecordView};
use crate::types::{FuinPrivateKeySpec, FuinPublicKeySpec};
use crate::types::{FuinSealedSecret, FuinSealedSecretView, SecretPhase};
use crate::types::{FuinSealedSecretStatus, FuinSealedSecretStatusView};
use crate::unsealing;
use vstd::prelude::*;
use vstd::string::*;

verus! {

/// The environment variable that holds the controller's own namespace.
pub const CONTROLLER_NAMESPACE_ENV: &'static str = "FUIN_CONTROLLER_NAMESPACE";

/// The name of the controller's private key, in its own namespace.
pub const PRIVATE_KEY_NAME: &'static str = "fuin-controller-key";

/// The name of the controller's public key.
pub const PUBLIC_KEY_NAME: &'static str = "fuin-controller";

/// The name under which the controller applies objects.
pub const FIELD_MANAGER: &'static str = "fuin-controller";

/// The kind of a namespaced sealed Secret.
pub const SEALED_SECRET_KIND: &'static str = "FuinSealedSecret";

/// Errors of the controller.
#[derive(Debug)]
pub enum Error {
    Kubernetes(ApiError),
    Encryption(encryption::Error),
    Configuration(String),
    MissingNamespace,
}

pub type Result<T> = std::result::Result<T, Error>;

/// What an [`Error`] says.
pub enum ErrorView {
    Kubernetes(ApiError),
    Encryption(Failure),
    Configuration(Seq<char>),
    MissingNamespace,
}

impl View for Error {
    type V = ErrorView;

    open spec fn view(&self) -> ErrorView {
        match self {
            Error::Kubernetes(error) => ErrorView::Kubernetes(*error),
            Error::Encryption(error) => ErrorView::Encryption(error@),
            Error::Configuration(text) => ErrorView::Configuration(text@),
            Error::MissingNamespace => ErrorView::MissingNamespace,
        }
    }
}

impl Error {
    /// `text` says in words what went wrong.
    pub open spec fn describes(self, text: Seq<char>) -> bool {
        match self {
            Error::Kubernetes(error) => text == "Kubernetes API error: "@ + error.message@,
            Error::Encryption(error) => exists|words: Seq<char>| #[trigger]
                error.describes(words) && text == "age encryption error: "@ + words,
            Error::Configuration(words) => text == words@,
            Error::MissingNamespace => text == "sealed secret has no namespace"@,
        }
    }

    /// The error in words.
    pub fn message(&self) -> (text: String)
        ensures
            self.describes(text@),
    {
        match self {
            Error::Kubernetes(error) => "Kubernetes API error: ".to_owned().concat(
                error.message.as_str(),
            ),
            Error::Encryption(error) => {
                let words = error.message();
                "age encryption error: ".to_owned().concat(words.as_str())
            },
            Error::Configuration(words) => words.clone(),
            Error::MissingNamespace => "sealed secret has no namespace".to_owned(),
        }
    }
}

/// What reconciling works with.
#[derive(Clone, Debug)]
pub struct Context {
    pub private_key: String,
}

/// When an object is to be looked at again.
#[derive(Clone, Copy, Debug, PartialEq, Eq, Structural)]
pub struct Action {
    pub requeue_after_seconds: u64,
}

/// The Secret that a sealed Secret stands for, or why there is none: it is in no namespace,
/// a value does not decrypt, or it cannot be named as an owner, in this order.
pub open spec fn desired_secret_of(
    sealed: FuinSealedSecretView,
    private_key: Seq<char>,
) -> std::result::Result<SecretView, ErrorView> {
    match sealed.metadata.namespace {
        None => Err(ErrorView::MissingNamespace),
        Some(namespace) => match unsealing::decrypted_data(
            private_key,
            sealed.spec.encrypted_data,
        ) {
            Err(failure) => Err(ErrorView::Encryption(failure)),
            Ok(data) => match sealed.metadata.controller_owner_ref(SEALED_SECRET_KIND@) {
                None => Err(
                    ErrorView::Configuration("sealed secret has no owner reference"@),
                ),
                Some(owner) => Ok(
                    unsealing::unsealed(
                        sealed.spec.template,
                        unsealing::output_name(sealed.spec.template, sealed.metadata),
                        namespace,
                        owner,
                        data,
                    ),
                ),
            },
        },
    }
}

/// The name of the Secret that a sealed Secret stands for: the one its template gives, else
/// its own.
pub fn output_secret_name(sealed_secret: &FuinSealedSecret) -> (name: String)
    ensures
        name@ == unsealing::output_name(sealed_secret@.spec.template, sealed_secret@.metadata),
{
    unsealing::find_output_name(&sealed_secret.spec.template, &sealed_secret.metadata)
}

/// The Secret that a sealed Secret stands for.
pub fn desired_secret(sealed_secret: &FuinSealedSecret, context: &Context) -> (secret: Result<
    Secret,
>)
    ensures
        match desired_secret_of(sealed_secret@, context.private_key@) {
            Ok(view) => secret matches Ok(s) && s@ == view,
            Err(view) => secret matches Err(e) && e@ == view,
        },
{
    let namespace = match &sealed_secret.metadata.namespace {
        Some(namespace) => namespace.clone(),
        None => {
            return Err(Error::MissingNamespace);
        },
    };
    let data = match unsealing::decrypt_data(
        context.private_key.as_str(),
        &sealed_secret.spec.encrypted_data,
    ) {
        Ok(data) => data,
        Err(error) => {
            return Err(Error::Encryption(error));
        },
    };
    let name = output_secret_name(sealed_secret);
    match sealed_secret.metadata.controller_owner_ref(SEALED_SECRET_KIND) {
        Some(owner) => Ok(
            unsealing::unseal(&sealed_secret.spec.template, name, namespace, owner, data),
        ),
        None => Err(Error::Configuration("sealed secret has no owner reference".to_owned())),
    }
}

/// A status to apply to a sealed Secret.
#[derive(Debug)]
pub struct StatusPatch {
    pub namespace: String,
    pub name: String,
    pub status: FuinSealedSecretStatus,
}

/// `patch` gives the sealed Secret the phase, message and number of values, as of the
/// generation that was looked at.
pub open spec fn is_status_patch(
    sealed: FuinSealedSecretView,
    patch: StatusPatch,
    phase: SecretPhase,
    message: Option<Seq<char>>,
    data_count: i32,
) -> bool {
    &&& sealed.metadata.namespace == Some(patch.namespace@)
    &&& patch.name@ == sealed.metadata.name_any()
    &&& patch.status@ == FuinSealedSecretStatusView {
        phase: Some(phase),
        message,
        data_count: Some(data_count),
        observed_generation: sealed.metadata.generation,
        conditions: Seq::empty(),
    }
}

/// What patching the status of a sealed Secret comes to: it takes a namespace.
pub open spec fn patches_status(
    sealed: FuinSealedSecretView,
    phase: SecretPhase,
    message: Option<Seq<char>>,
    data_count: i32,
    outcome: Result<StatusPatch>,
) -> bool {
    match sealed.metadata.namespace {
        Some(_) => outcome matches Ok(patch) && is_status_patch(
            sealed,
            patch,
            phase,
            message,
            data_count,
        ),
        None => outcome matches Err(e) && e@ == ErrorView::MissingNamespace,
    }
}

/// The status patch of a sealed Secret.
pub fn patch_status(
    sealed_secret: &FuinSealedSecret,
    phase: SecretPhase,
    message: Option<String>,
    data_count: i32,
) -> (patch: Result<StatusPatch>)
    ensures
        patches_status(sealed_secret@, phase, resources::opt_view(message), data_count, patch),
{
    match &sealed_secret.metadata.namespace {
        Some(namespace) => Ok(
            StatusPatch {
                namespace: namespace.clone(),
                name: sealed_secret.metadata.name_any(),
                status: FuinSealedSecretStatus {
                    phase: Some(phase),
                    message,
                    data_count: Some(data_count),
                    observed_generation: sealed_secret.metadata.generation,
                    conditions: Vec::new(),
                },
            },
        ),
        None => Err(Error::MissingNamespace),
    }
}

/// The event of a successful reconciliation.
pub open spec fn applied_event() -> EventRecordView {
    EventRecordView {
        kind: EventKind::Normal,
        reason: "SecretApplied"@,
        note: Some("Decrypted the sealed values and applied the Secret"@),
        action: "Reconcile"@,
    }
}

/// The event of a reconciliation that failed for the reason given in words.
pub open spec fn failed_event(message: Seq<char>) -> EventRecordView {
    EventRecordView {
        kind: EventKind::Warning,
        reason: "ReconcileFailed"@,
        note: Some(message),
        action: "Reconcile"@,
    }
}

/// Writes the event of a successful reconciliation.
pub fn event_of_success() -> (event: EventRecord)
    ensures
        event@ == applied_event(),
{
    EventRecord {
        kind: EventKind::Normal,
        reason: "SecretApplied".to_owned(),
        note: Some("Decrypted the sealed values and applied the Secret".to_owned()),
        action: "Reconcile".to_owned(),
    }
}

/// Writes the event of a failed reconciliation.
pub fn event_of_failure(message: String) -> (event: EventRecord)
    ensures
        event@ == failed_event(message@),
{
    EventRecord {
        kind: EventKind::Warning,
        reason: "ReconcileFailed".to_owned(),
        note: Some(message),
        action: "Reconcile".to_owned(),
    }
}

/// The next request of a reconciliation, or its end.
#[derive(Debug)]
pub enum ReconcileStep {
    /// Apply the Secret, taking over its fields.
    ApplySecret { namespace: String, name: String, secret: Secret },
    /// Patch the status to say that the Secret was applied.
    ReportApplied(StatusPatch),
    /// Patch the status to say what went wrong.
    ReportFailed { patch: StatusPatch, error: Error },
    /// Record the success as an event.
    RecordApplied(EventRecord),
    /// Record the failure as an event.
    RecordFailed { event: EventRecord, error: Error },
    /// All is done.
    Finish(Action),
    /// The reconciliation failed.
    Fail(Error),
}

impl ReconcileStep {
    /// How many requests there are at most before the end.
    pub open spec fn requests_left(self) -> nat {
        match self {
            ReconcileStep::ApplySecret { .. } => 4,
            ReconcileStep::ReportApplied(_) => 3,
            ReconcileStep::ReportFailed { .. } => 2,
            ReconcileStep::RecordApplied(_) => 1,
            ReconcileStep::RecordFailed { .. } => 1,
            ReconcileStep::Finish(_) => 0,
            ReconcileStep::Fail(_) => 0,
        }
    }
}

/// `step` records `error` as an event.
pub open spec fn records_failure(error: Error, step: ReconcileStep) -> bool {
    step matches ReconcileStep::RecordFailed { event, error: e } && e == error && exists|
        message: Seq<char>,
    | #[trigger] error.describes(message) && event@ == failed_event(message)
}

/// `step` is what follows when reconciling `sealed` came to `error`: the status says so, or,
/// where there is no namespace to find the resource in, the event alone.
pub open spec fn turns_to_failure(
    sealed: FuinSealedSecretView,
    error: Error,
    step: ReconcileStep,
) -> bool {
    match sealed.metadata.namespace {
        Some(_) => step matches ReconcileStep::ReportFailed { patch, error: e } && e == error
            && exists|message: Seq<char>| #[trigger]
            error.describes(message) && is_status_patch(
                sealed,
                patch,
                SecretPhase::Failed,
                Some(message),
                0,
            ),
        None => records_failure(error, step),
    }
}

/// Records a failure as an event.
fn record_failure(error: Error) -> (step: ReconcileStep)
    ensures
        records_failure(error, step),
{
    let message = error.message();
    ReconcileStep::RecordFailed { event: event_of_failure(message), error }
}

/// Turns to reporting a failure.
fn report_failure(sealed_secret: &FuinSealedSecret, error: Error) -> (step: ReconcileStep)
    ensures
        turns_to_failure(sealed_secret@, error, step),
{
    let message = error.message();
    match patch_status(sealed_secret, SecretPhase::Failed, Some(message), 0) {
        Ok(patch) => ReconcileStep::ReportFailed { patch, error },
        Err(_) => record_failure(error),
    }
}

/// How reconciling `sealed` begins: with the Secret it stands for, or with the failure.
pub open spec fn reconcile_begins(
    sealed: FuinSealedSecretView,
    private_key: Seq<char>,
    step: ReconcileStep,
) -> bool {
    match desired_secret_of(sealed, private_key) {
        Ok(view) => {
            &&& step matches ReconcileStep::ApplySecret { namespace, name, secret }
            &&& secret@ == view
            &&& view.metadata.namespace == Some(namespace@)
            &&& view.metadata.name == Some(name@)
        },
        Err(view) => exists|error: Error| #[trigger]
            turns_to_failure(sealed, error, step) && error@ == view,
    }
}

/// Begins to reconcile a sealed Secret.
pub fn reconcile(sealed_secret: &FuinSealedSecret, context: &Context) -> (step: ReconcileStep)
    ensures
        reconcile_begins(sealed_secret@, context.private_key@, step),
{
    match desired_secret(sealed_secret, context) {
        Ok(secret) => {
            let namespace = secret.metadata.namespace.as_ref().unwrap().clone();
            let name = output_secret_name(sealed_secret);
            ReconcileStep::ApplySecret { namespace, name, secret }
        },
        Err(error) => {
            let step = report_failure(sealed_secret, error);
            assert(turns_to_failure(sealed_secret@, error, step));
            step
        },
    }
}

/// How reconciling `sealed` goes on from `step` when its request was answered by `reply`.
pub open spec fn reconcile_continues(
    sealed: FuinSealedSecretView,
    step: ReconcileStep,
    reply: std::result::Result<(), ApiError>,
    next: ReconcileStep,
) -> bool {
    match step {
        ReconcileStep::ApplySecret { .. } => match reply {
            Ok(_) => match sealed.metadata.namespace {
                Some(_) => next matches ReconcileStep::ReportApplied(patch) && is_status_patch(
                    sealed,
                    patch,
                    SecretPhase::Applied,
                    None,
                    sealed.spec.encrypted_data.len() as i32,
                ),
                None => turns_to_failure(sealed, Error::MissingNamespace, next),
            },
            Err(error) => turns_to_failure(sealed, Error::Kubernetes(error), next),
        },
        ReconcileStep::ReportApplied(_) => match reply {
            Ok(_) => next matches ReconcileStep::RecordApplied(event) && event@ == applied_event(),
            Err(error) => turns_to_failure(sealed, Error::Kubernetes(error), next),
        },
        ReconcileStep::ReportFailed { error, .. } => records_failure(error, next),
        ReconcileStep::RecordApplied(_) => next == ReconcileStep::Finish(
            Action { requeue_after_seconds: 3600 },
        ),
        ReconcileStep::RecordFailed { error, .. } => next == ReconcileStep::Fail(error),
        ReconcileStep::Finish(_) => next == step,
        ReconcileStep::Fail(_) => next == step,
    }
}

/// Goes on with a reconciliation after the reply to a request. A failure to report or to
/// record is not itself a reason to fail.
pub fn reconcile_next(
    sealed_secret: &FuinSealedSecret,
    step: ReconcileStep,
    reply: std::result::Result<(), ApiError>,
) -> (next: ReconcileStep)
    ensures
        reconcile_continues(sealed_secret@, step, reply, next),
        step.requests_left() > 0 ==> next.requests_left() < step.requests_left(),
{
    match step {
        ReconcileStep::ApplySecret { .. } => match reply {
            Ok(_) => {
                #[verifier::truncate]
                let data_count: i32 = sealed_secret.spec.encrypted_data.len() as i32;
                match patch_status(sealed_secret, SecretPhase::Applied, None, data_count) {
                    Ok(patch) => ReconcileStep::ReportApplied(patch),
                    Err(_) => report_failure(sealed_secret, Error::MissingNamespace),
                }
            },
            Err(error) => report_failure(sealed_secret, Error::Kubernetes(error)),
        },
        ReconcileStep::ReportApplied(_) => match reply {
            Ok(_) => ReconcileStep::RecordApplied(event_of_success()),
            Err(error) => report_failure(sealed_secret, Error::Kubernetes(error)),
        },
        ReconcileStep::ReportFailed { patch: _, error } => record_failure(error),
        ReconcileStep::RecordApplied(_) => ReconcileStep::Finish(
            Action { requeue_after_seconds: 3600 },
        ),
        ReconcileStep::RecordFailed { event: _, error } => ReconcileStep::Fail(error),
        ReconcileStep::Finish(action) => ReconcileStep::Finish(action),
        ReconcileStep::Fail(error) => ReconcileStep::Fail(error),
    }
}

/// When a reconciliation that failed with `error` is tried again.
pub open spec fn retry_of(error: Error) -> Action {
    Action { requeue_after_seconds: 30 }
}

/// When a reconciliation that failed is tried again.
pub fn error_policy(_error: &Error) -> (action: Action)
    ensures
        action == retry_of(*_error),
{
    Action { requeue_after_seconds: 30 }
}

/// Whatever the replies, a reconciliation that came to an error ends with that error.
pub proof fn failure_is_kept(
    sealed: FuinSealedSecretView,
    error: Error,
    first: ReconcileStep,
    first_reply: std::result::Result<(), ApiError>,
    second: ReconcileStep,
    second_reply: std::result::Result<(), ApiError>,
    third: ReconcileStep,
)
    requires
        turns_to_failure(sealed, error, first),
        reconcile_continues(sealed, first, first_reply, second),
        reconcile_continues(sealed, second, second_reply, third),
    ensures
        third == ReconcileStep::Fail(error),
{
}

/// A sealed Secret of which any value does not decrypt is never applied.
pub proof fn undecryptable_is_not_applied(
    sealed: FuinSealedSecretView,
    private_key: Seq<char>,
    key: Seq<char>,
    step: ReconcileStep,
)
    requires
        sealed.spec.encrypted_data.contains_key(key),
        encryption::decrypted(private_key, sealed.spec.encrypted_data[key]) is Err,
        reconcile_begins(sealed, private_key, step),
    ensures
        !(step is ApplySecret),
{
    assert(!unsealing::all_decrypt(private_key, sealed.spec.encrypted_data));
    if step is ApplySecret {
        let view = desired_secret_of(sealed, private_key)->Err_0;
        let error = choose|error: Error| #[trigger]
            turns_to_failure(sealed, error, step) && error@ == view;
        assert(turns_to_failure(sealed, error, step));
    }
}

/// Where some value does not decrypt, reconciling begins with the report of why the first such
/// value, in the order of the keys, does not.
pub proof fn first_failure_is_reported(
    sealed: FuinSealedSecretView,
    private_key: Seq<char>,
    step: ReconcileStep,
) -> (first: Seq<char>)
    requires
        sealed.metadata.namespace is Some,
        sealed.spec.encrypted_data.dom().finite(),
        !unsealing::all_decrypt(private_key, sealed.spec.encrypted_data),
        reconcile_begins(sealed, private_key, step),
    ensures
        unsealing::fails_first(private_key, sealed.spec.encrypted_data, first),
        step matches ReconcileStep::ReportFailed { error, .. } && error@ == ErrorView::Encryption(
            encryption::decrypted(private_key, sealed.spec.encrypted_data[first])->Err_0,
        ),
{
    unsealing::first_failure_decides(private_key, sealed.spec.encrypted_data)
}

/// When the cluster does all that is asked, a sealed Secret that unseals is applied, reported
/// with the number of its values, recorded, and looked at again after an hour.
pub proof fn unsealed_is_applied_and_reported(
    sealed: FuinSealedSecretView,
    private_key: Seq<char>,
    apply: ReconcileStep,
    report: ReconcileStep,
    record: ReconcileStep,
    end: ReconcileStep,
)
    requires
        desired_secret_of(sealed, private_key) is Ok,
        reconcile_begins(sealed, private_key, apply),
        reconcile_continues(sealed, apply, Ok(()), report),
        reconcile_continues(sealed, report, Ok(()), record),
        reconcile_continues(sealed, record, Ok(()), end),
    ensures
        apply matches ReconcileStep::ApplySecret { secret, .. } && secret@ == desired_secret_of(
            sealed,
            private_key,
        )->Ok_0,
        report matches ReconcileStep::ReportApplied(patch) && patch.status@.phase == Some(
            SecretPhase::Applied,
        ) && patch.status@.data_count == Some(sealed.spec.encrypted_data.len() as i32),
        record is RecordApplied,
        end == ReconcileStep::Finish(Action { requeue_after_seconds: 3600 }),
{
}

/// Success is reported only once the Secret was applied, recorded only once it was reported,
/// and nothing else ends well.
pub proof fn success_comes_only_after_applying(
    sealed: FuinSealedSecretView,
    step: ReconcileStep,
    reply: std::result::Result<(), ApiError>,
    next: ReconcileStep,
)
    requires
        reconcile_continues(sealed, step, reply, next),
    ensures
        next is ReportApplied ==> step is ApplySecret && reply is Ok,
        next is RecordApplied ==> step is ReportApplied && reply is Ok,
        next is Finish ==> step is RecordApplied || step is Finish,
{
}

/// The namespace that the controller runs in is the value of its environment variable, which
/// must be set.
pub open spec fn is_controller_namespace(
    variable: Option<String>,
    namespace: Result<String>,
) -> bool {
    match variable {
        Some(value) => namespace == Ok::<String, Error>(value),
        None => namespace matches Err(e) && e@ == ErrorView::Configuration(
            CONTROLLER_NAMESPACE_ENV@ + " must be set to the controller namespace"@,
        ),
    }
}

/// The namespace that the controller runs in, from its environment variable.
pub fn controller_namespace(variable: Option<String>) -> (namespace: Result<String>)
    ensures
        is_controller_namespace(variable, namespace),
{
    match variable {
        Some(value) => Ok(value),
        None => Err(
            Error::Configuration(
                CONTROLLER_NAMESPACE_ENV.to_owned().concat(
                    " must be set to the controller namespace",
                ),
            ),
        ),
    }
}

/// The next request in setting up the controller's key, or its end.
#[derive(Debug)]
pub enum KeyStep {
    /// Read the private key.
    ReadPrivateKey { namespace: String, name: String },
    /// Create the private key of a new pair.
    CreatePrivateKey { namespace: String, name: String, keys: KeyPair },
    /// Read the private key that someone else created meanwhile.
    RereadPrivateKey { namespace: String, name: String },
    /// Apply the public key, taking over its fields.
    PublishPublicKey { name: String, spec: FuinPublicKeySpec, private_key: String },
    /// The key is ready.
    Ready(String),
}

/// `step` publishes the public key of `private_key`, and not the private key itself.
pub open spec fn publishes(private_key: Seq<char>, step: KeyStep) -> bool {
    step matches KeyStep::PublishPublicKey { name, spec, private_key: kept } && {
        &&& name@ == PUBLIC_KEY_NAME@
        &&& kept@ == private_key
        &&& spec.public_key@ != private_key
        &&& age_keys::is_key_pair(private_key, spec.public_key@)
        &&& age_keys::is_sound_recipient(spec.public_key@)
        &&& age_keys::is_no_recipient(private_key)
    }
}

impl KeyStep {
    /// A private key that is to be created has its public key beside it, and a public key
    /// that is to be published belongs to the private key that is kept.
    pub open spec fn is_sound(self) -> bool {
        match self {
            KeyStep::CreatePrivateKey { keys, .. } => keys.is_valid(),
            KeyStep::PublishPublicKey { private_key, .. } => publishes(private_key@, self),
            _ => true,
        }
    }
}

/// What is encrypted to the public key that the controller publishes decrypts with the
/// private key that it keeps.
pub proof fn published_key_serves_the_kept_key(
    step: KeyStep,
    plaintext: Seq<u8>,
    outcome: encryption::Result<String>,
)
    requires
        step.is_sound(),
        step is PublishPublicKey,
        encryption::encrypts(step->PublishPublicKey_spec.public_key@, plaintext, outcome),
    ensures
        outcome matches Ok(ciphertext) && encryption::decrypted(
            step->PublishPublicKey_private_key@,
            ciphertext@,
        ) == Ok::<Seq<u8>, Failure>(plaintext),
{
}

/// What follows once the private key is known: its public key is published, or it is no
/// private key.
pub open spec fn goes_on_with_key(private_key: Seq<char>, outcome: Result<KeyStep>) -> bool {
    match age_keys::age_identity(private_key) {
        Ok(_) => outcome matches Ok(step) && publishes(private_key, step),
        Err(reason) => outcome matches Err(e) && e@ == ErrorView::Encryption(
            Failure::InvalidPrivateKey(reason),
        ),
    }
}

/// A private key that is there is kept: no other is created, and the public key that is
/// published belongs to it.
pub proof fn existing_key_is_kept(private_key: Seq<char>, outcome: Result<KeyStep>)
    requires
        goes_on_with_key(private_key, outcome),
    ensures
        outcome matches Ok(step) ==> step is PublishPublicKey && step->PublishPublicKey_private_key@
            == private_key && age_keys::is_key_pair(
            private_key,
            step->PublishPublicKey_spec.public_key@,
        ),
{
}

/// How setting up the controller's key begins: by looking for the private key in the
/// controller's namespace.
pub open spec fn key_set_up_begins(namespace: Seq<char>, step: KeyStep) -> bool {
    step matches KeyStep::ReadPrivateKey { namespace: n, name } && n@ == namespace && name@
        == PRIVATE_KEY_NAME@
}

/// Begins to set up the controller's key.
pub fn ensure_controller_key(namespace: &str) -> (step: KeyStep)
    ensures
        key_set_up_begins(namespace@, step),
{
    KeyStep::ReadPrivateKey {
        namespace: namespace.to_owned(),
        name: PRIVATE_KEY_NAME.to_owned(),
    }
}

/// Goes on with a private key that is there.
fn use_private_key(private_key: String) -> (outcome: Result<KeyStep>)
    ensures
        goes_on_with_key(private_key@, outcome),
{
    match encryption::public_key(private_key.as_str()) {
        Ok(public_key) => Ok(
            KeyStep::PublishPublicKey {
                name: PUBLIC_KEY_NAME.to_owned(),
                spec: FuinPublicKeySpec { public_key },
                private_key,
            },
        ),
        Err(error) => Err(Error::Encryption(error)),
    }
}

/// What follows when the private key was looked for: the one that is there is used; or there
/// is a new pair, of which the private key is to be created in the controller's namespace.
pub open spec fn goes_on_read(
    namespace: Seq<char>,
    reply: std::result::Result<Option<FuinPrivateKeySpec>, ApiError>,
    outcome: Result<KeyStep>,
) -> bool {
    match reply {
        Ok(Some(found)) => goes_on_with_key(found.private_key@, outcome),
        Ok(None) => outcome matches Ok(step) && step matches KeyStep::CreatePrivateKey {
            namespace: n,
            name,
            keys,
        } && {
            &&& n@ == namespace
            &&& name@ == PRIVATE_KEY_NAME@
            &&& keys.is_valid()
        },
        Err(error) => outcome == Err::<KeyStep, Error>(Error::Kubernetes(error)),
    }
}

/// Goes on after the private key was looked for.
pub fn private_key_read(
    namespace: &str,
    reply: std::result::Result<Option<FuinPrivateKeySpec>, ApiError>,
) -> (outcome: Result<KeyStep>)
    ensures
        goes_on_read(namespace@, reply, outcome),
        outcome matches Ok(step) ==> step.is_sound(),
{
    match reply {
        Ok(Some(found)) => use_private_key(found.private_key),
        Ok(None) => Ok(
            KeyStep::CreatePrivateKey {
                namespace: namespace.to_owned(),
                name: PRIVATE_KEY_NAME.to_owned(),
                keys: encryption::generate_keypair(),
            },
        ),
        Err(error) => Err(Error::Kubernetes(error)),
    }
}

/// Whether an error says that the object is there already.
pub open spec fn is_conflict(error: ApiError) -> bool {
    error.code == Some(409u16)
}

/// What follows when the private key of a new pair was created: its public key is published;
/// or, where a private key is there already, that one is read.
pub open spec fn goes_on_created(
    namespace: Seq<char>,
    keys: KeyPair,
    reply: std::result::Result<(), ApiError>,
    outcome: Result<KeyStep>,
) -> bool {
    match reply {
        Ok(_) => outcome matches Ok(step) && step matches KeyStep::PublishPublicKey {
            name,
            spec,
            private_key,
        } && {
            &&& name@ == PUBLIC_KEY_NAME@
            &&& spec.public_key == keys.public_key
            &&& private_key == keys.private_key
        },
        Err(error) => if is_conflict(error) {
            outcome matches Ok(step) && step matches KeyStep::RereadPrivateKey {
                namespace: n,
                name,
            } && n@ == namespace && name@ == PRIVATE_KEY_NAME@
        } else {
            outcome == Err::<KeyStep, Error>(Error::Kubernetes(error))
        },
    }
}

/// Goes on after the private key of a new pair was created.
pub fn private_key_created(
    namespace: &str,
    keys: KeyPair,
    reply: std::result::Result<(), ApiError>,
) -> (outcome: Result<KeyStep>)
    ensures
        goes_on_created(namespace@, keys, reply, outcome),
        keys.belongs_together() ==> (outcome matches Ok(step) ==> step.is_sound()),
{
    match reply {
        Ok(_) => Ok(
            KeyStep::PublishPublicKey {
                name: PUBLIC_KEY_NAME.to_owned(),
                spec: FuinPublicKeySpec { public_key: keys.public_key },
                private_key: keys.private_key,
            },
        ),
        Err(error) => match error.code {
            Some(409) => Ok(
                KeyStep::RereadPrivateKey {
                    namespace: namespace.to_owned(),
                    name: PRIVATE_KEY_NAME.to_owned(),
                },
            ),
            _ => Err(Error::Kubernetes(error)),
        },
    }
}

/// What follows when the private key that someone else created was read.
pub open spec fn goes_on_reread(
    reply: std::result::Result<FuinPrivateKeySpec, ApiError>,
    outcome: Result<KeyStep>,
) -> bool {
    match reply {
        Ok(found) => goes_on_with_key(found.private_key@, outcome),
        Err(error) => outcome == Err::<KeyStep, Error>(Error::Kubernetes(error)),
    }
}

/// Goes on after the private key that someone else created was read.
pub fn private_key_reread(reply: std::result::Result<FuinPrivateKeySpec, ApiError>) -> (outcome:
    Result<KeyStep>)
    ensures
        goes_on_reread(reply, outcome),
        outcome matches Ok(step) ==> step.is_sound(),
{
    match reply {
        Ok(found) => use_private_key(found.private_key),
        Err(error) => Err(Error::Kubernetes(error)),
    }
}

/// What follows when the public key was published: the private key is ready to work with.
pub open spec fn goes_on_published(
    private_key: String,
    reply: std::result::Result<(), ApiError>,
    outcome: Result<KeyStep>,
) -> bool {
    match reply {
        Ok(_) => outcome == Ok::<KeyStep, Error>(KeyStep::Ready(private_key)),
        Err(error) => outcome == Err::<KeyStep, Error>(Error::Kubernetes(error)),
    }
}

/// Ends the set-up after the public key was published.
pub fn public_key_published(
    private_key: String,
    reply: std::result::Result<(), ApiError>,
) -> (outcome: Result<KeyStep>)
    ensures
        goes_on_published(private_key, reply, outcome),
{
    match reply {
        Ok(_) => Ok(KeyStep::Ready(private_key)),
        Err(error) => Err(Error::Kubernetes(error)),
    }
}

/// With some reply, the step at place `k` of `run` leads to the one at the next place.
pub open spec fn key_set_up_goes_on_at(run: Seq<KeyStep>, k: int) -> bool {
    let outcome = Ok::<KeyStep, Error>(run[k + 1]);
    match run[k] {
        KeyStep::ReadPrivateKey { namespace, .. } => exists|
            reply: std::result::Result<Option<FuinPrivateKeySpec>, ApiError>,
        | #[trigger] goes_on_read(namespace@, reply, outcome),
        KeyStep::CreatePrivateKey { namespace, keys, .. } => exists|
            reply: std::result::Result<(), ApiError>,
        | #[trigger] goes_on_created(namespace@, keys, reply, outcome),
        KeyStep::RereadPrivateKey { .. } => exists|
            reply: std::result::Result<FuinPrivateKeySpec, ApiError>,
        | #[trigger] goes_on_reread(reply, outcome),
        KeyStep::PublishPublicKey { private_key, .. } => exists|
            reply: std::result::Result<(), ApiError>,
        | #[trigger] goes_on_published(private_key, reply, outcome),
        KeyStep::Ready(_) => run[k + 1] == run[k],
    }
}

/// What `step` asks of the cluster is to read or to create the private key under its name in
/// `namespace`, or to publish, under its own name, the public key of the private key that is
/// kept, which is another text.
pub open spec fn keeps_private_key_private(namespace: Seq<char>, step: KeyStep) -> bool {
    match step {
        KeyStep::ReadPrivateKey { namespace: n, name } => n@ == namespace && name@
            == PRIVATE_KEY_NAME@,
        KeyStep::CreatePrivateKey { namespace: n, name, keys } => n@ == namespace && name@
            == PRIVATE_KEY_NAME@ && keys.is_valid(),
        KeyStep::RereadPrivateKey { namespace: n, name } => n@ == namespace && name@
            == PRIVATE_KEY_NAME@,
        KeyStep::PublishPublicKey { private_key, .. } => publishes(private_key@, step),
        KeyStep::Ready(_) => true,
    }
}

/// The private key is never published: whatever the replies, all that setting up the key ever
/// writes is the private key, in the controller's namespace, and the public key, which is not
/// the private one. What is ready in the end is the private key whose public key was
/// published.
pub proof fn private_key_is_never_published(namespace: Seq<char>, run: Seq<KeyStep>, i: int)
    requires
        0 <= i < run.len(),
        key_set_up_begins(namespace, run[0]),
        forall|k: int| 0 <= k < run.len() - 1 ==> #[trigger] key_set_up_goes_on_at(run, k),
    ensures
        keeps_private_key_private(namespace, run[i]),
        run[i] matches KeyStep::Ready(kept) ==> i > 0 && match run[i - 1] {
            KeyStep::PublishPublicKey { private_key, .. } => private_key == kept,
            _ => run[i - 1] == run[i],
        },
    decreases i,
{
    if i > 0 {
        private_key_is_never_published(namespace, run, i - 1);
        assert(key_set_up_goes_on_at(run, i - 1));
    }
}

} // verus!
