//! How one cluster-wide sealed Secret is reconciled into the namespaces it is for.

use crate::controller::{Action, Context, Error, ErrorView};
use crate::controller::{event_of_failure, event_of_success};
use crate::controller;
use crate::encryption;
use crate::resources::{ApiError, Secret, SecretView};
use crate::resources;
use crate::string_map::{same_text, StringMap};
use crate::types::EventRecord;
use crate::types::{FuinClusterSealedSecret, FuinClusterSealedSecretView};
use crate::types::{FuinClusterSealedSecretSpec, FuinClusterSealedSecretSpecView};
use crate::types::{FuinClusterSealedSecretStatus, FuinClusterSealedSecretStatusView, SecretPhase};
use crate::unsealing;
use vstd::prelude::*;

verus! {

/// The kind of a cluster-wide sealed Secret.
pub const CLUSTER_SEALED_SECRET_KIND: &'static str = "FuinClusterSealedSecret";

/// A namespace of the cluster.
#[derive(Debug)]
pub struct Namespace {
    pub name: String,
    pub labels: StringMap<String>,
}

/// What a [`Namespace`] says.
#[verifier::ext_equal]
pub struct NamespaceView {
    pub name: Seq<char>,
    pub labels: Map<Seq<char>, Seq<char>>,
}

impl View for Namespace {
    type V = NamespaceView;

    open spec fn view(&self) -> NamespaceView {
        NamespaceView { name: self.name@, labels: self.labels@ }
    }
}

/// `labels` has every entry of `wanted`.
pub open spec fn has_labels(
    labels: Map<Seq<char>, Seq<char>>,
    wanted: Map<Seq<char>, Seq<char>>,
) -> bool {
    forall|key: Seq<char>| #[trigger]
        wanted.contains_key(key) ==> labels.contains_key(key) && labels[key] == wanted[key]
}

/// A namespace is selected when it has all the labels asked for and is not excluded.
pub open spec fn selected(spec: FuinClusterSealedSecretSpecView, namespace: NamespaceView) -> bool {
    &&& has_labels(namespace.labels, spec.namespace_selector)
    &&& !spec.exclude_namespaces.contains(namespace.name)
}

/// The names of the selected namespaces, in the order of the list.
pub open spec fn targets_of(
    spec: FuinClusterSealedSecretSpecView,
    namespaces: Seq<NamespaceView>,
) -> Seq<Seq<char>> {
    namespaces.filter(|namespace: NamespaceView| selected(spec, namespace)).map_values(
        |namespace: NamespaceView| namespace.name,
    )
}

/// Exclusions always win: an excluded namespace is not selected, whatever its labels.
pub proof fn exclusions_always_win(
    spec: FuinClusterSealedSecretSpecView,
    namespace: NamespaceView,
)
    requires
        spec.exclude_namespaces.contains(namespace.name),
    ensures
        !selected(spec, namespace),
{
}

/// An empty selector selects every namespace that is not excluded.
pub proof fn empty_selector_selects_all(
    spec: FuinClusterSealedSecretSpecView,
    namespace: NamespaceView,
)
    requires
        spec.namespace_selector == Map::<Seq<char>, Seq<char>>::empty(),
        !spec.exclude_namespaces.contains(namespace.name),
    ensures
        selected(spec, namespace),
{
}

proof fn filtered_is_listed<A>(items: Seq<A>, keep: spec_fn(A) -> bool, j: int)
    requires
        0 <= j < items.filter(keep).len(),
    ensures
        items.contains(items.filter(keep)[j]),
    decreases items.len(),
{
    reveal(Seq::filter);
    if items.len() > 0 {
        let shorter = items.drop_last();
        if j < shorter.filter(keep).len() {
            filtered_is_listed(shorter, keep, j);
            let i = choose|i: int| 0 <= i < shorter.len() && shorter[i] == shorter.filter(keep)[j];
            assert(items[i] == items.filter(keep)[j]);
        } else {
            assert(items.filter(keep)[j] == items[items.len() - 1]);
        }
    }
}

/// A listed namespace is a target exactly when it is selected, and nothing else is one.
pub proof fn targets_are_the_selected(
    spec: FuinClusterSealedSecretSpecView,
    namespaces: Seq<NamespaceView>,
    name: Seq<char>,
)
    ensures
        targets_of(spec, namespaces).contains(name) <==> exists|i: int|
            0 <= i < namespaces.len() && selected(spec, #[trigger] namespaces[i])
                && namespaces[i].name == name,
{
    let keep = |namespace: NamespaceView| selected(spec, namespace);
    let kept = namespaces.filter(keep);
    let targets = targets_of(spec, namespaces);
    broadcast use vstd::seq_lib::group_filter_ensures;

    if targets.contains(name) {
        let j = choose|j: int| 0 <= j < targets.len() && targets[j] == name;
        assert(kept.contains(kept[j]));
        filtered_is_listed(namespaces, keep, j);
        let i = choose|i: int| 0 <= i < namespaces.len() && namespaces[i] == kept[j];
        assert(keep(kept[j]));
        assert(selected(spec, namespaces[i]));
    }
    if exists|i: int|
        0 <= i < namespaces.len() && selected(spec, #[trigger] namespaces[i]) && namespaces[i].name
            == name {
        let i = choose|i: int|
            0 <= i < namespaces.len() && selected(spec, #[trigger] namespaces[i])
                && namespaces[i].name == name;
        assert(keep(namespaces[i]));
        assert(kept.contains(namespaces[i]));
        let j = choose|j: int| 0 <= j < kept.len() && kept[j] == namespaces[i];
        assert(targets[j] == name);
    }
}

/// Whether `labels` has every entry of `wanted`.
fn labels_match(labels: &StringMap<String>, wanted: &StringMap<String>) -> (matches: bool)
    ensures
        matches <==> has_labels(labels@, wanted@),
{
    let n: usize = wanted.len();
    let mut i: usize = 0;
    while i < n
        invariant
            i <= n,
            n == wanted.keys().len(),
            forall|j: int|
                0 <= j < i ==> labels@.contains_key(#[trigger] wanted.keys()[j])
                    && labels@[wanted.keys()[j]] == wanted@[wanted.keys()[j]],
        decreases n - i,
    {
        let key = wanted.key_at(i);
        let value = wanted.value_at(i);
        let same = match labels.get(key.as_str()) {
            Some(label) => same_text(label.as_str(), value.as_str()),
            None => false,
        };
        if !same {
            assert(wanted@.contains_key(key@));
            return false;
        }
        i += 1;
    }
    proof {
        wanted.keys_have_places();
    }
    true
}

/// Whether `name` is in a list of names.
fn is_listed(names: &Vec<String>, name: &str) -> (listed: bool)
    ensures
        listed <==> resources::list_view(names@).contains(name@),
{
    let mut i: usize = 0;
    while i < names.len()
        invariant
            i <= names@.len(),
            forall|j: int| 0 <= j < i ==> (#[trigger] names@[j])@ != name@,
        decreases names@.len() - i,
    {
        if same_text(names[i].as_str(), name) {
            assert(resources::list_view(names@)[i as int] == name@);
            return true;
        }
        i += 1;
    }
    proof {
        let view = resources::list_view(names@);
        assert forall|j: int| 0 <= j < view.len() implies view[j] != name@ by {
            assert(view[j] == names@[j]@);
        }
    }
    false
}

/// Whether a namespace is one that the sealed Secret is for.
pub fn selects(spec: &FuinClusterSealedSecretSpec, namespace: &Namespace) -> (yes: bool)
    ensures
        yes <==> selected(spec@, namespace@),
{
    labels_match(&namespace.labels, &spec.namespace_selector.match_labels) && !is_listed(
        &spec.exclude_namespaces,
        namespace.name.as_str(),
    )
}

/// The names of the namespaces that the sealed Secret is for.
pub fn target_namespaces(
    spec: &FuinClusterSealedSecretSpec,
    namespaces: &Vec<Namespace>,
) -> (targets: Vec<String>)
    ensures
        resources::list_view(targets@) == targets_of(spec@, resources::list_view(namespaces@)),
{
    let ghost listed = resources::list_view(namespaces@);
    let ghost keep = |namespace: NamespaceView| selected(spec@, namespace);
    let mut targets: Vec<String> = Vec::new();
    let mut i: usize = 0;
    proof {
        reveal(Seq::filter);
        assert(resources::list_view(targets@) =~= targets_of(spec@, listed.take(0)));
    }
    while i < namespaces.len()
        invariant
            i <= namespaces@.len(),
            listed == resources::list_view(namespaces@),
            keep == (|namespace: NamespaceView| selected(spec@, namespace)),
            resources::list_view(targets@) == targets_of(spec@, listed.take(i as int)),
        decreases namespaces@.len() - i,
    {
        let ghost before = targets@;
        if selects(spec, &namespaces[i]) {
            targets.push(namespaces[i].name.clone());
        }
        proof {
            reveal(Seq::filter);
            let shorter = listed.take(i as int);
            let longer = listed.take(i + 1);
            assert(longer.drop_last() =~= shorter);
            assert(longer.last() == namespaces@[i as int]@);
            if keep(longer.last()) {
                assert(longer.filter(keep) == shorter.filter(keep).push(longer.last()));
                assert(resources::list_view(targets@) =~= resources::list_view(before).push(
                    longer.last().name,
                ));
            } else {
                assert(longer.filter(keep) == shorter.filter(keep));
            }
            assert(resources::list_view(targets@) =~= targets_of(spec@, longer));
        }
        i += 1;
    }
    assert(listed.take(listed.len() as int) =~= listed);
    targets
}

/// The Secrets that a cluster-wide sealed Secret stands for, one in each selected namespace,
/// or why there are none: a value does not decrypt, or it cannot be named as an owner, in
/// this order.
pub open spec fn desired_secrets_of(
    sealed: FuinClusterSealedSecretView,
    private_key: Seq<char>,
    namespaces: Seq<NamespaceView>,
) -> Result<Seq<SecretView>, ErrorView> {
    match unsealing::decrypted_data(private_key, sealed.spec.encrypted_data) {
        Err(failure) => Err(ErrorView::Encryption(failure)),
        Ok(data) => match sealed.metadata.controller_owner_ref(CLUSTER_SEALED_SECRET_KIND@) {
            None => Err(ErrorView::Configuration("sealed secret has no owner reference"@)),
            Some(owner) => Ok(
                targets_of(sealed.spec, namespaces).map_values(
                    |namespace: Seq<char>|
                        unsealing::unsealed(
                            sealed.spec.template,
                            unsealing::output_name(sealed.spec.template, sealed.metadata),
                            namespace,
                            owner,
                            data,
                        ),
                ),
            ),
        },
    }
}

/// The Secrets that a cluster-wide sealed Secret stands for.
pub fn desired_secrets(
    sealed: &FuinClusterSealedSecret,
    context: &Context,
    namespaces: &Vec<Namespace>,
) -> (secrets: controller::Result<Vec<Secret>>)
    ensures
        match desired_secrets_of(
            sealed@,
            context.private_key@,
            resources::list_view(namespaces@),
        ) {
            Ok(views) => secrets matches Ok(s) && resources::list_view(s@) == views,
            Err(view) => secrets matches Err(e) && e@ == view,
        },
{
    let data = match unsealing::decrypt_data(
        context.private_key.as_str(),
        &sealed.spec.encrypted_data,
    ) {
        Ok(data) => data,
        Err(error) => {
            return Err(Error::Encryption(error));
        },
    };
    let targets = target_namespaces(&sealed.spec, namespaces);
    let mut secrets: Vec<Secret> = Vec::new();
    if sealed.metadata.controller_owner_ref(CLUSTER_SEALED_SECRET_KIND).is_none() {
        return Err(Error::Configuration("sealed secret has no owner reference".to_owned()));
    }
    let ghost owner = sealed@.metadata.controller_owner_ref(CLUSTER_SEALED_SECRET_KIND@)->0;
    let ghost name = unsealing::output_name(sealed@.spec.template, sealed@.metadata);
    let mut i: usize = 0;
    while i < targets.len()
        invariant
            i <= targets@.len(),
            secrets@.len() == i,
            sealed@.metadata.controller_owner_ref(CLUSTER_SEALED_SECRET_KIND@) == Some(owner),
            name == unsealing::output_name(sealed@.spec.template, sealed@.metadata),
            forall|j: int|
                0 <= j < i ==> (#[trigger] secrets@[j])@ == unsealing::unsealed(
                    sealed@.spec.template,
                    name,
                    targets@[j]@,
                    owner,
                    data@,
                ),
        decreases targets@.len() - i,
    {
        if let Some(reference) = sealed.metadata.controller_owner_ref(CLUSTER_SEALED_SECRET_KIND) {
            secrets.push(
                unsealing::unseal(
                    &sealed.spec.template,
                    unsealing::find_output_name(&sealed.spec.template, &sealed.metadata),
                    targets[i].clone(),
                    reference,
                    resources::copy_data(&data),
                ),
            );
        }
        i += 1;
    }
    proof {
        let views = desired_secrets_of(
            sealed@,
            context.private_key@,
            resources::list_view(namespaces@),
        )->Ok_0;
        assert forall|j: int| 0 <= j < views.len() implies #[trigger] resources::list_view(
            secrets@,
        )[j] == views[j] by {
            assert(targets_of(sealed@.spec, resources::list_view(namespaces@))[j] == targets@[j]@);
        }
        assert(resources::list_view(secrets@) =~= views);
    }
    Ok(secrets)
}

/// A status to apply to a cluster-wide sealed Secret.
#[derive(Debug)]
pub struct ClusterStatusPatch {
    pub name: String,
    pub status: FuinClusterSealedSecretStatus,
}

/// `patch` gives the sealed Secret the phase, message and number of target namespaces, as of
/// the generation that was looked at.
pub open spec fn is_cluster_status_patch(
    sealed: FuinClusterSealedSecretView,
    patch: ClusterStatusPatch,
    phase: SecretPhase,
    message: Option<Seq<char>>,
    namespace_count: i32,
) -> bool {
    &&& patch.name@ == sealed.metadata.name_any()
    &&& patch.status@ == FuinClusterSealedSecretStatusView {
        phase: Some(phase),
        message,
        namespace_count: Some(namespace_count),
        observed_generation: sealed.metadata.generation,
        conditions: Seq::empty(),
    }
}

/// The status patch of a cluster-wide sealed Secret.
pub fn patch_cluster_status(
    sealed: &FuinClusterSealedSecret,
    phase: SecretPhase,
    message: Option<String>,
    namespace_count: i32,
) -> (patch: ClusterStatusPatch)
    ensures
        is_cluster_status_patch(
            sealed@,
            patch,
            phase,
            resources::opt_view(message),
            namespace_count,
        ),
{
    ClusterStatusPatch {
        name: sealed.metadata.name_any(),
        status: FuinClusterSealedSecretStatus {
            phase: Some(phase),
            message,
            namespace_count: Some(namespace_count),
            observed_generation: sealed.metadata.generation,
            conditions: Vec::new(),
        },
    }
}

/// The next request of a cluster-wide reconciliation, or its end.
#[derive(Debug)]
pub enum ClusterStep {
    /// Apply the Secret at place `next`, taking over its fields.
    ApplySecrets { secrets: Vec<Secret>, next: usize },
    /// Patch the status to say that the Secrets were applied.
    ReportApplied(ClusterStatusPatch),
    /// Patch the status to say what went wrong.
    ReportFailed { patch: ClusterStatusPatch, error: Error },
    /// Record the success as an event.
    RecordApplied(EventRecord),
    /// Record the failure as an event.
    RecordFailed { event: EventRecord, error: Error },
    /// All is done.
    Finish(Action),
    /// The reconciliation failed.
    Fail(Error),
}

impl ClusterStep {
    /// How many requests there are at most before the end.
    pub open spec fn requests_left(self) -> nat {
        match self {
            ClusterStep::ApplySecrets { secrets, next } => if next < secrets@.len() {
                (secrets@.len() - next + 3) as nat
            } else {
                4
            },
            ClusterStep::ReportApplied(_) => 3,
            ClusterStep::ReportFailed { .. } => 2,
            ClusterStep::RecordApplied(_) => 1,
            ClusterStep::RecordFailed { .. } => 1,
            ClusterStep::Finish(_) => 0,
            ClusterStep::Fail(_) => 0,
        }
    }
}

/// `step` reports that the Secrets are in `count` namespaces.
pub open spec fn reports_applied(
    sealed: FuinClusterSealedSecretView,
    count: nat,
    step: ClusterStep,
) -> bool {
    step matches ClusterStep::ReportApplied(patch) && is_cluster_status_patch(
        sealed,
        patch,
        SecretPhase::Applied,
        None,
        count as i32,
    )
}

/// `step` reports `error` in the status.
pub open spec fn reports_failure(
    sealed: FuinClusterSealedSecretView,
    error: Error,
    step: ClusterStep,
) -> bool {
    step matches ClusterStep::ReportFailed { patch, error: e } && e == error && exists|
        message: Seq<char>,
    | #[trigger]
        error.describes(message) && is_cluster_status_patch(
            sealed,
            patch,
            SecretPhase::Failed,
            Some(message),
            0,
        )
}

/// Turns to reporting that the Secrets were applied.
fn report_applied(sealed: &FuinClusterSealedSecret, count: usize) -> (step: ClusterStep)
    ensures
        reports_applied(sealed@, count as nat, step),
{
    #[verifier::truncate]
    let namespace_count: i32 = count as i32;
    ClusterStep::ReportApplied(
        patch_cluster_status(sealed, SecretPhase::Applied, None, namespace_count),
    )
}

/// Turns to reporting a failure.
fn report_failure(sealed: &FuinClusterSealedSecret, error: Error) -> (step: ClusterStep)
    ensures
        reports_failure(sealed@, error, step),
{
    let message = error.message();
    let patch = patch_cluster_status(sealed, SecretPhase::Failed, Some(message), 0);
    ClusterStep::ReportFailed { patch, error }
}

/// How reconciling `sealed` begins once the namespaces were listed: with the first of its
/// Secrets, with the report where there is none to apply, or with the failure.
pub open spec fn cluster_reconcile_begins(
    sealed: FuinClusterSealedSecretView,
    private_key: Seq<char>,
    listed: Result<Vec<Namespace>, ApiError>,
    step: ClusterStep,
) -> bool {
    match listed {
        Err(error) => reports_failure(sealed, Error::Kubernetes(error), step),
        Ok(namespaces) => match desired_secrets_of(
            sealed,
            private_key,
            resources::list_view(namespaces@),
        ) {
            Ok(views) => if views.len() == 0 {
                reports_applied(sealed, 0, step)
            } else {
                step matches ClusterStep::ApplySecrets { secrets, next } && next == 0
                    && resources::list_view(secrets@) == views
            },
            Err(view) => exists|error: Error| #[trigger]
                reports_failure(sealed, error, step) && error@ == view,
        },
    }
}

/// Begins to reconcile a cluster-wide sealed Secret, given the namespaces of the cluster.
pub fn reconcile_cluster(
    sealed: &FuinClusterSealedSecret,
    context: &Context,
    listed: Result<Vec<Namespace>, ApiError>,
) -> (step: ClusterStep)
    ensures
        cluster_reconcile_begins(sealed@, context.private_key@, listed, step),
{
    match listed {
        Err(error) => report_failure(sealed, Error::Kubernetes(error)),
        Ok(namespaces) => match desired_secrets(sealed, context, &namespaces) {
            Ok(secrets) => if secrets.len() == 0 {
                report_applied(sealed, 0)
            } else {
                ClusterStep::ApplySecrets { secrets, next: 0 }
            },
            Err(error) => {
                let step = report_failure(sealed, error);
                assert(reports_failure(sealed@, error, step));
                step
            },
        },
    }
}

/// How reconciling `sealed` goes on from `step` when its request was answered by `reply`.
pub open spec fn cluster_reconcile_continues(
    sealed: FuinClusterSealedSecretView,
    step: ClusterStep,
    reply: Result<(), ApiError>,
    following: ClusterStep,
) -> bool {
    match step {
        ClusterStep::ApplySecrets { secrets, next } => match reply {
            Ok(_) => if next + 1 < secrets@.len() {
                following == ClusterStep::ApplySecrets { secrets, next: (next + 1) as usize }
            } else {
                reports_applied(sealed, secrets@.len(), following)
            },
            Err(error) => reports_failure(sealed, Error::Kubernetes(error), following),
        },
        ClusterStep::ReportApplied(_) => match reply {
            Ok(_) => following matches ClusterStep::RecordApplied(event) && event@
                == controller::applied_event(),
            Err(error) => reports_failure(sealed, Error::Kubernetes(error), following),
        },
        ClusterStep::ReportFailed { error, .. } => {
            &&& following matches ClusterStep::RecordFailed { event, error: e }
            &&& e == error
            &&& exists|message: Seq<char>| #[trigger]
                error.describes(message) && event@ == controller::failed_event(message)
        },
        ClusterStep::RecordApplied(_) => following == ClusterStep::Finish(
            Action { requeue_after_seconds: 3600 },
        ),
        ClusterStep::RecordFailed { error, .. } => following == ClusterStep::Fail(error),
        ClusterStep::Finish(_) => following == step,
        ClusterStep::Fail(_) => following == step,
    }
}

/// Goes on with a cluster-wide reconciliation after the reply to a request. A failure to
/// report or to record is not itself a reason to fail.
pub fn reconcile_cluster_next(
    sealed: &FuinClusterSealedSecret,
    step: ClusterStep,
    reply: Result<(), ApiError>,
) -> (following: ClusterStep)
    ensures
        cluster_reconcile_continues(sealed@, step, reply, following),
        step.requests_left() > 0 ==> following.requests_left() < step.requests_left(),
{
    match step {
        ClusterStep::ApplySecrets { secrets, next } => match reply {
            Ok(_) => if next < secrets.len() && next + 1 < secrets.len() {
                ClusterStep::ApplySecrets { secrets, next: next + 1 }
            } else {
                report_applied(sealed, secrets.len())
            },
            Err(error) => report_failure(sealed, Error::Kubernetes(error)),
        },
        ClusterStep::ReportApplied(_) => match reply {
            Ok(_) => ClusterStep::RecordApplied(event_of_success()),
            Err(error) => report_failure(sealed, Error::Kubernetes(error)),
        },
        ClusterStep::ReportFailed { patch: _, error } => {
            let message = error.message();
            ClusterStep::RecordFailed { event: event_of_failure(message), error }
        },
        ClusterStep::RecordApplied(_) => ClusterStep::Finish(
            Action { requeue_after_seconds: 3600 },
        ),
        ClusterStep::RecordFailed { event: _, error } => ClusterStep::Fail(error),
        ClusterStep::Finish(action) => ClusterStep::Finish(action),
        ClusterStep::Fail(error) => ClusterStep::Fail(error),
    }
}

/// A cluster-wide sealed Secret that unseals gives one Secret for each selected namespace,
/// in that namespace.
pub proof fn one_secret_in_every_selected_namespace(
    sealed: FuinClusterSealedSecretView,
    private_key: Seq<char>,
    namespaces: Seq<NamespaceView>,
)
    requires
        desired_secrets_of(sealed, private_key, namespaces) is Ok,
    ensures
        ({
            let secrets = desired_secrets_of(sealed, private_key, namespaces)->Ok_0;
            let targets = targets_of(sealed.spec, namespaces);
            &&& secrets.len() == targets.len()
            &&& forall|i: int|
                0 <= i < targets.len() ==> (#[trigger] secrets[i]).metadata.namespace == Some(
                    targets[i],
                )
        }),
{
}

/// The request of the step at place `k` of `run` was answered without an error, and the step
/// at the next place follows on it.
pub open spec fn goes_well_at(
    sealed: FuinClusterSealedSecretView,
    run: Seq<ClusterStep>,
    k: int,
) -> bool {
    cluster_reconcile_continues(sealed, run[k], Ok(()), run[k + 1])
}

/// While the cluster does all that is asked, the step at place `i` applies Secret `i`.
proof fn secrets_are_applied_in_turn(
    sealed: FuinClusterSealedSecretView,
    secrets: Vec<Secret>,
    run: Seq<ClusterStep>,
    i: int,
)
    requires
        run.len() >= secrets@.len(),
        secrets@.len() > 0,
        run[0] == (ClusterStep::ApplySecrets { secrets, next: 0 }),
        forall|k: int| 0 <= k < run.len() - 1 ==> #[trigger] goes_well_at(sealed, run, k),
        0 <= i < secrets@.len(),
    ensures
        run[i] == (ClusterStep::ApplySecrets { secrets, next: i as usize }),
    decreases i,
{
    if i > 0 {
        secrets_are_applied_in_turn(sealed, secrets, run, i - 1);
        assert(goes_well_at(sealed, run, i - 1));
        assert(i < secrets.len());
    }
}

/// When the cluster does all that is asked, a cluster-wide sealed Secret that unseals has a
/// Secret applied in every selected namespace, one by one, is reported with the number of
/// those namespaces, recorded, and looked at again after an hour.
pub proof fn every_secret_is_applied_and_counted(
    sealed: FuinClusterSealedSecretView,
    private_key: Seq<char>,
    namespaces: Vec<Namespace>,
    run: Seq<ClusterStep>,
)
    requires
        desired_secrets_of(sealed, private_key, resources::list_view(namespaces@)) is Ok,
        run.len() == targets_of(sealed.spec, resources::list_view(namespaces@)).len() + 3,
        cluster_reconcile_begins(sealed, private_key, Ok(namespaces), run[0]),
        forall|k: int| 0 <= k < run.len() - 1 ==> #[trigger] goes_well_at(sealed, run, k),
    ensures
        ({
            let listed = resources::list_view(namespaces@);
            let views = desired_secrets_of(sealed, private_key, listed)->Ok_0;
            let n: int = targets_of(sealed.spec, listed).len() as int;
            &&& forall|i: int|
                0 <= i < n ==> (#[trigger] run[i] matches ClusterStep::ApplySecrets {
                    secrets,
                    next,
                } && next == i && resources::list_view(secrets@) == views)
            &&& reports_applied(sealed, n as nat, run[n])
            &&& run[n + 1] matches ClusterStep::RecordApplied(event) && event@
                == controller::applied_event()
            &&& run[n + 2] == ClusterStep::Finish(Action { requeue_after_seconds: 3600 })
        }),
{
    let listed = resources::list_view(namespaces@);
    let views = desired_secrets_of(sealed, private_key, listed)->Ok_0;
    let n: int = targets_of(sealed.spec, listed).len() as int;
    assert(views.len() == n);
    if n > 0 {
        let secrets = run[0]->ApplySecrets_secrets;
        assert(resources::list_view(secrets@).len() == secrets@.len());
        assert(secrets@.len() == n);
        assert forall|i: int| 0 <= i < n implies #[trigger] run[i] == (ClusterStep::ApplySecrets {
            secrets,
            next: i as usize,
        }) by {
            secrets_are_applied_in_turn(sealed, secrets, run, i);
        }
        assert(run[n - 1] == (ClusterStep::ApplySecrets { secrets, next: (n - 1) as usize }));
        assert(goes_well_at(sealed, run, n - 1));
        assert(n == secrets.len());
    }
    assert(reports_applied(sealed, n as nat, run[n]));
    assert(goes_well_at(sealed, run, n));
    assert(goes_well_at(sealed, run, n + 1));
}

/// Success is reported only once the last of the Secrets was applied, recorded only once it
/// was reported, and nothing else ends well.
pub proof fn cluster_success_comes_only_after_applying(
    sealed: FuinClusterSealedSecretView,
    step: ClusterStep,
    reply: Result<(), ApiError>,
    following: ClusterStep,
)
    requires
        cluster_reconcile_continues(sealed, step, reply, following),
    ensures
        following is ReportApplied ==> reply is Ok && (step matches ClusterStep::ApplySecrets {
            secrets,
            next,
        } && next + 1 >= secrets@.len()),
        following is RecordApplied ==> step is ReportApplied && reply is Ok,
        following is Finish ==> step is RecordApplied || step is Finish,
{
}

/// Whatever the replies, a cluster-wide reconciliation that came to an error ends with that
/// error.
pub proof fn cluster_failure_is_kept(
    sealed: FuinClusterSealedSecretView,
    error: Error,
    report: ClusterStep,
    report_reply: Result<(), ApiError>,
    record: ClusterStep,
    record_reply: Result<(), ApiError>,
    end: ClusterStep,
)
    requires
        reports_failure(sealed, error, report),
        cluster_reconcile_continues(sealed, report, report_reply, record),
        cluster_reconcile_continues(sealed, record, record_reply, end),
    ensures
        end == ClusterStep::Fail(error),
{
}

/// Of a cluster-wide sealed Secret of which any value does not decrypt, nothing is applied.
pub proof fn undecryptable_cluster_secret_is_not_applied(
    sealed: FuinClusterSealedSecretView,
    private_key: Seq<char>,
    key: Seq<char>,
    listed: Result<Vec<Namespace>, ApiError>,
    step: ClusterStep,
)
    requires
        sealed.spec.encrypted_data.contains_key(key),
        encryption::decrypted(private_key, sealed.spec.encrypted_data[key]) is Err,
        cluster_reconcile_begins(sealed, private_key, listed, step),
    ensures
        step is ReportFailed,
{
    assert(!unsealing::all_decrypt(private_key, sealed.spec.encrypted_data));
}

/// Where some value does not decrypt, and the namespaces could be listed, reconciling begins
/// with the report of why the first such value, in the order of the keys, does not.
pub proof fn first_cluster_failure_is_reported(
    sealed: FuinClusterSealedSecretView,
    private_key: Seq<char>,
    namespaces: Vec<Namespace>,
    step: ClusterStep,
) -> (first: Seq<char>)
    requires
        sealed.spec.encrypted_data.dom().finite(),
        !unsealing::all_decrypt(private_key, sealed.spec.encrypted_data),
        cluster_reconcile_begins(sealed, private_key, Ok(namespaces), step),
    ensures
        unsealing::fails_first(private_key, sealed.spec.encrypted_data, first),
        step matches ClusterStep::ReportFailed { error, .. } && error@ == ErrorView::Encryption(
            encryption::decrypted(private_key, sealed.spec.encrypted_data[first])->Err_0,
        ),
{
    unsealing::first_failure_decides(private_key, sealed.spec.encrypted_data)
}

} // verus!
