//! The controller's decisions on a cluster-wide sealed Secret.

use fuin::cluster::{
    desired_secrets, patch_cluster_status, reconcile_cluster, reconcile_cluster_next, selects,
    target_namespaces, ClusterStep, Namespace,
};
use fuin::controller::{Action, Context, Error};
use fuin::encryption::{encrypt, generate_keypair, KeyPair};
use fuin::resources::ApiError;
use fuin::string_map::StringMap;
use fuin::types::{
    EventKind, FuinClusterSealedSecret, FuinClusterSealedSecretSpec, NamespaceSelector,
    SecretPhase,
};

fn namespace(name: &str, labels: &[(&str, &str)]) -> Namespace {
    let mut map = StringMap::new();
    for (key, value) in labels {
        map.insert(key.to_string(), value.to_string());
    }
    Namespace { name: name.to_owned(), labels: map }
}

fn spec(labels: &[(&str, &str)], excluded: &[&str]) -> FuinClusterSealedSecretSpec {
    let mut match_labels = StringMap::new();
    for (key, value) in labels {
        match_labels.insert(key.to_string(), value.to_string());
    }
    FuinClusterSealedSecretSpec {
        encrypted_data: StringMap::new(),
        namespace_selector: NamespaceSelector { match_labels },
        exclude_namespaces: excluded.iter().map(|name| name.to_string()).collect(),
        template: None,
    }
}

fn sealed(keys: &KeyPair, excluded: &[&str]) -> FuinClusterSealedSecret {
    let mut spec = spec(&[], excluded);
    spec.encrypted_data
        .insert("k".to_owned(), encrypt(&keys.public_key, b"v").unwrap());
    let mut sealed = FuinClusterSealedSecret::new("registry", spec);
    sealed.metadata.uid = Some("77".to_owned());
    sealed.metadata.generation = Some(2);
    sealed
}

fn context(keys: &KeyPair) -> Context {
    Context { private_key: keys.private_key.clone() }
}

fn api_error(message: &str) -> ApiError {
    ApiError { code: None, message: message.to_owned() }
}

#[test]
fn empty_selector_selects_every_namespace() {
    let everything = spec(&[], &[]);
    assert!(selects(&everything, &namespace("default", &[])));
    assert!(selects(&everything, &namespace("kube-system", &[("a", "b")])));
    assert!(NamespaceSelector::default().match_labels.is_empty());
}

#[test]
fn exclusions_win_over_labels() {
    let chosen = spec(&[("access", "true")], &["fuin-system"]);
    assert!(selects(&chosen, &namespace("default", &[("access", "true"), ("b", "c")])));
    assert!(!selects(&chosen, &namespace("default", &[("access", "false")])));
    assert!(!selects(&chosen, &namespace("default", &[])));
    assert!(!selects(&chosen, &namespace("fuin-system", &[("access", "true")])));
}

#[test]
fn all_labels_are_needed() {
    let chosen = spec(&[("a", "1"), ("b", "2")], &[]);
    assert!(!selects(&chosen, &namespace("x", &[("a", "1")])));
    assert!(selects(&chosen, &namespace("x", &[("b", "2"), ("a", "1")])));
}

#[test]
fn targets_are_the_selected_namespaces_in_order() {
    let chosen = spec(&[], &["kube-system"]);
    let listed = vec![
        namespace("staging", &[]),
        namespace("kube-system", &[]),
        namespace("default", &[]),
    ];
    assert_eq!(target_namespaces(&chosen, &listed), ["staging", "default"]);
    assert!(target_namespaces(&chosen, &Vec::new()).is_empty());
}

#[test]
fn every_target_gets_the_secret() {
    let keys = generate_keypair();
    let resource = sealed(&keys, &["b"]);
    let listed = vec![namespace("a", &[]), namespace("b", &[]), namespace("c", &[])];
    let secrets = desired_secrets(&resource, &context(&keys), &listed).unwrap();
    assert_eq!(secrets.len(), 2);
    for (secret, place) in secrets.iter().zip(["a", "c"]) {
        assert_eq!(secret.metadata.namespace.as_ref().unwrap(), place);
        assert_eq!(secret.metadata.name.as_ref().unwrap(), "registry");
        assert_eq!(secret.data.as_ref().unwrap().get("k").unwrap(), b"v");
        let owners = secret.metadata.owner_references.as_ref().unwrap();
        assert_eq!(owners[0].kind, "FuinClusterSealedSecret");
        assert_eq!(owners[0].uid, "77");
    }
}

#[test]
fn cluster_secret_that_does_not_decrypt_is_an_error() {
    let keys = generate_keypair();
    let mut resource = sealed(&keys, &[]);
    resource.spec.encrypted_data.insert("bad".to_owned(), "x".to_owned());
    resource.metadata.uid = None;
    let listed = vec![namespace("a", &[])];
    match reconcile_cluster(&resource, &context(&keys), Ok(listed)) {
        ClusterStep::ReportFailed { patch, error } => {
            assert!(matches!(error, Error::Encryption(_)));
            assert_eq!(patch.name, "registry");
            assert_eq!(patch.status.phase, Some(SecretPhase::Failed));
            assert_eq!(patch.status.namespace_count, Some(0));
        }
        other => panic!("{other:?}"),
    }
}

#[test]
fn cluster_secret_that_cannot_own_is_an_error() {
    let keys = generate_keypair();
    let mut resource = sealed(&keys, &[]);
    resource.metadata.uid = None;
    let error = desired_secrets(&resource, &context(&keys), &Vec::new()).unwrap_err();
    assert_eq!(error.message(), "sealed secret has no owner reference");
}

#[test]
fn cluster_reconciliation_applies_counts_and_records() {
    let keys = generate_keypair();
    let resource = sealed(&keys, &["b"]);
    let listed = vec![namespace("a", &[]), namespace("b", &[]), namespace("c", &[])];
    let step = reconcile_cluster(&resource, &context(&keys), Ok(listed));
    assert!(matches!(&step, ClusterStep::ApplySecrets { secrets, next: 0 } if secrets.len() == 2));
    let step = reconcile_cluster_next(&resource, step, Ok(()));
    assert!(matches!(&step, ClusterStep::ApplySecrets { next: 1, .. }));
    let step = reconcile_cluster_next(&resource, step, Ok(()));
    match &step {
        ClusterStep::ReportApplied(patch) => {
            assert_eq!(patch.status.phase, Some(SecretPhase::Applied));
            assert_eq!(patch.status.namespace_count, Some(2));
            assert_eq!(patch.status.observed_generation, Some(2));
            assert_eq!(patch.status.message, None);
        }
        other => panic!("{other:?}"),
    }
    let step = reconcile_cluster_next(&resource, step, Ok(()));
    match &step {
        ClusterStep::RecordApplied(event) => assert_eq!(event.reason, "SecretApplied"),
        other => panic!("{other:?}"),
    }
    match reconcile_cluster_next(&resource, step, Ok(())) {
        ClusterStep::Finish(action) => {
            assert_eq!(action, Action { requeue_after_seconds: 3600 });
        }
        other => panic!("{other:?}"),
    }
}

#[test]
fn cluster_secret_without_targets_is_reported_at_once() {
    let keys = generate_keypair();
    let resource = sealed(&keys, &["a"]);
    let listed = vec![namespace("a", &[])];
    match reconcile_cluster(&resource, &context(&keys), Ok(listed)) {
        ClusterStep::ReportApplied(patch) => assert_eq!(patch.status.namespace_count, Some(0)),
        other => panic!("{other:?}"),
    }
}

#[test]
fn cluster_failure_is_reported_recorded_and_kept() {
    let keys = generate_keypair();
    let resource = sealed(&keys, &[]);
    let step = reconcile_cluster(&resource, &context(&keys), Err(api_error("down")));
    assert!(matches!(&step, ClusterStep::ReportFailed { .. }));
    let step = reconcile_cluster_next(&resource, step, Err(api_error("again")));
    match &step {
        ClusterStep::RecordFailed { event, .. } => {
            assert_eq!(event.kind, EventKind::Warning);
            assert_eq!(event.note.as_ref().unwrap(), "Kubernetes API error: down");
        }
        other => panic!("{other:?}"),
    }
    match reconcile_cluster_next(&resource, step, Ok(())) {
        ClusterStep::Fail(Error::Kubernetes(error)) => assert_eq!(error.message, "down"),
        other => panic!("{other:?}"),
    }
}

#[test]
fn cluster_failures_on_the_way_are_reported() {
    let keys = generate_keypair();
    let resource = sealed(&keys, &[]);
    let listed = vec![namespace("a", &[]), namespace("b", &[])];
    let step = reconcile_cluster(&resource, &context(&keys), Ok(listed));
    let step = reconcile_cluster_next(&resource, step, Err(api_error("forbidden")));
    assert!(matches!(step, ClusterStep::ReportFailed { error: Error::Kubernetes(_), .. }));

    let patch = patch_cluster_status(&resource, SecretPhase::Applied, None, 1);
    let step = ClusterStep::ReportApplied(patch);
    let step = reconcile_cluster_next(&resource, step, Err(api_error("conflict")));
    assert!(matches!(step, ClusterStep::ReportFailed { error: Error::Kubernetes(_), .. }));
}

#[test]
fn end_of_a_cluster_reconciliation_stays() {
    let keys = generate_keypair();
    let resource = sealed(&keys, &[]);
    let action = Action { requeue_after_seconds: 1 };
    let step = reconcile_cluster_next(&resource, ClusterStep::Finish(action), Ok(()));
    assert!(matches!(step, ClusterStep::Finish(kept) if kept == action));
    let step = ClusterStep::Fail(Error::MissingNamespace);
    let step = reconcile_cluster_next(&resource, step, Ok(()));
    assert!(matches!(step, ClusterStep::Fail(Error::MissingNamespace)));
}
