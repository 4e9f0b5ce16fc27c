//! The controller's decisions on one sealed Secret and on its key.

use fuin::controller::{
    controller_namespace, desired_secret, ensure_controller_key, error_policy, event_of_failure,
    event_of_success, output_secret_name, patch_status, private_key_created, private_key_read,
    private_key_reread, public_key_published, reconcile, reconcile_next, Action, Context, Error,
    KeyStep, ReconcileStep,
};
use fuin::encryption::{self, decrypt, encrypt, generate_keypair, public_key, KeyPair};
use fuin::resources::{ApiError, ObjectMeta};
use fuin::string_map::StringMap;
use fuin::types::{
    EventKind, FieldValue, FuinPrivateKeySpec, FuinSealedSecret, FuinSealedSecretSpec,
    MetadataValue, SecretPhase, SecretTemplate,
};

fn api_error(code: Option<u16>, message: &str) -> ApiError {
    ApiError { code, message: message.to_owned() }
}

fn template(metadata: Option<StringMap<MetadataValue>>) -> SecretTemplate {
    SecretTemplate {
        metadata,
        type_: Some("Opaque".to_owned()),
        immutable: Some(true),
    }
}

fn named_template(name: MetadataValue) -> SecretTemplate {
    let mut metadata = StringMap::new();
    metadata.insert("name".to_owned(), name);
    template(Some(metadata))
}

fn sealed(keys: &KeyPair, values: &[(&str, &str)]) -> FuinSealedSecret {
    let mut encrypted_data = StringMap::new();
    for (name, value) in values {
        let ciphertext = encrypt(&keys.public_key, value.as_bytes()).unwrap();
        encrypted_data.insert(name.to_string(), ciphertext);
    }
    let mut sealed = FuinSealedSecret::new(
        "app-config",
        FuinSealedSecretSpec { encrypted_data, template: None },
    );
    sealed.metadata.namespace = Some("staging".to_owned());
    sealed.metadata.uid = Some("1234".to_owned());
    sealed.metadata.generation = Some(7);
    sealed
}

fn context(keys: &KeyPair) -> Context {
    Context { private_key: keys.private_key.clone() }
}

#[test]
fn secret_name_comes_from_the_template_or_the_resource() {
    let keys = generate_keypair();
    let mut resource = sealed(&keys, &[]);
    assert_eq!(output_secret_name(&resource), "app-config");
    resource.spec.template = Some(template(None));
    assert_eq!(output_secret_name(&resource), "app-config");
    resource.spec.template = Some(named_template(MetadataValue::Other));
    assert_eq!(output_secret_name(&resource), "app-config");
    resource.spec.template = Some(named_template(MetadataValue::Text("other".to_owned())));
    assert_eq!(output_secret_name(&resource), "other");
    resource.spec.template = None;
    resource.metadata.name = None;
    resource.metadata.generate_name = Some("app-".to_owned());
    assert_eq!(output_secret_name(&resource), "app-");
    resource.metadata.generate_name = None;
    assert_eq!(output_secret_name(&resource), "");
}

#[test]
fn values_are_decrypted_into_the_secret() {
    let keys = generate_keypair();
    let resource = sealed(&keys, &[("APP_ENV", "staging"), ("API", "https://api.example.com")]);
    let secret = desired_secret(&resource, &context(&keys)).unwrap();
    let data = secret.data.unwrap();
    assert_eq!(data.len(), 2);
    assert_eq!(data.get("APP_ENV").unwrap(), b"staging");
    assert_eq!(data.get("API").unwrap(), b"https://api.example.com");
    assert!(secret.string_data.is_none());
    assert!(secret.type_.is_none());
    assert!(secret.immutable.is_none());
    assert!(secret.metadata.labels.is_none());
    assert!(secret.metadata.annotations.is_none());
    assert_eq!(secret.metadata.name.unwrap(), "app-config");
    assert_eq!(secret.metadata.namespace.unwrap(), "staging");
    let owners = secret.metadata.owner_references.unwrap();
    assert_eq!(owners.len(), 1);
    assert_eq!(owners[0].api_version, "fuin.abr.sh/v1alpha1");
    assert_eq!(owners[0].kind, "FuinSealedSecret");
    assert_eq!(owners[0].name, "app-config");
    assert_eq!(owners[0].uid, "1234");
    assert_eq!(owners[0].controller, Some(true));
    assert_eq!(owners[0].block_owner_deletion, None);
}

#[test]
fn template_shapes_the_secret() {
    let keys = generate_keypair();
    let mut resource = sealed(&keys, &[("k", "v")]);
    let mut labels = StringMap::new();
    labels.insert("app".to_owned(), FieldValue::Text("demo".to_owned()));
    labels.insert("count".to_owned(), FieldValue::Other);
    let mut metadata = StringMap::new();
    metadata.insert("name".to_owned(), MetadataValue::Text("renamed".to_owned()));
    metadata.insert("namespace".to_owned(), MetadataValue::Text("elsewhere".to_owned()));
    metadata.insert("labels".to_owned(), MetadataValue::Table(labels));
    metadata.insert("annotations".to_owned(), MetadataValue::Other);
    resource.spec.template = Some(template(Some(metadata)));
    let secret = desired_secret(&resource, &context(&keys)).unwrap();
    assert_eq!(secret.metadata.name.unwrap(), "renamed");
    assert_eq!(secret.metadata.namespace.unwrap(), "staging");
    let labels = secret.metadata.labels.unwrap();
    assert_eq!(labels.len(), 1);
    assert_eq!(labels.get("app").unwrap(), "demo");
    assert!(secret.metadata.annotations.is_none());
    assert_eq!(secret.type_.unwrap(), "Opaque");
    assert_eq!(secret.immutable, Some(true));
}

#[test]
fn resource_without_namespace_is_an_error() {
    let keys = generate_keypair();
    let mut resource = sealed(&keys, &[("k", "v")]);
    resource.metadata.namespace = None;
    let error = desired_secret(&resource, &context(&keys)).unwrap_err();
    assert!(matches!(error, Error::MissingNamespace));
    assert_eq!(error.message(), "sealed secret has no namespace");
    match reconcile(&resource, &context(&keys)) {
        ReconcileStep::RecordFailed { event, error: Error::MissingNamespace } => {
            assert_eq!(event.note.unwrap(), "sealed secret has no namespace");
        }
        other => panic!("{other:?}"),
    }
    match patch_status(&resource, SecretPhase::Failed, None, 0) {
        Err(Error::MissingNamespace) => {}
        other => panic!("{other:?}"),
    }
}

#[test]
fn resource_that_cannot_own_is_an_error() {
    let keys = generate_keypair();
    let mut resource = sealed(&keys, &[("k", "v")]);
    resource.metadata.uid = None;
    let error = desired_secret(&resource, &context(&keys)).unwrap_err();
    assert!(matches!(error, Error::Configuration(_)));
    assert_eq!(error.message(), "sealed secret has no owner reference");
    resource.metadata.uid = Some("1234".to_owned());
    resource.metadata.name = None;
    assert!(matches!(
        desired_secret(&resource, &context(&keys)),
        Err(Error::Configuration(_))
    ));
}

#[test]
fn value_that_does_not_decrypt_is_an_error_and_nothing_is_applied() {
    let keys = generate_keypair();
    let mut resource = sealed(&keys, &[("a", "v"), ("c", "v")]);
    resource.spec.encrypted_data.insert("b".to_owned(), "not encrypted".to_owned());
    // A value that does not decrypt comes before a missing owner.
    resource.metadata.uid = None;
    match reconcile(&resource, &context(&keys)) {
        ReconcileStep::ReportFailed { patch, error } => {
            assert!(matches!(error, Error::Encryption(encryption::Error::Decrypt(_))));
            assert!(error.message().starts_with("age encryption error: age decryption failed: "));
            assert_eq!(patch.status.message.unwrap(), error.message());
            assert_eq!(patch.status.phase, Some(SecretPhase::Failed));
            assert_eq!(patch.status.data_count, Some(0));
        }
        other => panic!("{other:?}"),
    }
}

#[test]
fn status_tells_of_the_first_value_that_does_not_decrypt() {
    let keys = generate_keypair();
    let other = generate_keypair();
    let mut resource = sealed(&keys, &[("c", "v")]);
    let of_other = encrypt(&other.public_key, b"v").unwrap();
    resource.spec.encrypted_data.insert("b".to_owned(), of_other);
    resource.spec.encrypted_data.insert("a".to_owned(), "no payload".to_owned());
    let expected = decrypt(&keys.private_key, "no payload").unwrap_err().message();
    match reconcile(&resource, &context(&keys)) {
        ReconcileStep::ReportFailed { patch, .. } => assert_eq!(
            patch.status.message.unwrap(),
            format!("age encryption error: {expected}")
        ),
        other => panic!("{other:?}"),
    }
}

#[test]
fn invalid_controller_key_is_an_error() {
    let keys = generate_keypair();
    let resource = sealed(&keys, &[("k", "v")]);
    let context = Context { private_key: "no key".to_owned() };
    let error = desired_secret(&resource, &context).unwrap_err();
    assert_eq!(
        error.message(),
        "age encryption error: invalid age private key: invalid Bech32 encoding"
    );
    // Without values the key is not looked at.
    let empty = sealed(&keys, &[]);
    let secret = desired_secret(&empty, &context).unwrap();
    assert!(secret.data.unwrap().is_empty());
}

#[test]
fn status_patch_says_what_was_seen() {
    let keys = generate_keypair();
    let resource = sealed(&keys, &[]);
    let patch =
        patch_status(&resource, SecretPhase::Pending, Some("words".to_owned()), 3).unwrap();
    assert_eq!(patch.namespace, "staging");
    assert_eq!(patch.name, "app-config");
    assert_eq!(patch.status.phase, Some(SecretPhase::Pending));
    assert_eq!(patch.status.message.unwrap(), "words");
    assert_eq!(patch.status.data_count, Some(3));
    assert_eq!(patch.status.observed_generation, Some(7));
    assert!(patch.status.conditions.is_empty());
}

#[test]
fn reconciliation_applies_reports_and_records() {
    let keys = generate_keypair();
    let resource = sealed(&keys, &[("a", "1"), ("b", "2")]);
    let step = reconcile(&resource, &context(&keys));
    match &step {
        ReconcileStep::ApplySecret { namespace, name, secret } => {
            assert_eq!(namespace, "staging");
            assert_eq!(name, "app-config");
            assert_eq!(secret.data.as_ref().unwrap().get("b").unwrap(), b"2");
        }
        other => panic!("{other:?}"),
    }
    let step = reconcile_next(&resource, step, Ok(()));
    match &step {
        ReconcileStep::ReportApplied(patch) => {
            assert_eq!(patch.status.phase, Some(SecretPhase::Applied));
            assert_eq!(patch.status.message, None);
            assert_eq!(patch.status.data_count, Some(2));
            assert_eq!(patch.status.observed_generation, Some(7));
        }
        other => panic!("{other:?}"),
    }
    let step = reconcile_next(&resource, step, Ok(()));
    match &step {
        ReconcileStep::RecordApplied(event) => {
            assert_eq!(event.kind, EventKind::Normal);
            assert_eq!(event.reason, "SecretApplied");
            assert_eq!(event.action, "Reconcile");
        }
        other => panic!("{other:?}"),
    }
    // An event that cannot be recorded changes nothing.
    let step = reconcile_next(&resource, step, Err(api_error(None, "down")));
    match step {
        ReconcileStep::Finish(action) => {
            assert_eq!(action, Action { requeue_after_seconds: 3600 });
        }
        other => panic!("{other:?}"),
    }
}

#[test]
fn failure_to_apply_is_reported_recorded_and_kept() {
    let keys = generate_keypair();
    let resource = sealed(&keys, &[("a", "1")]);
    let step = reconcile(&resource, &context(&keys));
    let step = reconcile_next(&resource, step, Err(api_error(Some(403), "forbidden")));
    match &step {
        ReconcileStep::ReportFailed { patch, .. } => {
            assert_eq!(patch.status.phase, Some(SecretPhase::Failed));
            assert_eq!(
                patch.status.message.as_ref().unwrap(),
                "Kubernetes API error: forbidden"
            );
            assert_eq!(patch.status.data_count, Some(0));
        }
        other => panic!("{other:?}"),
    }
    let step = reconcile_next(&resource, step, Err(api_error(None, "down")));
    match &step {
        ReconcileStep::RecordFailed { event, .. } => {
            assert_eq!(event.kind, EventKind::Warning);
            assert_eq!(event.reason, "ReconcileFailed");
            assert_eq!(event.note.as_ref().unwrap(), "Kubernetes API error: forbidden");
            assert_eq!(event.action, "Reconcile");
        }
        other => panic!("{other:?}"),
    }
    match reconcile_next(&resource, step, Err(api_error(None, "down"))) {
        ReconcileStep::Fail(Error::Kubernetes(error)) => {
            assert_eq!(error.code, Some(403));
            assert_eq!(error.message, "forbidden");
        }
        other => panic!("{other:?}"),
    }
}

#[test]
fn failure_to_report_success_is_a_failure() {
    let keys = generate_keypair();
    let resource = sealed(&keys, &[("a", "1")]);
    let step = reconcile(&resource, &context(&keys));
    let step = reconcile_next(&resource, step, Ok(()));
    let step = reconcile_next(&resource, step, Err(api_error(Some(500), "broken")));
    assert!(matches!(step, ReconcileStep::ReportFailed { error: Error::Kubernetes(_), .. }));
}

#[test]
fn end_of_a_reconciliation_stays() {
    let keys = generate_keypair();
    let resource = sealed(&keys, &[]);
    let action = Action { requeue_after_seconds: 5 };
    match reconcile_next(&resource, ReconcileStep::Finish(action), Ok(())) {
        ReconcileStep::Finish(kept) => assert_eq!(kept, action),
        other => panic!("{other:?}"),
    }
    match reconcile_next(&resource, ReconcileStep::Fail(Error::MissingNamespace), Ok(())) {
        ReconcileStep::Fail(Error::MissingNamespace) => {}
        other => panic!("{other:?}"),
    }
}

#[test]
fn failed_reconciliation_is_tried_again_soon() {
    let action = error_policy(&Error::MissingNamespace);
    assert_eq!(action, Action { requeue_after_seconds: 30 });
}

#[test]
fn events_say_what_happened() {
    let event = event_of_success();
    assert_eq!(event.note.unwrap(), "Decrypted the sealed values and applied the Secret");
    let event = event_of_failure("words".to_owned());
    assert_eq!(event.note.unwrap(), "words");
}

#[test]
fn controller_namespace_must_be_set() {
    assert_eq!(controller_namespace(Some("fuin-system".to_owned())).unwrap(), "fuin-system");
    let error = controller_namespace(None).unwrap_err();
    assert_eq!(
        error.message(),
        "FUIN_CONTROLLER_NAMESPACE must be set to the controller namespace"
    );
}

#[test]
fn controller_key_is_looked_for_in_its_namespace() {
    match ensure_controller_key("fuin-system") {
        KeyStep::ReadPrivateKey { namespace, name } => {
            assert_eq!(namespace, "fuin-system");
            assert_eq!(name, "fuin-controller-key");
        }
        other => panic!("{other:?}"),
    }
}

#[test]
fn existing_controller_key_is_kept_and_published() {
    let keys = generate_keypair();
    let found = FuinPrivateKeySpec { private_key: keys.private_key.clone() };
    match private_key_read("fuin-system", Ok(Some(found))).unwrap() {
        KeyStep::PublishPublicKey { name, spec, private_key } => {
            assert_eq!(name, "fuin-controller");
            assert_eq!(spec.public_key, keys.public_key);
            assert_eq!(private_key, keys.private_key);
        }
        other => panic!("{other:?}"),
    }
}

#[test]
fn missing_controller_key_is_created() {
    let (namespace, name, keys) = match private_key_read("fuin-system", Ok(None)).unwrap() {
        KeyStep::CreatePrivateKey { namespace, name, keys } => (namespace, name, keys),
        other => panic!("{other:?}"),
    };
    assert_eq!(namespace, "fuin-system");
    assert_eq!(name, "fuin-controller-key");
    assert_eq!(public_key(&keys.private_key).unwrap(), keys.public_key);
    match private_key_created("fuin-system", keys.clone(), Ok(())).unwrap() {
        KeyStep::PublishPublicKey { name, spec, private_key } => {
            assert_eq!(name, "fuin-controller");
            assert_eq!(spec.public_key, keys.public_key);
            assert_eq!(private_key, keys.private_key);
            let ciphertext = encrypt(&spec.public_key, b"value").unwrap();
            assert_eq!(decrypt(&private_key, &ciphertext).unwrap(), b"value");
        }
        other => panic!("{other:?}"),
    }
}

#[test]
fn controller_key_created_meanwhile_is_used() {
    let keys = generate_keypair();
    let other = generate_keypair();
    let conflict = api_error(Some(409), "exists");
    match private_key_created("fuin-system", keys, Err(conflict)).unwrap() {
        KeyStep::RereadPrivateKey { namespace, name } => {
            assert_eq!(namespace, "fuin-system");
            assert_eq!(name, "fuin-controller-key");
        }
        other => panic!("{other:?}"),
    }
    let found = FuinPrivateKeySpec { private_key: other.private_key.clone() };
    match private_key_reread(Ok(found)).unwrap() {
        KeyStep::PublishPublicKey { spec, private_key, .. } => {
            assert_eq!(spec.public_key, other.public_key);
            assert_eq!(private_key, other.private_key);
        }
        other => panic!("{other:?}"),
    }
}

#[test]
fn controller_key_failures_are_reported() {
    let error = private_key_read("ns", Err(api_error(Some(403), "forbidden"))).unwrap_err();
    assert_eq!(error.message(), "Kubernetes API error: forbidden");
    let bad = FuinPrivateKeySpec { private_key: "no key".to_owned() };
    let error = private_key_read("ns", Ok(Some(bad.clone()))).unwrap_err();
    assert_eq!(
        error.message(),
        "age encryption error: invalid age private key: invalid Bech32 encoding"
    );
    let error = private_key_reread(Ok(bad)).unwrap_err();
    assert!(matches!(error, Error::Encryption(encryption::Error::InvalidPrivateKey(_))));
    for code in [None, Some(500)] {
        let error =
            private_key_created("ns", generate_keypair(), Err(api_error(code, "x"))).unwrap_err();
        assert!(matches!(error, Error::Kubernetes(_)));
    }
    let error = private_key_reread(Err(api_error(Some(404), "gone"))).unwrap_err();
    assert!(matches!(error, Error::Kubernetes(_)));
    let error = public_key_published("key".to_owned(), Err(api_error(None, "x"))).unwrap_err();
    assert!(matches!(error, Error::Kubernetes(_)));
}

#[test]
fn published_key_is_ready() {
    match public_key_published("key".to_owned(), Ok(())).unwrap() {
        KeyStep::Ready(private_key) => assert_eq!(private_key, "key"),
        other => panic!("{other:?}"),
    }
}

#[test]
fn owner_reference_takes_a_name_and_a_uid() {
    let mut metadata = ObjectMeta::default();
    assert!(metadata.controller_owner_ref("Kind").is_none());
    metadata.name = Some("name".to_owned());
    assert!(metadata.controller_owner_ref("Kind").is_none());
    metadata.uid = Some("uid".to_owned());
    assert_eq!(metadata.controller_owner_ref("Kind").unwrap().kind, "Kind");
}
