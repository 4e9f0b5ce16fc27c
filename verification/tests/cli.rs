//! The command line tool's decisions, and what becomes of a Secret that it sealed.

use fuin::cli::{
    applied, file_loaded, file_read, file_written, parse_label, parse_labels, public_key_fetched,
    recorded, rendered, seal, seal_secret, secret_fetched, Error, FileError, Output, SealArgs,
    SealStep, Sealed,
};
use fuin::cluster::{desired_secrets, Namespace};
use fuin::controller::{desired_secret, Context};
use fuin::encryption::{self, decrypt, generate_keypair};
use fuin::resources::{ApiError, ObjectMeta, Secret};
use fuin::sealing::{encrypt_data, make_template, plaintext_data};
use fuin::secret_file::{to_secret, ParsedSecret};
use fuin::string_map::StringMap;
use fuin::types::{EventKind, FieldValue, FuinPublicKeySpec, MetadataValue};

const WEAK_KEY: &str = "age1qqqqqqqqqqqqqqqqqqqqqqqqqqqqqqqqqqqqqqqqqqqqqqqqqqqq5cu47z";

fn args() -> SealArgs {
    SealArgs {
        namespace: None,
        secret: None,
        from_file: None,
        public_key: "fuin-controller".to_owned(),
        output: None,
        apply: false,
        cluster_wide: false,
        namespace_labels: Vec::new(),
        exclude_namespaces: Vec::new(),
    }
}

fn texts(entries: &[(&str, &str)]) -> StringMap<String> {
    let mut map = StringMap::new();
    for (key, value) in entries {
        map.insert(key.to_string(), value.to_string());
    }
    map
}

fn bytes(entries: &[(&str, &[u8])]) -> StringMap<Vec<u8>> {
    let mut map = StringMap::new();
    for (key, value) in entries {
        map.insert(key.to_string(), value.to_vec());
    }
    map
}

/// A Secret with every part that sealing preserves.
fn source() -> Secret {
    Secret {
        metadata: ObjectMeta {
            name: Some("app-config".to_owned()),
            namespace: Some("staging".to_owned()),
            labels: Some(texts(&[("app", "demo")])),
            annotations: Some(texts(&[("note", "hello"), ("team", "x")])),
            ..ObjectMeta::default()
        },
        data: Some(bytes(&[("BIN", &[0xff, 0x00]), ("APP_ENV", b"old")])),
        string_data: Some(texts(&[("APP_ENV", "staging"), ("API", "https://api.example.com")])),
        immutable: Some(true),
        type_: Some("Opaque".to_owned()),
    }
}

fn empty_secret() -> Secret {
    Secret {
        metadata: ObjectMeta { name: Some("nothing".to_owned()), ..ObjectMeta::default() },
        data: None,
        string_data: None,
        immutable: None,
        type_: None,
    }
}

fn api_error(message: &str) -> ApiError {
    ApiError { code: None, message: message.to_owned() }
}

fn namespaced(outcome: Option<Result<Sealed, Error>>) -> fuin::types::FuinSealedSecret {
    match outcome {
        Some(Ok(Sealed::Namespaced(resource))) => resource,
        other => panic!("{other:?}"),
    }
}

fn some_sealed() -> Sealed {
    let keys = generate_keypair();
    Sealed::Namespaced(namespaced(seal_secret(&args(), &source(), &keys.public_key)))
}

#[test]
fn source_is_named_or_read_from_a_file() {
    let mut given = args();
    given.secret = Some("app-config".to_owned());
    match seal(&given).unwrap() {
        SealStep::FetchSecret { namespace, name } => {
            assert_eq!(namespace, "default");
            assert_eq!(name, "app-config");
        }
        other => panic!("{other:?}"),
    }
    given.namespace = Some("staging".to_owned());
    assert!(matches!(
        seal(&given).unwrap(),
        SealStep::FetchSecret { namespace, .. } if namespace == "staging"
    ));
    let mut given = args();
    given.from_file = Some("./a.yaml".to_owned());
    assert!(matches!(seal(&given).unwrap(), SealStep::LoadFile { path } if path == "./a.yaml"));
}

#[test]
fn exactly_one_source_must_be_given() {
    let neither = args();
    let mut both = args();
    both.secret = Some("a".to_owned());
    both.from_file = Some("b".to_owned());
    for given in [neither, both] {
        let error = seal(&given).unwrap_err();
        assert!(matches!(error, Error::Input(_)));
        assert_eq!(error.message(), "input error: provide either a Secret name or --from-file");
    }
}

#[test]
fn fetched_secret_leads_to_the_public_key() {
    match secret_fetched(&args(), "staging".to_owned(), Ok(source())).unwrap() {
        SealStep::FetchPublicKey { name, namespace, source } => {
            assert_eq!(name, "fuin-controller");
            assert_eq!(namespace, "staging");
            assert_eq!(source.metadata.name.unwrap(), "app-config");
        }
        other => panic!("{other:?}"),
    }
    let error = secret_fetched(&args(), "x".to_owned(), Err(api_error("none"))).unwrap_err();
    assert_eq!(error.message(), "Kubernetes API error: none");
}

#[test]
fn namespace_of_a_file_is_the_one_asked_for_the_secrets_or_the_default() {
    let namespace = |given: &SealArgs, secret: Secret| match file_loaded(given, "f", Ok(secret)) {
        Ok(SealStep::FetchPublicKey { namespace, .. }) => namespace,
        other => panic!("{other:?}"),
    };
    assert_eq!(namespace(&args(), source()), "staging");
    assert_eq!(namespace(&args(), empty_secret()), "default");
    let mut given = args();
    given.namespace = Some("other".to_owned());
    assert_eq!(namespace(&given, source()), "other");
}

#[test]
fn file_errors_name_the_file() {
    let read = FileError::Read("no such file".to_owned());
    let error = file_loaded(&args(), "./a.yaml", Err(read)).unwrap_err();
    assert_eq!(error.message(), "input error: failed to read ./a.yaml: no such file");
    let parse = FileError::Parse("bad".to_owned());
    let error = file_loaded(&args(), "./a.yaml", Err(parse)).unwrap_err();
    assert_eq!(error.message(), "input error: failed to parse ./a.yaml: bad");
}

fn read_source(given: &SealArgs, text: &str) -> (String, Secret) {
    match file_read(given, "./a.yaml", Ok(text.to_owned())) {
        Ok(SealStep::FetchPublicKey { name, namespace, source }) => {
            assert_eq!(name, "fuin-controller");
            (namespace, source)
        }
        other => panic!("{other:?}"),
    }
}

const SECRET_FILE: &str = "apiVersion: v1
kind: Secret
metadata:
  name: app-config
  namespace: staging
type: Opaque
stringData:
  APP_ENV: staging
  API_ENDPOINT: https://api.example.com
";

#[test]
fn secret_is_read_from_the_text_of_a_file() {
    let (namespace, source) = read_source(&args(), SECRET_FILE);
    assert_eq!(namespace, "staging");
    assert_eq!(source.metadata.name.as_deref(), Some("app-config"));
    assert_eq!(source.metadata.namespace.as_deref(), Some("staging"));
    assert_eq!(source.type_.as_deref(), Some("Opaque"));
    assert_eq!(source.immutable, None);
    assert!(source.data.is_none());
    assert!(source.metadata.labels.is_none());
    assert!(source.metadata.annotations.is_none());
    let entries = source.string_data.unwrap();
    assert_eq!(entries.len(), 2);
    assert_eq!(entries.get("APP_ENV").unwrap(), "staging");
    assert_eq!(entries.get("API_ENDPOINT").unwrap(), "https://api.example.com");
    let mut given = args();
    given.namespace = Some("other".to_owned());
    assert_eq!(read_source(&given, SECRET_FILE).0, "other");
}

#[test]
fn every_part_of_a_secret_file_is_taken_over() {
    let text = "apiVersion: v1
kind: Secret
metadata:
  generateName: app-
  uid: u-1
  generation: 4
  labels: {}
  annotations:
    note: hello
data:
  BIN: /wA=
  EMPTY: ''
stringData: {}
immutable: true
";
    let (namespace, source) = read_source(&args(), text);
    assert_eq!(namespace, "default");
    assert_eq!(source.metadata.name, None);
    assert_eq!(source.metadata.generate_name.as_deref(), Some("app-"));
    assert_eq!(source.metadata.uid.as_deref(), Some("u-1"));
    assert_eq!(source.metadata.generation, Some(4));
    assert!(source.metadata.labels.unwrap().is_empty());
    assert_eq!(source.metadata.annotations.unwrap().get("note").unwrap(), "hello");
    let data = source.data.unwrap();
    assert_eq!(data.len(), 2);
    assert_eq!(data.get("BIN").unwrap(), &[0xff, 0x00]);
    assert_eq!(data.get("EMPTY").unwrap(), b"");
    assert!(source.string_data.unwrap().is_empty());
    assert_eq!(source.immutable, Some(true));
    assert_eq!(source.type_, None);
}

#[test]
fn text_that_is_no_secret_is_reported() {
    for text in ["text", "- a", "a: [", "kind: Pod\napiVersion: v1\nmetadata: {}\n"] {
        let error = file_read(&args(), "./a.yaml", Ok(text.to_owned())).unwrap_err();
        assert!(matches!(error, Error::Input(_)));
        assert!(error.message().starts_with("input error: failed to parse ./a.yaml: "));
    }
    let error = file_read(&args(), "./a.yaml", Err("no such file".to_owned())).unwrap_err();
    assert_eq!(error.message(), "input error: failed to read ./a.yaml: no such file");
}

#[test]
fn parts_are_put_together_and_later_pairs_win() {
    let pair = |key: &str, value: &str| (key.to_owned(), value.to_owned());
    let secret = to_secret(ParsedSecret {
        name: Some("n".to_owned()),
        generate_name: None,
        namespace: None,
        uid: None,
        generation: None,
        labels: Some(vec![pair("b", "1"), pair("a", "2"), pair("b", "3")]),
        annotations: None,
        data: Some(vec![("k".to_owned(), vec![1])]),
        string_data: Some(Vec::new()),
        immutable: None,
        type_: Some("t".to_owned()),
    });
    assert_eq!(secret.metadata.name.as_deref(), Some("n"));
    let labels = secret.metadata.labels.unwrap();
    assert_eq!(labels.len(), 2);
    assert_eq!(labels.get("b").unwrap(), "3");
    assert_eq!(labels.get("a").unwrap(), "2");
    assert!(secret.metadata.annotations.is_none());
    assert!(secret.metadata.owner_references.is_none());
    assert_eq!(secret.data.unwrap().get("k").unwrap(), &[1]);
    assert!(secret.string_data.unwrap().is_empty());
    assert_eq!(secret.type_.as_deref(), Some("t"));
}

#[test]
fn both_kinds_of_data_are_collected_and_text_wins() {
    let plaintext = plaintext_data(&source());
    assert_eq!(plaintext.len(), 3);
    assert_eq!(plaintext.get("BIN").unwrap(), &[0xff, 0x00]);
    assert_eq!(plaintext.get("APP_ENV").unwrap(), b"staging");
    assert_eq!(plaintext.get("API").unwrap(), b"https://api.example.com");
    assert!(plaintext_data(&empty_secret()).is_empty());
    let mut text_only = empty_secret();
    text_only.string_data = Some(texts(&[("k", "gr\u{fc}n")]));
    assert_eq!(plaintext_data(&text_only).get("k").unwrap(), "gr\u{fc}n".as_bytes());
}

#[test]
fn template_preserves_the_secret() {
    let template = make_template(&source());
    assert_eq!(template.type_.as_deref(), Some("Opaque"));
    assert_eq!(template.immutable, Some(true));
    let metadata = template.metadata.unwrap();
    assert_eq!(metadata.len(), 4);
    assert!(matches!(metadata.get("name"), Some(MetadataValue::Text(t)) if t == "app-config"));
    assert!(matches!(metadata.get("namespace"), Some(MetadataValue::Text(t)) if t == "staging"));
    match metadata.get("labels") {
        Some(MetadataValue::Table(table)) => {
            assert_eq!(table.len(), 1);
            assert!(matches!(table.get("app"), Some(FieldValue::Text(t)) if t == "demo"));
        }
        other => panic!("{other:?}"),
    }
    assert!(matches!(
        metadata.get("annotations"),
        Some(MetadataValue::Table(table)) if table.len() == 2
    ));

    let bare = make_template(&empty_secret());
    assert_eq!(bare.metadata.unwrap().len(), 1);
    assert_eq!(bare.type_, None);
    assert_eq!(bare.immutable, None);
}

#[test]
fn values_are_encrypted_under_their_own_names() {
    let keys = generate_keypair();
    let encrypted =
        encrypt_data(&keys.public_key, &bytes(&[("a", b"1"), ("b", b"2")])).unwrap();
    assert_eq!(encrypted.len(), 2);
    assert_eq!(decrypt(&keys.private_key, encrypted.get("a").unwrap()).unwrap(), b"1");
    assert_eq!(decrypt(&keys.private_key, encrypted.get("b").unwrap()).unwrap(), b"2");
    assert!(encrypt_data("no key", &bytes(&[("a", b"1")])).is_err());
    assert!(encrypt_data("no key", &bytes(&[])).unwrap().is_empty());
}

#[test]
fn sealed_secret_keeps_names_readable_and_values_hidden() {
    let keys = generate_keypair();
    let resource = namespaced(seal_secret(&args(), &source(), &keys.public_key));
    assert_eq!(resource.metadata.name.as_deref(), Some("app-config"));
    assert_eq!(resource.metadata.namespace, None);
    assert!(resource.status.is_none());
    let data = &resource.spec.encrypted_data;
    let names: Vec<&str> = (0..data.len()).map(|i| data.key_at(i).as_str()).collect();
    assert_eq!(names, ["API", "APP_ENV", "BIN"]);
    for i in 0..data.len() {
        assert!(data.value_at(i).starts_with("-----BEGIN AGE ENCRYPTED FILE-----"));
    }
}

#[test]
fn sealed_secret_is_recreated_as_it_was() {
    let keys = generate_keypair();
    let mut resource = namespaced(seal_secret(&args(), &source(), &keys.public_key));
    resource.metadata.namespace = Some("staging".to_owned());
    resource.metadata.uid = Some("1".to_owned());
    let context = Context { private_key: keys.private_key };
    let secret = desired_secret(&resource, &context).unwrap();
    assert_eq!(secret.metadata.name.as_deref(), Some("app-config"));
    assert_eq!(secret.metadata.namespace.as_deref(), Some("staging"));
    assert_eq!(secret.type_.as_deref(), Some("Opaque"));
    assert_eq!(secret.immutable, Some(true));
    assert_eq!(secret.metadata.labels.unwrap().get("app").unwrap(), "demo");
    let annotations = secret.metadata.annotations.unwrap();
    assert_eq!(annotations.len(), 2);
    assert_eq!(annotations.get("note").unwrap(), "hello");
    let data = secret.data.unwrap();
    assert_eq!(data.len(), 3);
    assert_eq!(data.get("BIN").unwrap(), &[0xff, 0x00]);
    assert_eq!(data.get("APP_ENV").unwrap(), b"staging");
    assert_eq!(data.get("API").unwrap(), b"https://api.example.com");
}

#[test]
fn cluster_sealed_secret_is_recreated_in_every_selected_namespace() {
    let keys = generate_keypair();
    let mut given = args();
    given.cluster_wide = true;
    given.namespace_labels = vec!["fuin.abr.sh/registry-access=true".to_owned()];
    given.exclude_namespaces = vec!["fuin-system".to_owned()];
    let mut resource = match seal_secret(&given, &source(), &keys.public_key) {
        Some(Ok(Sealed::ClusterWide(resource))) => resource,
        other => panic!("{other:?}"),
    };
    assert_eq!(resource.metadata.name.as_deref(), Some("app-config"));
    assert_eq!(resource.spec.exclude_namespaces, ["fuin-system"]);
    assert_eq!(
        resource
            .spec
            .namespace_selector
            .match_labels
            .get("fuin.abr.sh/registry-access")
            .unwrap(),
        "true"
    );
    resource.metadata.uid = Some("1".to_owned());
    let access = || texts(&[("fuin.abr.sh/registry-access", "true")]);
    let listed = vec![
        Namespace { name: "a".to_owned(), labels: access() },
        Namespace { name: "b".to_owned(), labels: StringMap::new() },
        Namespace { name: "fuin-system".to_owned(), labels: access() },
    ];
    let context = Context { private_key: keys.private_key };
    let secrets = desired_secrets(&resource, &context, &listed).unwrap();
    assert_eq!(secrets.len(), 1);
    assert_eq!(secrets[0].metadata.namespace.as_deref(), Some("a"));
    assert_eq!(secrets[0].data.as_ref().unwrap().get("APP_ENV").unwrap(), b"staging");
    assert_eq!(secrets[0].immutable, Some(true));
}

#[test]
fn secret_without_entries_is_refused() {
    let keys = generate_keypair();
    for key in [keys.public_key.as_str(), "no key", WEAK_KEY] {
        match seal_secret(&args(), &empty_secret(), key) {
            Some(Err(error)) => {
                assert!(matches!(&error, Error::EmptySecret(name) if name == "nothing"));
                assert_eq!(
                    error.message(),
                    "the Kubernetes Secret `nothing` has no data entries"
                );
            }
            other => panic!("{other:?}"),
        }
    }
}

#[test]
fn key_that_does_not_serve_is_refused() {
    match seal_secret(&args(), &source(), "no key") {
        Some(Err(error)) => {
            assert!(matches!(
                &error,
                Error::Encryption(encryption::Error::InvalidPublicKey(_))
            ));
            assert_eq!(
                error.message(),
                "encryption error: invalid age public key: invalid Bech32 encoding"
            );
        }
        other => panic!("{other:?}"),
    }
    assert!(seal_secret(&args(), &source(), WEAK_KEY).is_none());
}

#[test]
fn labels_are_split_at_the_first_equals_sign() {
    let label = |text| parse_label(text).unwrap();
    assert_eq!(label("a=b"), ("a".to_owned(), "b".to_owned()));
    assert_eq!(label("a=b=c"), ("a".to_owned(), "b=c".to_owned()));
    assert_eq!(label("="), (String::new(), String::new()));
    assert_eq!(label("gr\u{fc}n=\u{fc}"), ("gr\u{fc}n".to_owned(), "\u{fc}".to_owned()));
    assert!(parse_label("ab").is_none());
    assert!(parse_label("").is_none());
}

#[test]
fn later_labels_win_and_bad_ones_are_reported() {
    let list = |items: &[&str]| items.iter().map(|item| item.to_string()).collect::<Vec<_>>();
    let labels = parse_labels(&list(&["a=1", "b=2", "a=3"])).unwrap();
    assert_eq!(labels.len(), 2);
    assert_eq!(labels.get("a").unwrap(), "3");
    let error = parse_labels(&list(&["a=1", "bad", "worse"])).unwrap_err();
    assert_eq!(
        error.message(),
        "input error: invalid namespace label `bad`: expected key=value"
    );
    let keys = generate_keypair();
    let mut given = args();
    given.namespace_labels = list(&["bad"]);
    assert!(matches!(seal_secret(&given, &source(), &keys.public_key), Some(Ok(_))));
    given.cluster_wide = true;
    assert!(matches!(
        seal_secret(&given, &source(), &keys.public_key),
        Some(Err(Error::Input(_)))
    ));
}

#[test]
fn public_key_leads_to_the_sealed_resource() {
    let keys = generate_keypair();
    let reply = Ok(FuinPublicKeySpec { public_key: keys.public_key });
    match public_key_fetched(&args(), "staging".to_owned(), &source(), reply) {
        Some(Ok(SealStep::Render { namespace, sealed: Sealed::Namespaced(resource) })) => {
            assert_eq!(namespace, "staging");
            let value = resource.spec.encrypted_data.get("APP_ENV").unwrap();
            assert_eq!(decrypt(&keys.private_key, value).unwrap(), b"staging");
        }
        other => panic!("{other:?}"),
    }
    let fetched = |reply| public_key_fetched(&args(), "x".to_owned(), &source(), reply);
    assert!(matches!(
        fetched(Err(api_error("none"))),
        Some(Err(Error::Kubernetes(error))) if error.message == "none"
    ));
    let key = |text: &str| Ok(FuinPublicKeySpec { public_key: text.to_owned() });
    assert!(matches!(fetched(key("no key")), Some(Err(Error::Encryption(_)))));
    assert!(fetched(key(WEAK_KEY)).is_none());
}

#[test]
fn text_goes_to_the_file_the_cluster_or_the_terminal() {
    let text = || Ok("yaml".to_owned());
    let place = || "staging".to_owned();
    let mut given = args();
    assert!(matches!(
        rendered(&given, place(), some_sealed(), text()),
        Ok(SealStep::Finish(Output::Stdout(shown))) if shown == "yaml"
    ));
    given.apply = true;
    assert!(matches!(
        rendered(&given, place(), some_sealed(), text()),
        Ok(SealStep::Apply { namespace, .. }) if namespace == "staging"
    ));
    given.output = Some("out.yaml".to_owned());
    for apply in [true, false] {
        given.apply = apply;
        match rendered(&given, place(), some_sealed(), text()) {
            Ok(SealStep::WriteFile { path, contents, .. }) => {
                assert_eq!(path, "out.yaml");
                assert_eq!(contents, "yaml");
            }
            other => panic!("{other:?}"),
        }
    }
    let error = rendered(&given, place(), some_sealed(), Err("bad".to_owned())).unwrap_err();
    assert_eq!(error.message(), "input error: failed to serialize sealed secret: bad");
}

#[test]
fn written_file_is_announced_or_applied() {
    let place = || "staging".to_owned();
    let mut given = args();
    assert!(matches!(
        file_written(&given, "out.yaml", place(), some_sealed(), Ok(())),
        Ok(SealStep::Finish(Output::Stderr(shown))) if shown == "wrote out.yaml\n"
    ));
    given.apply = true;
    assert!(matches!(
        file_written(&given, "out.yaml", place(), some_sealed(), Ok(())),
        Ok(SealStep::Apply { .. })
    ));
    let failed = Err("full".to_owned());
    let error = file_written(&given, "out.yaml", place(), some_sealed(), failed).unwrap_err();
    assert_eq!(error.message(), "input error: failed to write out.yaml: full");
}

#[test]
fn applied_resource_is_recorded_and_announced() {
    let step = applied("staging".to_owned(), some_sealed(), Ok(())).unwrap();
    let (namespace, sealed) = match step {
        SealStep::Record { event, namespace, sealed } => {
            assert_eq!(event.kind, EventKind::Normal);
            assert_eq!(event.reason, "SecretSealed");
            assert_eq!(
                event.note.as_deref(),
                Some("Encrypted Secret data and applied FuinSealedSecret")
            );
            assert_eq!(event.action, "Seal");
            (namespace, sealed)
        }
        other => panic!("{other:?}"),
    };
    assert!(matches!(
        recorded(&namespace, &sealed, Ok(())),
        Ok(SealStep::Finish(Output::Stdout(shown)))
            if shown == "sealed Secret `app-config` in namespace `staging`\n"
    ));
    assert!(matches!(
        recorded(&namespace, &sealed, Err(api_error("down"))),
        Err(Error::Kubernetes(_))
    ));
    assert!(matches!(
        applied(namespace, sealed, Err(api_error("down"))),
        Err(Error::Kubernetes(_))
    ));
}

#[test]
fn cluster_wide_sealing_is_announced_and_recorded_as_such() {
    let keys = generate_keypair();
    let mut given = args();
    given.cluster_wide = true;
    let sealed = match seal_secret(&given, &source(), &keys.public_key) {
        Some(Ok(sealed)) => sealed,
        other => panic!("{other:?}"),
    };
    assert!(matches!(
        recorded("staging", &sealed, Ok(())),
        Ok(SealStep::Finish(Output::Stdout(shown)))
            if shown == "sealed Secret `app-config` for the cluster\n"
    ));
    match applied("staging".to_owned(), sealed, Ok(())) {
        Ok(SealStep::Record { event, .. }) => assert_eq!(
            event.note.as_deref(),
            Some("Encrypted Secret data and applied FuinClusterSealedSecret")
        ),
        other => panic!("{other:?}"),
    }
}
