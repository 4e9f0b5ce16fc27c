//! From encrypted values and a template to the Secret.

use fuin::encryption::{decrypt, encrypt, generate_keypair, Error};
use fuin::resources::{copy_data, ObjectMeta, OwnerReference};
use fuin::string_map::StringMap;
use fuin::types::{FieldValue, MetadataValue, SecretTemplate};
use fuin::unsealing::{decrypt_data, find_output_name, find_table, find_text, unseal};

fn template() -> Option<SecretTemplate> {
    let mut labels = StringMap::new();
    labels.insert("app".to_owned(), FieldValue::Text("demo".to_owned()));
    labels.insert("odd".to_owned(), FieldValue::Other);
    let mut metadata = StringMap::new();
    metadata.insert("name".to_owned(), MetadataValue::Text("renamed".to_owned()));
    metadata.insert("labels".to_owned(), MetadataValue::Table(labels));
    metadata.insert("annotations".to_owned(), MetadataValue::Text("no table".to_owned()));
    Some(SecretTemplate { metadata: Some(metadata), type_: None, immutable: Some(false) })
}

#[test]
fn all_values_are_decrypted() {
    let keys = generate_keypair();
    let mut encrypted = StringMap::new();
    for name in ["b", "a"] {
        encrypted.insert(name.to_owned(), encrypt(&keys.public_key, name.as_bytes()).unwrap());
    }
    let data = decrypt_data(&keys.private_key, &encrypted).unwrap();
    assert_eq!(data.len(), 2);
    assert_eq!(data.get("a").unwrap(), b"a");
    assert_eq!(data.get("b").unwrap(), b"b");
    encrypted.insert("c".to_owned(), "not encrypted".to_owned());
    assert!(matches!(decrypt_data(&keys.private_key, &encrypted), Err(Error::Decrypt(_))));
    assert!(matches!(decrypt_data("no key", &encrypted), Err(Error::InvalidPrivateKey(_))));
}

#[test]
fn first_value_that_does_not_decrypt_decides() {
    let keys = generate_keypair();
    let other = generate_keypair();
    let no_payload = "no payload".to_owned();
    let of_other = encrypt(&other.public_key, b"value").unwrap();
    let words = |text: &str| decrypt(&keys.private_key, text).unwrap_err().message();
    assert_ne!(words(&no_payload), words(&of_other));
    for (first, second) in [(&no_payload, &of_other), (&of_other, &no_payload)] {
        let mut encrypted = StringMap::new();
        encrypted.insert("b".to_owned(), second.clone());
        encrypted.insert("a".to_owned(), first.clone());
        let error = decrypt_data(&keys.private_key, &encrypted).unwrap_err();
        assert_eq!(error.message(), words(first));
    }
}

#[test]
fn template_is_searched() {
    let template = template();
    assert_eq!(find_text(&template, "name").as_deref(), Some("renamed"));
    assert_eq!(find_text(&template, "labels"), None);
    assert_eq!(find_text(&template, "namespace"), None);
    assert_eq!(find_text(&None, "name"), None);
    let labels = find_table(&template, "labels").unwrap();
    assert_eq!(labels.len(), 1);
    assert_eq!(labels.get("app").unwrap(), "demo");
    assert!(find_table(&template, "annotations").is_none());
    assert!(find_table(&template, "other").is_none());
}

#[test]
fn name_falls_back_to_the_resource() {
    let mut metadata = ObjectMeta::default();
    metadata.name = Some("own".to_owned());
    assert_eq!(find_output_name(&template(), &metadata), "renamed");
    assert_eq!(find_output_name(&None, &metadata), "own");
}

#[test]
fn secret_is_put_together() {
    let owner = OwnerReference {
        api_version: "v".to_owned(),
        kind: "K".to_owned(),
        name: "n".to_owned(),
        uid: "u".to_owned(),
        controller: Some(true),
        block_owner_deletion: None,
    };
    let mut data = StringMap::new();
    data.insert("k".to_owned(), vec![1, 2]);
    let copy = copy_data(&data);
    let secret = unseal(&template(), "name".to_owned(), "place".to_owned(), owner, copy);
    assert_eq!(secret.metadata.name.as_deref(), Some("name"));
    assert_eq!(secret.metadata.namespace.as_deref(), Some("place"));
    assert_eq!(secret.metadata.labels.unwrap().len(), 1);
    assert!(secret.metadata.annotations.is_none());
    assert_eq!(secret.metadata.owner_references.unwrap().len(), 1);
    assert_eq!(secret.immutable, Some(false));
    assert_eq!(secret.type_, None);
    assert_eq!(secret.data.unwrap().get("k").unwrap(), &[1, 2]);
    assert_eq!(data.get("k").unwrap(), &[1, 2]);
}
