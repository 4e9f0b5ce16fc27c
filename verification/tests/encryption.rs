//! Encryption of single values.

use fuin::age_keys::{low_order, DecryptReason};
use fuin::encryption::{
    decrypt, decrypt_to_string, encrypt, generate_keypair, plaintext_to_string, public_key, refuses,
    try_encrypt, Error, Result,
};

const PRIVATE_KEY: &str =
    "AGE-SECRET-KEY-1GQ9778VQXMMJVE8SK7J6VT8UJ4HDQAJUVSFCWCM02D8GEWQ72PVQ2Y5J33";
const PUBLIC_KEY: &str = "age1t7rxyev2z3rw82stdlrrepyc39nvn86l5078zqkf5uasdy86jp6svpy7pa";

/// A key of low order; age refuses to encrypt to it.
const WEAK_KEY: &str = "age1qqqqqqqqqqqqqqqqqqqqqqqqqqqqqqqqqqqqqqqqqqqqqqqqqqqq5cu47z";

#[test]
fn round_trip_preserves_plaintext() -> Result<()> {
    let keys = generate_keypair();
    let ciphertext = encrypt(&keys.public_key, b"DB_URL=postgres://example")?;

    assert_eq!(
        decrypt(&keys.private_key, &ciphertext)?,
        b"DB_URL=postgres://example"
    );
    Ok(())
}

#[test]
fn round_trip_supports_text_output() -> Result<()> {
    let keys = generate_keypair();
    let ciphertext = encrypt(&keys.public_key, "secret value".as_bytes())?;

    assert_eq!(
        decrypt_to_string(&keys.private_key, &ciphertext)?,
        "secret value"
    );
    Ok(())
}

#[test]
fn wrong_private_key_cannot_decrypt() -> Result<()> {
    let recipient = generate_keypair();
    let other = generate_keypair();
    let ciphertext = encrypt(&recipient.public_key, "secret".as_bytes())?;

    assert!(decrypt(&other.private_key, &ciphertext).is_err());
    Ok(())
}

#[test]
fn round_trip_preserves_every_byte_value_and_the_empty_value() -> Result<()> {
    let keys = generate_keypair();
    let mut bytes: Vec<u8> = Vec::new();
    for round in 0..512u32 {
        for value in 0..=255u8 {
            bytes.push(value ^ (round as u8));
        }
    }
    let ciphertext = encrypt(&keys.public_key, &bytes)?;
    assert_eq!(decrypt(&keys.private_key, &ciphertext)?, bytes);

    let nothing = encrypt(&keys.public_key, b"")?;
    assert_eq!(decrypt(&keys.private_key, &nothing)?, b"");
    Ok(())
}

#[test]
fn ciphertext_is_armored_and_differs_from_call_to_call() -> Result<()> {
    let keys = generate_keypair();
    let long = vec![0xff; 100_000];
    for plaintext in [b"same".as_slice(), b"".as_slice(), &[0xff, 0x00], &long] {
        let first = encrypt(&keys.public_key, plaintext)?;
        let second = encrypt(&keys.public_key, plaintext)?;
        assert!(first.is_ascii());
        assert_eq!(first.lines().next(), Some("-----BEGIN AGE ENCRYPTED FILE-----"));
        assert_eq!(first.lines().last(), Some("-----END AGE ENCRYPTED FILE-----"));
        assert!(first.ends_with('\n'));
        assert_ne!(first, second);
    }
    Ok(())
}

#[test]
fn generated_keys_belong_together() -> Result<()> {
    let keys = generate_keypair();
    assert!(keys.private_key.starts_with("AGE-SECRET-KEY-1"));
    assert!(keys.public_key.starts_with("age1"));
    assert_eq!(public_key(&keys.private_key)?, keys.public_key);
    assert!(!refuses(&keys.public_key));
    assert_ne!(generate_keypair(), keys);
    Ok(())
}

#[test]
fn public_key_is_derived_from_the_private_key() -> Result<()> {
    assert_eq!(public_key(PRIVATE_KEY)?, PUBLIC_KEY);
    Ok(())
}

#[test]
fn fixed_key_pair_round_trips() -> Result<()> {
    let ciphertext = encrypt(PUBLIC_KEY, b"value")?;
    assert_eq!(decrypt_to_string(PRIVATE_KEY, &ciphertext)?, "value");
    Ok(())
}

#[test]
fn private_key_is_no_public_key() {
    let keys = generate_keypair();
    for text in [keys.private_key.as_str(), PRIVATE_KEY] {
        assert_ne!(public_key(text).unwrap(), text);
        assert!(matches!(encrypt(text, b"value"), Err(Error::InvalidPublicKey(_))));
    }
    // age reads a private key in small letters too.
    assert_eq!(public_key(&PRIVATE_KEY.to_lowercase()).unwrap(), PUBLIC_KEY);
}

#[test]
fn invalid_private_key_is_reported() {
    for text in ["", "no key", PUBLIC_KEY] {
        match public_key(text) {
            Err(Error::InvalidPrivateKey(_)) => {}
            other => panic!("{other:?}"),
        }
        match decrypt(text, "anything") {
            Err(Error::InvalidPrivateKey(_)) => {}
            other => panic!("{other:?}"),
        }
        match decrypt_to_string(text, "anything") {
            Err(Error::InvalidPrivateKey(_)) => {}
            other => panic!("{other:?}"),
        }
    }
}

#[test]
fn key_errors_say_what_is_wrong() {
    let error = public_key("no key").unwrap_err();
    assert_eq!(error.message(), "invalid age private key: invalid Bech32 encoding");
    let error = public_key(PUBLIC_KEY).unwrap_err();
    assert_eq!(error.message(), "invalid age private key: incorrect HRP");
    let error = encrypt("no key", b"value").unwrap_err();
    assert_eq!(error.message(), "invalid age public key: invalid Bech32 encoding");
    let error = encrypt(PRIVATE_KEY, b"value").unwrap_err();
    assert_eq!(error.message(), "invalid age public key: incorrect HRP");
}

#[test]
fn invalid_public_key_is_reported() {
    for text in ["", "no key", PRIVATE_KEY] {
        match encrypt(text, b"value") {
            Err(Error::InvalidPublicKey(_)) => {}
            other => panic!("{other:?}"),
        }
    }
}

#[test]
fn text_that_is_no_payload_does_not_decrypt() {
    for text in ["", "not encrypted", "-----BEGIN AGE ENCRYPTED FILE-----\n"] {
        let error = decrypt(PRIVATE_KEY, text).unwrap_err();
        assert!(matches!(error, Error::Decrypt(_)));
        assert!(error.message().starts_with("age decryption failed: "));
        assert!(error.message().len() > "age decryption failed: ".len());
    }
}

#[test]
fn failed_decryption_says_why() -> Result<()> {
    let reason = |text: &str| match decrypt(PRIVATE_KEY, text) {
        Err(Error::Decrypt(failure)) => failure.reason().clone(),
        other => panic!("{other:?}"),
    };
    let kind = |kind: std::io::ErrorKind| DecryptReason::Io(kind.to_string());
    assert_eq!(reason(""), kind(std::io::ErrorKind::UnexpectedEof));
    let other = generate_keypair();
    assert_eq!(reason(&encrypt(&other.public_key, b"value")?), DecryptReason::NoMatchingKeys);
    let no_header = "this text is as long as a payload but is none of age's\n";
    assert_eq!(reason(no_header), DecryptReason::InvalidHeader);
    let newer = "age-encryption.org/v9\nsomething that only a newer age can read\n";
    assert_eq!(reason(newer), DecryptReason::UnknownFormat);
    let armored = encrypt(PUBLIC_KEY, b"value")?;
    assert_eq!(reason(&format!("{armored}x")), kind(std::io::ErrorKind::InvalidData));
    Ok(())
}

#[test]
fn damaged_payload_does_not_decrypt() -> Result<()> {
    let ciphertext = encrypt(PUBLIC_KEY, b"value")?;
    let damaged = ciphertext[..ciphertext.len() / 2].to_owned();
    assert!(matches!(decrypt(PRIVATE_KEY, &damaged), Err(Error::Decrypt(_))));
    Ok(())
}

#[test]
fn payload_that_is_no_text_is_reported() -> Result<()> {
    let ciphertext = encrypt(PUBLIC_KEY, &[0xff, 0xfe])?;
    assert_eq!(decrypt(PRIVATE_KEY, &ciphertext)?, [0xff, 0xfe]);
    let error = decrypt_to_string(PRIVATE_KEY, &ciphertext).unwrap_err();
    assert!(matches!(error, Error::InvalidUtf8(_)));
    assert_eq!(error.message(), "encrypted age payload is not valid UTF-8");
    Ok(())
}

#[test]
fn bytes_are_read_as_text() {
    assert_eq!(plaintext_to_string("gr\u{fc}n".as_bytes().to_vec()).unwrap(), "gr\u{fc}n");
    assert_eq!(plaintext_to_string(Vec::new()).unwrap(), "");
    assert!(matches!(plaintext_to_string(vec![0x80]), Err(Error::InvalidUtf8(_))));
    assert!(matches!(plaintext_to_string(vec![0xed, 0xa0, 0x80]), Err(Error::InvalidUtf8(_))));
}

#[test]
fn keys_of_low_order_are_refused() {
    let low = [
        WEAK_KEY,
        "age1qqqqqqqqqqqqqqqqqqqqqqqqqqqqqqqqqqqqqqqqqqqqqqqqqzqqsuwj9m",
        "age1qyqqqqqqqqqqqqqqqqqqqqqqqqqqqqqqqqqqqqqqqqqqqqqqqqqqj7vrya",
        "age1qyqqqqqqqqqqqqqqqqqqqqqqqqqqqqqqqqqqqqqqqqqqqqqqqzqqk67yly",
        "age1ur4h5lpmgxu2u9jku0a0r87ydtdqnr0tnsetrlvxvgz3vh6fhqqqzyt4v9",
        "age1ur4h5lpmgxu2u9jku0a0r87ydtdqnr0tnsetrlvxvgz3vh6fhzqqxqejhu",
        "age1t7wft09r2zxzfvwsk92eeql0tvzyghxytqwgapkcyf8dm5ylz9ts6wm9s8",
        "age1t7wft09r2zxzfvwsk92eeql0tvzyghxytqwgapkcyf8dm5ylz8ts72fzt7",
        "age1anlllllllllllllllllllllllllllllllllllllllllllllllals4n2t7m",
        "age1anllllllllllllllllllllllllllllllllllllllllllllllllls3hcv9z",
        "age1ahlllllllllllllllllllllllllllllllllllllllllllllllalsn46ayy",
        "age1ahlllllllllllllllllllllllllllllllllllllllllllllllllsh3g6la",
        "age1amlllllllllllllllllllllllllllllllllllllllllllllllalselrwrv",
        "age1amlllllllllllllllllllllllllllllllllllllllllllllllllsam3fc4",
    ];
    for text in low {
        // age reads each of them as a public key, however it is written.
        assert!(text.parse::<age::x25519::Recipient>().is_ok());
        assert!(low_order(text));
        assert!(refuses(text));
        assert!(refuses(&text.to_uppercase()));
        assert!(try_encrypt(text, b"value").is_none());
    }
}

#[test]
fn ordinary_keys_and_other_texts_are_not_refused() {
    assert!(!low_order(PUBLIC_KEY));
    assert!(!refuses(PUBLIC_KEY));
    assert!(!refuses("no key"));
    let ciphertext = try_encrypt(PUBLIC_KEY, b"value").unwrap().unwrap();
    assert_eq!(decrypt(PRIVATE_KEY, &ciphertext).unwrap(), b"value");
    assert!(matches!(try_encrypt("no key", b"value"), Some(Err(Error::InvalidPublicKey(_)))));
}

#[test]
fn public_key_may_be_written_in_capitals() -> Result<()> {
    let ciphertext = encrypt(&PUBLIC_KEY.to_uppercase(), b"value")?;
    assert_eq!(decrypt(PRIVATE_KEY, &ciphertext)?, b"value");
    Ok(())
}
