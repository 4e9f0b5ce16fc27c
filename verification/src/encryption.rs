//! Encryption of single values with age X25519 keys.

use crate::age_keys::{self, DecryptFailure, DecryptReasonView};
use vstd::prelude::*;
use vstd::string::*;
use vstd::utf8::*;

verus! {

/// The standard library's error for bytes that are not UTF-8.
#[verifier::external_type_specification]
#[verifier::external_body]
pub struct ExFromUtf8Error(std::string::FromUtf8Error);

/// `String::from_utf8` of the standard library: it succeeds on UTF-8, with the text whose
/// encoding the bytes are.
pub assume_specification[ String::from_utf8 ](vec: Vec<u8>) -> (text: std::result::Result<
    String,
    std::string::FromUtf8Error,
>)
    ensures
        text is Ok <==> valid_utf8(vec@),
        text matches Ok(t) ==> t@ == decode_utf8(vec@),
;

/// Errors of the age encryption helpers.
#[derive(Debug)]
pub enum Error {
    InvalidPublicKey(String),
    InvalidPrivateKey(String),
    Encrypt(age::EncryptError),
    Decrypt(DecryptFailure),
    InvalidUtf8(std::string::FromUtf8Error),
}

pub type Result<T> = std::result::Result<T, Error>;

/// What an [`Error`] says: its kind, with the reason where the texts alone decide it.
pub enum Failure {
    InvalidPublicKey(Seq<char>),
    InvalidPrivateKey(Seq<char>),
    Encrypt,
    Decrypt(DecryptReasonView),
    InvalidUtf8,
}

impl View for Error {
    type V = Failure;

    open spec fn view(&self) -> Failure {
        match self {
            Error::InvalidPublicKey(reason) => Failure::InvalidPublicKey(reason@),
            Error::InvalidPrivateKey(reason) => Failure::InvalidPrivateKey(reason@),
            Error::Encrypt(_) => Failure::Encrypt,
            Error::Decrypt(failure) => Failure::Decrypt(failure@),
            Error::InvalidUtf8(_) => Failure::InvalidUtf8,
        }
    }
}

impl Error {
    /// `text` says in words what went wrong. Where age gives the reason, its words depend on
    /// the language it was told to speak.
    pub open spec fn describes(self, text: Seq<char>) -> bool {
        match self {
            Error::InvalidPublicKey(reason) => text == "invalid age public key: "@ + reason@,
            Error::InvalidPrivateKey(reason) => text == "invalid age private key: "@ + reason@,
            Error::Encrypt(error) => exists|words: Seq<char>| #[trigger]
                age_keys::displays(error, words) && text == "age encryption failed: "@ + words,
            Error::Decrypt(failure) => exists|words: Seq<char>| #[trigger]
                failure.shows(words) && text == "age decryption failed: "@ + words,
            Error::InvalidUtf8(_) => text == "encrypted age payload is not valid UTF-8"@,
        }
    }

    /// The error in words.
    pub fn message(&self) -> (text: String)
        ensures
            self.describes(text@),
    {
        match self {
            Error::InvalidPublicKey(reason) => "invalid age public key: ".to_owned().concat(
                reason.as_str(),
            ),
            Error::InvalidPrivateKey(reason) => "invalid age private key: ".to_owned().concat(
                reason.as_str(),
            ),
            Error::Encrypt(error) => {
                let words = error.to_string();
                assert(age_keys::displays(*error, words@));
                "age encryption failed: ".to_owned().concat(words.as_str())
            },
            Error::Decrypt(failure) => {
                let words = failure.words();
                "age decryption failed: ".to_owned().concat(words.as_str())
            },
            Error::InvalidUtf8(_) => "encrypted age payload is not valid UTF-8".to_owned(),
        }
    }
}

/// An age X25519 key pair in the text format of age.
#[derive(Clone, Debug, PartialEq, Eq)]
pub struct KeyPair {
    pub private_key: String,
    pub public_key: String,
}

impl KeyPair {
    /// The public key is that of the private key, and age encrypts to it; the private key is
    /// not itself a public key.
    pub open spec fn belongs_together(self) -> bool {
        &&& age_keys::is_key_pair(self.private_key@, self.public_key@)
        &&& age_keys::is_sound_recipient(self.public_key@)
        &&& age_keys::is_no_recipient(self.private_key@)
    }

    /// The two keys belong together, and are written as age writes them.
    pub open spec fn is_valid(self) -> bool {
        &&& self.belongs_together()
        &&& "AGE-SECRET-KEY-1"@.is_prefix_of(self.private_key@)
        &&& "age1"@.is_prefix_of(self.public_key@)
    }
}

/// A new age X25519 key pair.
pub fn generate_keypair() -> (keys: KeyPair)
    ensures
        keys.is_valid(),
{
    let (private_key, public_key) = age_keys::generate_identity();
    KeyPair { private_key, public_key }
}

/// What [`public_key`] comes to: an error for a text that is no private key, else its public
/// key, which is another text.
pub open spec fn derives(private_key: Seq<char>, outcome: Result<String>) -> bool {
    match age_keys::age_identity(private_key) {
        Ok(text) => outcome matches Ok(p) && {
            &&& p@ == text
            &&& p@ != private_key
            &&& age_keys::is_sound_recipient(p@)
            &&& age_keys::is_no_recipient(private_key)
        },
        Err(reason) => outcome matches Err(e) && e@ == Failure::InvalidPrivateKey(reason),
    }
}

/// The public age key of a private age key.
pub fn public_key(private_key: &str) -> (public_key: Result<String>)
    ensures
        derives(private_key@, public_key),
{
    match age_keys::read_identity(private_key) {
        Ok(public_key) => Ok(public_key),
        Err(reason) => Err(Error::InvalidPrivateKey(reason)),
    }
}

/// What [`encrypt`] makes of `plaintext`: an error for a text that is no public key, else an
/// armored payload that opens for that key.
pub open spec fn encrypts(
    public_key: Seq<char>,
    plaintext: Seq<u8>,
    outcome: Result<String>,
) -> bool {
    match age_keys::age_recipient(public_key) {
        Ok(recipient) => outcome matches Ok(c) && age_keys::is_armored(c@) && age_keys::opens_for(
            recipient,
            c@,
            plaintext,
        ),
        Err(reason) => outcome matches Err(e) && e@ == Failure::InvalidPublicKey(reason),
    }
}

/// Encrypts `plaintext` to an age X25519 public key, as ASCII-armored text.
pub fn encrypt(public_key: &str, plaintext: &[u8]) -> (ciphertext: Result<String>)
    requires
        !age_keys::is_weak_recipient(public_key@),
    ensures
        encrypts(public_key@, plaintext@, ciphertext),
{
    match age_keys::read_recipient(public_key) {
        Ok(_) => match age_keys::encrypt_to(public_key, plaintext) {
            Ok(ciphertext) => Ok(ciphertext),
            Err(error) => Err(Error::Encrypt(error)),
        },
        Err(reason) => Err(Error::InvalidPublicKey(reason)),
    }
}

/// Whether age refuses to encrypt to `public_key`: it is a public key of low order, with
/// which no secret can be agreed on.
pub fn refuses(public_key: &str) -> (weak: bool)
    ensures
        weak <==> age_keys::is_weak_recipient(public_key@),
{
    match age_keys::read_recipient(public_key) {
        Ok(text) => age_keys::low_order(text.as_str()),
        Err(_) => false,
    }
}

/// Encrypts as [`encrypt`] does, or gives nothing for a public key that age refuses.
pub fn try_encrypt(public_key: &str, plaintext: &[u8]) -> (ciphertext: Option<Result<String>>)
    ensures
        ciphertext is None <==> age_keys::is_weak_recipient(public_key@),
        ciphertext matches Some(outcome) ==> encrypts(public_key@, plaintext@, outcome),
{
    if refuses(public_key) {
        None
    } else {
        Some(encrypt(public_key, plaintext))
    }
}

/// What [`decrypt`] comes to: an error for a text that is no private key, else what age
/// recovers, or an error with the reason why it recovers nothing.
pub open spec fn decrypted(private_key: Seq<char>, ciphertext: Seq<char>) -> std::result::Result<
    Seq<u8>,
    Failure,
> {
    match age_keys::age_identity(private_key) {
        Ok(_) => match age_keys::age_decrypt(private_key, ciphertext) {
            Ok(plaintext) => Ok(plaintext),
            Err(reason) => Err(Failure::Decrypt(reason)),
        },
        Err(reason) => Err(Failure::InvalidPrivateKey(reason)),
    }
}

/// Decrypts an age payload with an age X25519 private key.
pub fn decrypt(private_key: &str, ciphertext: &str) -> (plaintext: Result<Vec<u8>>)
    ensures
        match decrypted(private_key@, ciphertext@) {
            Ok(bytes) => plaintext matches Ok(p) && p@ == bytes,
            Err(failure) => plaintext matches Err(e) && e@ == failure,
        },
{
    match age_keys::read_identity(private_key) {
        Ok(_) => match age_keys::decrypt_with(private_key, ciphertext) {
            Ok(plaintext) => Ok(plaintext),
            Err(failure) => Err(Error::Decrypt(failure)),
        },
        Err(reason) => Err(Error::InvalidPrivateKey(reason)),
    }
}

/// The text that `bytes` encode.
pub open spec fn read_as_text(bytes: Seq<u8>) -> std::result::Result<Seq<char>, Failure> {
    if valid_utf8(bytes) {
        Ok(decode_utf8(bytes))
    } else {
        Err(Failure::InvalidUtf8)
    }
}

/// Reads decrypted bytes as UTF-8 text.
pub fn plaintext_to_string(plaintext: Vec<u8>) -> (text: Result<String>)
    ensures
        match read_as_text(plaintext@) {
            Ok(chars) => text matches Ok(t) && t@ == chars,
            Err(failure) => text matches Err(e) && e@ == failure,
        },
{
    match String::from_utf8(plaintext) {
        Ok(text) => Ok(text),
        Err(error) => Err(Error::InvalidUtf8(error)),
    }
}

/// What [`decrypt_to_string`] comes to: what is decrypted, as text.
pub open spec fn decrypted_text(
    private_key: Seq<char>,
    ciphertext: Seq<char>,
) -> std::result::Result<Seq<char>, Failure> {
    match decrypted(private_key, ciphertext) {
        Ok(bytes) => read_as_text(bytes),
        Err(failure) => Err(failure),
    }
}

/// Decrypts an age payload as UTF-8 text.
pub fn decrypt_to_string(private_key: &str, ciphertext: &str) -> (text: Result<String>)
    ensures
        match decrypted_text(private_key@, ciphertext@) {
            Ok(chars) => text matches Ok(t) && t@ == chars,
            Err(failure) => text matches Err(e) && e@ == failure,
        },
{
    match decrypt(private_key, ciphertext) {
        Ok(plaintext) => plaintext_to_string(plaintext),
        Err(error) => Err(error),
    }
}

/// From the private key of a key pair its public key is derived, and no other.
pub proof fn public_key_of_a_pair_is_derived(keys: KeyPair, outcome: Result<String>)
    requires
        keys.belongs_together(),
        derives(keys.private_key@, outcome),
    ensures
        outcome matches Ok(text) && text@ == keys.public_key@,
{
}

/// What is encrypted to a public key, however it is written, decrypts to the same bytes with
/// every private key of it.
pub proof fn recipient_decrypts(
    private_key: Seq<char>,
    public_key: Seq<char>,
    plaintext: Seq<u8>,
    outcome: Result<String>,
)
    requires
        age_keys::age_recipient(public_key) is Ok,
        age_keys::age_identity(private_key) == age_keys::age_recipient(public_key),
        encrypts(public_key, plaintext, outcome),
    ensures
        outcome matches Ok(ciphertext) && decrypted(private_key, ciphertext@) == Ok::<
            Seq<u8>,
            Failure,
        >(plaintext),
{
}

/// With a private key that age can read, decryption fails only as a decryption, for age's
/// reason.
pub proof fn readable_key_fails_only_by_decryption(private_key: Seq<char>, ciphertext: Seq<char>)
    requires
        age_keys::age_identity(private_key) is Ok,
        decrypted(private_key, ciphertext) is Err,
    ensures
        age_keys::age_decrypt(private_key, ciphertext) matches Err(reason) && decrypted(
            private_key,
            ciphertext,
        ) == Err::<Seq<u8>, Failure>(Failure::Decrypt(reason)),
{
}

/// What is encrypted to the public key of a key pair decrypts, with its private key, to the
/// same bytes.
pub proof fn round_trip_preserves_bytes(
    keys: KeyPair,
    plaintext: Seq<u8>,
    outcome: Result<String>,
)
    requires
        keys.belongs_together(),
        encrypts(keys.public_key@, plaintext, outcome),
    ensures
        outcome matches Ok(ciphertext) && decrypted(keys.private_key@, ciphertext@) == Ok::<
            Seq<u8>,
            Failure,
        >(plaintext),
{
}

/// Text that is encrypted to the public key of a key pair decrypts, with its private key, to
/// the same text.
pub proof fn round_trip_preserves_text(keys: KeyPair, text: Seq<char>, outcome: Result<String>)
    requires
        keys.belongs_together(),
        encrypts(keys.public_key@, encode_utf8(text), outcome),
    ensures
        outcome matches Ok(ciphertext) && decrypted(
            keys.private_key@,
            ciphertext@,
        ) matches Ok(bytes) && read_as_text(bytes) == Ok::<Seq<char>, Failure>(text),
{
    round_trip_preserves_bytes(keys, encode_utf8(text), outcome);
    encode_utf8_valid_utf8(text);
    encode_utf8_decode_utf8(text);
}

/// What is encrypted begins with age's first armor line and ends with its last.
pub proof fn ciphertext_is_armored(
    public_key: Seq<char>,
    plaintext: Seq<u8>,
    ciphertext: String,
)
    requires
        encrypts(public_key, plaintext, Ok(ciphertext)),
    ensures
        is_ascii_chars(ciphertext@),
        ("-----BEGIN AGE ENCRYPTED FILE-----"@ + "\n"@).is_prefix_of(ciphertext@) || (
        "-----BEGIN AGE ENCRYPTED FILE-----"@ + "\r\n"@).is_prefix_of(ciphertext@),
        ("\n"@ + "-----END AGE ENCRYPTED FILE-----"@ + "\n"@).is_suffix_of(ciphertext@) || (
        "\n"@ + "-----END AGE ENCRYPTED FILE-----"@ + "\r\n"@).is_suffix_of(ciphertext@),
{
    let text = ciphertext@;
    let begin = "-----BEGIN AGE ENCRYPTED FILE-----"@;
    let end = "-----END AGE ENCRYPTED FILE-----"@;
    let (payload, line_end) = choose|payload: Seq<char>, line_end: Seq<char>| #[trigger]
        age_keys::is_armored_with(text, payload, line_end);
    reveal_strlit("\n");
    reveal_strlit("\r\n");
    assert((begin + line_end) =~= text.take((begin + line_end).len() as int));
    let last = "\n"@ + end + line_end;
    assert(last =~= text.skip(text.len() - last.len()));
}

} // verus!
