//! The calls into the age crate, and what is relied on of them.

use crate::string_map::same_text;
use vstd::prelude::*;
use vstd::string::*;
use vstd::utf8::*;

verus! {

/// age's error for an encryption that failed.
#[verifier::external_type_specification]
#[verifier::external_body]
pub struct ExEncryptError(age::EncryptError);

/// age's error for a decryption that failed.
#[verifier::external_type_specification]
#[verifier::external_body]
pub struct ExDecryptError(age::DecryptError);

/// What age makes of the text of a private key (`age::x25519::Identity`): the text of its
/// public key, or the reason why it is no private key.
pub uninterp spec fn age_identity(private_key: Seq<char>) -> Result<Seq<char>, Seq<char>>;

/// What age makes of the text of a public key (`age::x25519::Recipient`): the same key as
/// age itself writes it, or the reason why it is no public key.
pub uninterp spec fn age_recipient(public_key: Seq<char>) -> Result<Seq<char>, Seq<char>>;

/// Why age recovers nothing from a payload: the variants of `age::DecryptError`, with the kind
/// of an I/O error as the standard library writes it.
#[derive(Clone, Debug, PartialEq, Eq)]
pub enum DecryptReason {
    DecryptionFailed,
    ExcessiveWork,
    InvalidHeader,
    InvalidMac,
    Io(String),
    KeyDecryptionFailed,
    NoMatchingKeys,
    UnknownFormat,
}

/// What a [`DecryptReason`] says.
pub enum DecryptReasonView {
    DecryptionFailed,
    ExcessiveWork,
    InvalidHeader,
    InvalidMac,
    Io(Seq<char>),
    KeyDecryptionFailed,
    NoMatchingKeys,
    UnknownFormat,
}

impl View for DecryptReason {
    type V = DecryptReasonView;

    open spec fn view(&self) -> DecryptReasonView {
        match self {
            DecryptReason::DecryptionFailed => DecryptReasonView::DecryptionFailed,
            DecryptReason::ExcessiveWork => DecryptReasonView::ExcessiveWork,
            DecryptReason::InvalidHeader => DecryptReasonView::InvalidHeader,
            DecryptReason::InvalidMac => DecryptReasonView::InvalidMac,
            DecryptReason::Io(kind) => DecryptReasonView::Io(kind@),
            DecryptReason::KeyDecryptionFailed => DecryptReasonView::KeyDecryptionFailed,
            DecryptReason::NoMatchingKeys => DecryptReasonView::NoMatchingKeys,
            DecryptReason::UnknownFormat => DecryptReasonView::UnknownFormat,
        }
    }
}

/// A decryption that failed: the reason, and age's own error, which has the words for it. The
/// two come together from one call and cannot be put together anew elsewhere.
#[derive(Debug)]
pub struct DecryptFailure {
    reason: DecryptReason,
    error: age::DecryptError,
}

impl View for DecryptFailure {
    type V = DecryptReasonView;

    closed spec fn view(&self) -> DecryptReasonView {
        self.reason@
    }
}

impl DecryptFailure {
    /// `words` are what age's own error displays as.
    pub closed spec fn shows(self, words: Seq<char>) -> bool {
        displays(self.error, words)
    }

    /// Why nothing was recovered.
    pub fn reason(&self) -> (reason: &DecryptReason)
        ensures
            reason@ == self@,
    {
        &self.reason
    }

    /// The failure in age's words.
    pub fn words(&self) -> (words: String)
        ensures
            self.shows(words@),
    {
        let words = self.error.to_string();
        assert(displays(self.error, words@));
        words
    }
}

/// `text` is what age's own error `error` displays as.
pub open spec fn displays<E: std::fmt::Display>(error: E, text: Seq<char>) -> bool {
    exists|shown: String|
        #[trigger] to_string_from_display_ensures::<E>(&error, shown) && shown@ == text
}

/// A failure is told in the words of age's error that came with it, and its reason is the one
/// that came with it.
proof fn failure_is_that_of_the_call(failure: DecryptFailure, words: Seq<char>)
    ensures
        failure@ == failure.reason@,
        failure.shows(words) ==> displays(failure.error, words),
{
}

/// What `age::decrypt` recovers from a payload with a private key, or why it recovers nothing.
pub uninterp spec fn age_decrypt(private_key: Seq<char>, ciphertext: Seq<char>) -> Result<
    Seq<u8>,
    DecryptReasonView,
>;

/// The public keys, as age writes them, whose Diffie-Hellman secret with every other key is
/// all zero: the seven points of low order on the curve and its twist, each with either
/// value of the bit that X25519 ignores.
pub open spec fn is_low_order(text: Seq<char>) -> bool {
    ||| text == "age1qqqqqqqqqqqqqqqqqqqqqqqqqqqqqqqqqqqqqqqqqqqqqqqqqqqq5cu47z"@
    ||| text == "age1qqqqqqqqqqqqqqqqqqqqqqqqqqqqqqqqqqqqqqqqqqqqqqqqqzqqsuwj9m"@
    ||| text == "age1qyqqqqqqqqqqqqqqqqqqqqqqqqqqqqqqqqqqqqqqqqqqqqqqqqqqj7vrya"@
    ||| text == "age1qyqqqqqqqqqqqqqqqqqqqqqqqqqqqqqqqqqqqqqqqqqqqqqqqzqqk67yly"@
    ||| text == "age1ur4h5lpmgxu2u9jku0a0r87ydtdqnr0tnsetrlvxvgz3vh6fhqqqzyt4v9"@
    ||| text == "age1ur4h5lpmgxu2u9jku0a0r87ydtdqnr0tnsetrlvxvgz3vh6fhzqqxqejhu"@
    ||| text == "age1t7wft09r2zxzfvwsk92eeql0tvzyghxytqwgapkcyf8dm5ylz9ts6wm9s8"@
    ||| text == "age1t7wft09r2zxzfvwsk92eeql0tvzyghxytqwgapkcyf8dm5ylz8ts72fzt7"@
    ||| text == "age1anlllllllllllllllllllllllllllllllllllllllllllllllals4n2t7m"@
    ||| text == "age1anllllllllllllllllllllllllllllllllllllllllllllllllls3hcv9z"@
    ||| text == "age1ahlllllllllllllllllllllllllllllllllllllllllllllllalsn46ayy"@
    ||| text == "age1ahlllllllllllllllllllllllllllllllllllllllllllllllllsh3g6la"@
    ||| text == "age1amlllllllllllllllllllllllllllllllllllllllllllllllalselrwrv"@
    ||| text == "age1amlllllllllllllllllllllllllllllllllllllllllllllllllsam3fc4"@
}

/// Whether `text` is one of the public keys of low order.
pub fn low_order(text: &str) -> (low: bool)
    ensures
        low <==> is_low_order(text@),
{
    same_text(text, "age1qqqqqqqqqqqqqqqqqqqqqqqqqqqqqqqqqqqqqqqqqqqqqqqqqqqq5cu47z")
        || same_text(text, "age1qqqqqqqqqqqqqqqqqqqqqqqqqqqqqqqqqqqqqqqqqqqqqqqqqzqqsuwj9m")
        || same_text(text, "age1qyqqqqqqqqqqqqqqqqqqqqqqqqqqqqqqqqqqqqqqqqqqqqqqqqqqj7vrya")
        || same_text(text, "age1qyqqqqqqqqqqqqqqqqqqqqqqqqqqqqqqqqqqqqqqqqqqqqqqqzqqk67yly")
        || same_text(text, "age1ur4h5lpmgxu2u9jku0a0r87ydtdqnr0tnsetrlvxvgz3vh6fhqqqzyt4v9")
        || same_text(text, "age1ur4h5lpmgxu2u9jku0a0r87ydtdqnr0tnsetrlvxvgz3vh6fhzqqxqejhu")
        || same_text(text, "age1t7wft09r2zxzfvwsk92eeql0tvzyghxytqwgapkcyf8dm5ylz9ts6wm9s8")
        || same_text(text, "age1t7wft09r2zxzfvwsk92eeql0tvzyghxytqwgapkcyf8dm5ylz8ts72fzt7")
        || same_text(text, "age1anlllllllllllllllllllllllllllllllllllllllllllllllals4n2t7m")
        || same_text(text, "age1anllllllllllllllllllllllllllllllllllllllllllllllllls3hcv9z")
        || same_text(text, "age1ahlllllllllllllllllllllllllllllllllllllllllllllllalsn46ayy")
        || same_text(text, "age1ahlllllllllllllllllllllllllllllllllllllllllllllllllsh3g6la")
        || same_text(text, "age1amlllllllllllllllllllllllllllllllllllllllllllllllalselrwrv")
        || same_text(text, "age1amlllllllllllllllllllllllllllllllllllllllllllllllllsam3fc4")
}

/// Whether `public_key` is a public key to which age refuses to encrypt.
pub open spec fn is_weak_recipient(public_key: Seq<char>) -> bool {
    age_recipient(public_key) matches Ok(text) && is_low_order(text)
}

/// `public_key` is the public key of `private_key`, as age writes it.
pub open spec fn is_key_pair(private_key: Seq<char>, public_key: Seq<char>) -> bool {
    age_identity(private_key) matches Ok(text) && text == public_key
}

/// `public_key` is a public key as age writes it, and one to which age encrypts.
pub open spec fn is_sound_recipient(public_key: Seq<char>) -> bool {
    &&& age_recipient(public_key) matches Ok(text) && text == public_key
    &&& "age1"@.is_prefix_of(public_key)
    &&& !is_low_order(public_key)
}

/// The text is no public key.
pub open spec fn is_no_recipient(text: Seq<char>) -> bool {
    age_recipient(text) is Err
}

/// `text` is the armor that age puts around a payload: a first line, the payload in ASCII and
/// a last line, all with the line ends of the platform.
pub open spec fn is_armored_with(text: Seq<char>, payload: Seq<char>, line_end: Seq<char>) -> bool {
    &&& line_end == "\n"@ || line_end == "\r\n"@
    &&& text == "-----BEGIN AGE ENCRYPTED FILE-----"@ + line_end + payload + line_end
        + "-----END AGE ENCRYPTED FILE-----"@ + line_end
}

/// `text` is ASCII and stands between age's two armor lines.
pub open spec fn is_armored(text: Seq<char>) -> bool {
    &&& is_ascii_chars(text)
    &&& exists|payload: Seq<char>, line_end: Seq<char>| #[trigger]
        is_armored_with(text, payload, line_end)
}

/// `ciphertext` gives back `plaintext` to every private key that belongs to the public key
/// which age writes as `recipient`.
pub open spec fn opens_for(
    recipient: Seq<char>,
    ciphertext: Seq<char>,
    plaintext: Seq<u8>,
) -> bool {
    forall|private_key: Seq<char>|
        is_key_pair(private_key, recipient)
            ==> #[trigger] age_decrypt(private_key, ciphertext) == Ok::<
            Seq<u8>,
            DecryptReasonView,
        >(plaintext)
}

/// A fresh pair of key texts from `age::x25519::Identity::generate`: the private key as
/// `Identity::to_string` writes it and the public key of `Identity::to_public`. The pair is
/// random; what holds of every one is how the two texts begin, that age reads the public key
/// back from the private one, that a public key with a private key is not of low order, and
/// that the private text, whose human-readable part is another, is no public key.
#[verifier::external_body]
pub(crate) fn generate_identity() -> (keys: (String, String))
    ensures
        is_key_pair(keys.0@, keys.1@),
        is_sound_recipient(keys.1@),
        is_no_recipient(keys.0@),
        "AGE-SECRET-KEY-1"@.is_prefix_of(keys.0@),
{
    let identity = age::x25519::Identity::generate();
    let private_key = age::secrecy::ExposeSecret::expose_secret(&identity.to_string()).to_owned();
    (private_key, identity.to_public().to_string())
}

/// Parses a private key with `age::x25519::Identity::from_str` and writes the public key of
/// `Identity::to_public`. The outcome depends on the text alone. A public key that age wrote
/// reads back as itself, and one with a private key is not of low order. A private key is no
/// public key: age tells the two apart by their human-readable parts.
#[verifier::external_body]
pub(crate) fn read_identity(private_key: &str) -> (public_key: Result<String, String>)
    ensures
        match age_identity(private_key@) {
            Ok(text) => public_key matches Ok(p) && p@ == text,
            Err(reason) => public_key matches Err(e) && e@ == reason,
        },
        public_key matches Ok(p) ==> is_sound_recipient(p@),
        public_key is Ok ==> is_no_recipient(private_key@),
{
    match private_key.parse::<age::x25519::Identity>() {
        Ok(identity) => Ok(identity.to_public().to_string()),
        Err(error) => Err(error.to_string()),
    }
}

/// Parses a public key with `age::x25519::Recipient::from_str` and writes it as age does.
/// The outcome depends on the text alone.
#[verifier::external_body]
pub(crate) fn read_recipient(public_key: &str) -> (written: Result<String, String>)
    ensures
        match age_recipient(public_key@) {
            Ok(text) => written matches Ok(t) && t@ == text,
            Err(reason) => written matches Err(e) && e@ == reason,
        },
{
    match public_key.parse::<age::x25519::Recipient>() {
        Ok(recipient) => Ok(recipient.to_string()),
        Err(error) => Err(error.to_string()),
    }
}

/// Encrypts with `age::encrypt_and_armor` to one X25519 recipient. The text is random; it
/// writes to memory and such a recipient wraps every file key, so there is always one. It is
/// ASCII between age's two armor lines, and `age::decrypt` gives the plaintext back to the
/// recipient's private keys. age panics on a
/// recipient of low order. That no other private key opens the text is left unsaid: another
/// key fails only with overwhelming probability.
#[verifier::external_body]
pub(crate) fn encrypt_to(public_key: &str, plaintext: &[u8]) -> (ciphertext: Result<
    String,
    age::EncryptError,
>)
    requires
        age_recipient(public_key@) is Ok,
        !is_weak_recipient(public_key@),
    ensures
        ciphertext is Ok,
        ciphertext matches Ok(c) ==> opens_for(age_recipient(public_key@)->Ok_0, c@, plaintext@),
        ciphertext matches Ok(c) ==> is_armored(c@),
{
    let recipient: age::x25519::Recipient = public_key.parse().expect("a public key");
    age::encrypt_and_armor(&recipient, plaintext)
}

/// Decrypts with `age::decrypt` and the private key that `Identity::from_str` reads. Whether
/// it succeeds, what it gives and the reason why it fails depend on the two texts alone: the
/// variant of age's error and, of an I/O error, the kind. An X25519 key is never asked for
/// work, so the numbers of that variant, which rest on the machine, are not taken over. The
/// words of age's error depend on the language it was told to speak and are left unsaid.
#[verifier::external_body]
pub(crate) fn decrypt_with(private_key: &str, ciphertext: &str) -> (plaintext: Result<
    Vec<u8>,
    DecryptFailure,
>)
    requires
        age_identity(private_key@) is Ok,
    ensures
        match age_decrypt(private_key@, ciphertext@) {
            Ok(bytes) => plaintext matches Ok(p) && p@ == bytes,
            Err(reason) => plaintext matches Err(e) && e@ == reason,
        },
{
    let identity: age::x25519::Identity = private_key.parse().expect("a private key");
    age::decrypt(&identity, ciphertext.as_bytes()).map_err(|error| {
        let reason = match &error {
            age::DecryptError::DecryptionFailed => DecryptReason::DecryptionFailed,
            age::DecryptError::ExcessiveWork { .. } => DecryptReason::ExcessiveWork,
            age::DecryptError::InvalidHeader => DecryptReason::InvalidHeader,
            age::DecryptError::InvalidMac => DecryptReason::InvalidMac,
            age::DecryptError::Io(inner) => DecryptReason::Io(inner.kind().to_string()),
            age::DecryptError::KeyDecryptionFailed => DecryptReason::KeyDecryptionFailed,
            age::DecryptError::NoMatchingKeys => DecryptReason::NoMatchingKeys,
            age::DecryptError::UnknownFormat => DecryptReason::UnknownFormat,
        };
        DecryptFailure { reason, error }
    })
}

} // verus!
