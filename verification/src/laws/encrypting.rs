//! What holds of the encryption of single values.

use crate::age_keys;
use crate::encryption::{self, Failure, KeyPair};
use vstd::prelude::*;
use vstd::utf8::*;

verus! {

/// Encryption fails exactly on texts that are no public keys, with age's reason.
pub proof fn encryption_fails_on_bad_keys_only(
    public_key: Seq<char>,
    plaintext: Seq<u8>,
    outcome: encryption::Result<String>,
)
    requires
        encryption::encrypts(public_key, plaintext, outcome),
    ensures
        outcome is Ok <==> age_keys::age_recipient(public_key) is Ok,
        age_keys::age_recipient(public_key) matches Err(reason) ==> (outcome matches Err(e) && e@
            == Failure::InvalidPublicKey(reason)),
{
}

/// Decryption gives what age recovers, and nothing else.
pub proof fn decryption_gives_what_age_recovers(
    private_key: Seq<char>,
    ciphertext: Seq<char>,
    bytes: Seq<u8>,
)
    ensures
        (encryption::decrypted(private_key, ciphertext) matches Ok(b) && b == bytes) <==> (
        age_keys::age_identity(private_key) is Ok && (age_keys::age_decrypt(
            private_key,
            ciphertext,
        ) matches Ok(b) && b == bytes)),
        age_keys::age_identity(private_key) matches Err(reason) ==> (encryption::decrypted(
            private_key,
            ciphertext,
        ) matches Err(e) && e == Failure::InvalidPrivateKey(reason)),
        age_keys::age_identity(private_key) is Ok ==> (age_keys::age_decrypt(
            private_key,
            ciphertext,
        ) matches Err(reason) ==> (encryption::decrypted(private_key, ciphertext) matches Err(e)
            && e == Failure::Decrypt(reason))),
{
}

/// Bytes are read as the text that they encode, and as none where they encode none.
pub proof fn text_is_what_the_bytes_encode(text: Seq<char>, bytes: Seq<u8>)
    ensures
        encryption::read_as_text(encode_utf8(text)) matches Ok(t) && t == text,
        valid_utf8(bytes) ==> (encryption::read_as_text(bytes) matches Ok(t) && encode_utf8(t)
            == bytes),
        !valid_utf8(bytes) ==> (encryption::read_as_text(bytes) matches Err(e) && e
            == Failure::InvalidUtf8),
{
    encode_utf8_valid_utf8(text);
    encode_utf8_decode_utf8(text);
    if valid_utf8(bytes) {
        decode_utf8_encode_utf8(bytes);
    }
}

/// Decryption to text gives the text whose bytes were encrypted; bytes that are no text, and
/// what does not decrypt, fail for their own reason.
pub proof fn decrypted_text_is_what_was_encrypted(
    private_key: Seq<char>,
    ciphertext: Seq<char>,
    text: Seq<char>,
)
    ensures
        encryption::decrypted(private_key, ciphertext) == Ok::<Seq<u8>, Failure>(encode_utf8(text))
            ==> (encryption::decrypted_text(private_key, ciphertext) matches Ok(t) && t == text),
        encryption::decrypted(private_key, ciphertext) matches Ok(bytes) ==> (!valid_utf8(bytes)
            ==> (encryption::decrypted_text(private_key, ciphertext) matches Err(e) && e
            == Failure::InvalidUtf8)),
        encryption::decrypted(private_key, ciphertext) matches Err(failure) ==> (
        encryption::decrypted_text(private_key, ciphertext) matches Err(e) && e == failure),
{
    text_is_what_the_bytes_encode(text, encode_utf8(text));
}

/// A public key is refused only where age writes it as one of the known keys of low order;
/// those are refused.
pub proof fn only_keys_of_low_order_are_refused(public_key: Seq<char>, text: Seq<char>)
    requires
        age_keys::age_recipient(public_key) == Ok::<Seq<char>, Seq<char>>(text),
    ensures
        age_keys::is_weak_recipient(public_key) <==> seq![
            "age1qqqqqqqqqqqqqqqqqqqqqqqqqqqqqqqqqqqqqqqqqqqqqqqqqqqq5cu47z"@,
            "age1qqqqqqqqqqqqqqqqqqqqqqqqqqqqqqqqqqqqqqqqqqqqqqqqqzqqsuwj9m"@,
            "age1qyqqqqqqqqqqqqqqqqqqqqqqqqqqqqqqqqqqqqqqqqqqqqqqqqqqj7vrya"@,
            "age1qyqqqqqqqqqqqqqqqqqqqqqqqqqqqqqqqqqqqqqqqqqqqqqqqzqqk67yly"@,
            "age1ur4h5lpmgxu2u9jku0a0r87ydtdqnr0tnsetrlvxvgz3vh6fhqqqzyt4v9"@,
            "age1ur4h5lpmgxu2u9jku0a0r87ydtdqnr0tnsetrlvxvgz3vh6fhzqqxqejhu"@,
            "age1t7wft09r2zxzfvwsk92eeql0tvzyghxytqwgapkcyf8dm5ylz9ts6wm9s8"@,
            "age1t7wft09r2zxzfvwsk92eeql0tvzyghxytqwgapkcyf8dm5ylz8ts72fzt7"@,
            "age1anlllllllllllllllllllllllllllllllllllllllllllllllals4n2t7m"@,
            "age1anllllllllllllllllllllllllllllllllllllllllllllllllls3hcv9z"@,
            "age1ahlllllllllllllllllllllllllllllllllllllllllllllllalsn46ayy"@,
            "age1ahlllllllllllllllllllllllllllllllllllllllllllllllllsh3g6la"@,
            "age1amlllllllllllllllllllllllllllllllllllllllllllllllalselrwrv"@,
            "age1amlllllllllllllllllllllllllllllllllllllllllllllllllsam3fc4"@,
        ].contains(text),
{
    let low = seq![
        "age1qqqqqqqqqqqqqqqqqqqqqqqqqqqqqqqqqqqqqqqqqqqqqqqqqqqq5cu47z"@,
        "age1qqqqqqqqqqqqqqqqqqqqqqqqqqqqqqqqqqqqqqqqqqqqqqqqqzqqsuwj9m"@,
        "age1qyqqqqqqqqqqqqqqqqqqqqqqqqqqqqqqqqqqqqqqqqqqqqqqqqqqj7vrya"@,
        "age1qyqqqqqqqqqqqqqqqqqqqqqqqqqqqqqqqqqqqqqqqqqqqqqqqzqqk67yly"@,
        "age1ur4h5lpmgxu2u9jku0a0r87ydtdqnr0tnsetrlvxvgz3vh6fhqqqzyt4v9"@,
        "age1ur4h5lpmgxu2u9jku0a0r87ydtdqnr0tnsetrlvxvgz3vh6fhzqqxqejhu"@,
        "age1t7wft09r2zxzfvwsk92eeql0tvzyghxytqwgapkcyf8dm5ylz9ts6wm9s8"@,
        "age1t7wft09r2zxzfvwsk92eeql0tvzyghxytqwgapkcyf8dm5ylz8ts72fzt7"@,
        "age1anlllllllllllllllllllllllllllllllllllllllllllllllals4n2t7m"@,
        "age1anllllllllllllllllllllllllllllllllllllllllllllllllls3hcv9z"@,
        "age1ahlllllllllllllllllllllllllllllllllllllllllllllllalsn46ayy"@,
        "age1ahlllllllllllllllllllllllllllllllllllllllllllllllllsh3g6la"@,
        "age1amlllllllllllllllllllllllllllllllllllllllllllllllalselrwrv"@,
        "age1amlllllllllllllllllllllllllllllllllllllllllllllllllsam3fc4"@,
    ];
    assert(low[0] == "age1qqqqqqqqqqqqqqqqqqqqqqqqqqqqqqqqqqqqqqqqqqqqqqqqqqqq5cu47z"@);
    assert(low[1] == "age1qqqqqqqqqqqqqqqqqqqqqqqqqqqqqqqqqqqqqqqqqqqqqqqqqzqqsuwj9m"@);
    assert(low[2] == "age1qyqqqqqqqqqqqqqqqqqqqqqqqqqqqqqqqqqqqqqqqqqqqqqqqqqqj7vrya"@);
    assert(low[3] == "age1qyqqqqqqqqqqqqqqqqqqqqqqqqqqqqqqqqqqqqqqqqqqqqqqqzqqk67yly"@);
    assert(low[4] == "age1ur4h5lpmgxu2u9jku0a0r87ydtdqnr0tnsetrlvxvgz3vh6fhqqqzyt4v9"@);
    assert(low[5] == "age1ur4h5lpmgxu2u9jku0a0r87ydtdqnr0tnsetrlvxvgz3vh6fhzqqxqejhu"@);
    assert(low[6] == "age1t7wft09r2zxzfvwsk92eeql0tvzyghxytqwgapkcyf8dm5ylz9ts6wm9s8"@);
    assert(low[7] == "age1t7wft09r2zxzfvwsk92eeql0tvzyghxytqwgapkcyf8dm5ylz8ts72fzt7"@);
    assert(low[8] == "age1anlllllllllllllllllllllllllllllllllllllllllllllllals4n2t7m"@);
    assert(low[9] == "age1anllllllllllllllllllllllllllllllllllllllllllllllllls3hcv9z"@);
    assert(low[10] == "age1ahlllllllllllllllllllllllllllllllllllllllllllllllalsn46ayy"@);
    assert(low[11] == "age1ahlllllllllllllllllllllllllllllllllllllllllllllllllsh3g6la"@);
    assert(low[12] == "age1amlllllllllllllllllllllllllllllllllllllllllllllllalselrwrv"@);
    assert(low[13] == "age1amlllllllllllllllllllllllllllllllllllllllllllllllllsam3fc4"@);
}

/// What is no public key is not refused as one of low order, but as no key.
pub proof fn bad_key_is_not_of_low_order(public_key: Seq<char>)
    requires
        age_keys::age_recipient(public_key) is Err,
    ensures
        !age_keys::is_weak_recipient(public_key),
{
}

/// From a private key age's public key of it is derived, which is another text; what is no
/// private key is refused with age's reason.
pub proof fn public_key_is_the_one_of_age(
    private_key: Seq<char>,
    outcome: encryption::Result<String>,
)
    requires
        encryption::derives(private_key, outcome),
    ensures
        age_keys::age_identity(private_key) matches Ok(text) ==> (outcome matches Ok(p) && p@
            == text && p@ != private_key && "age1"@.is_prefix_of(p@)),
        age_keys::age_identity(private_key) matches Err(reason) ==> (outcome matches Err(e) && e@
            == Failure::InvalidPrivateKey(reason)),
{
}

/// A valid key pair is one of age's: the public key is the one of the private key, and each
/// begins as such keys do.
pub proof fn valid_pair_is_one_of_age(keys: KeyPair)
    requires
        keys.is_valid(),
    ensures
        age_keys::age_identity(keys.private_key@) == Ok::<Seq<char>, Seq<char>>(keys.public_key@),
        age_keys::age_recipient(keys.public_key@) == Ok::<Seq<char>, Seq<char>>(keys.public_key@),
        age_keys::age_recipient(keys.private_key@) is Err,
        !age_keys::is_weak_recipient(keys.public_key@),
        "AGE-SECRET-KEY-1"@.is_prefix_of(keys.private_key@),
        "age1"@.is_prefix_of(keys.public_key@),
{
}

} // verus!
