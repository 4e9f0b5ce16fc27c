//! What holds of the words in which errors are told.

use crate::age_keys;
use crate::cli;
use crate::controller;
use crate::encryption;
use vstd::prelude::*;
use vstd::string::*;

verus! {

/// Words that an error of age displays as are what its `to_string` gives.
pub proof fn words_are_the_displayed<E: std::fmt::Display>(error: E, words: Seq<char>)
    requires
        age_keys::displays(error, words),
    ensures
        exists|shown: String| #[trigger]
            to_string_from_display_ensures::<E>(&error, shown) && shown@ == words,
{
}

/// An error of encryption is told by its kind and its reason.
pub proof fn encryption_error_is_told(error: encryption::Error, text: Seq<char>)
    requires
        error.describes(text),
    ensures
        error matches encryption::Error::InvalidPublicKey(reason) ==> text
            == "invalid age public key: "@ + reason@,
        error matches encryption::Error::InvalidPrivateKey(reason) ==> text
            == "invalid age private key: "@ + reason@,
        error matches encryption::Error::Encrypt(inner) ==> exists|words: Seq<char>| #[trigger]
            age_keys::displays(inner, words) && text == "age encryption failed: "@ + words,
        error matches encryption::Error::Decrypt(failure) ==> exists|words: Seq<char>| #[trigger]
            failure.shows(words) && text == "age decryption failed: "@ + words,
        error is InvalidUtf8 ==> text == "encrypted age payload is not valid UTF-8"@,
{
}

/// An error of the controller is told by its kind and by what it holds.
pub proof fn controller_error_is_told(error: controller::Error, text: Seq<char>)
    requires
        error.describes(text),
    ensures
        error matches controller::Error::Kubernetes(inner) ==> text == "Kubernetes API error: "@
            + inner.message@,
        error matches controller::Error::Encryption(inner) ==> exists|words: Seq<char>| #[trigger]
            inner.describes(words) && text == "age encryption error: "@ + words,
        error matches controller::Error::Configuration(words) ==> text == words@,
        error is MissingNamespace ==> text == "sealed secret has no namespace"@,
{
}

/// An error of the command line tool is told by its kind and by what it holds.
pub proof fn cli_error_is_told(error: cli::Error, text: Seq<char>)
    requires
        error.describes(text),
    ensures
        error matches cli::Error::Kubernetes(inner) ==> text == "Kubernetes API error: "@
            + inner.message@,
        error matches cli::Error::Encryption(inner) ==> exists|words: Seq<char>| #[trigger]
            inner.describes(words) && text == "encryption error: "@ + words,
        error matches cli::Error::Input(words) ==> text == "input error: "@ + words@,
        error matches cli::Error::EmptySecret(name) ==> text == "the Kubernetes Secret `"@ + name@
            + "` has no data entries"@,
{
}

} // verus!
