//! Signature pipeline tests, including the RFC 4231 golden vectors for
//! HMAC-SHA512.

use bittrex::Client;

/// Signing a known secret and message pair reproduces the published
/// HMAC-SHA512 digest, hex-encoded in lowercase.
#[test]
fn it_signature_golden() {
    let mut client = Client::new();
    client.login(String::from("key"), String::from("Jefe"));
    let signature = client.hash_uri("what do ya want for nothing?").unwrap();
    assert_eq!(
        signature,
        "164b7a7bfcf819e2e395fbe73b56e0a387bd64222e831fd610270cd7ea25055\
         49758bf75c05a994a6d034f65f8f0e6fdcaeab1a34d4a6b4b636e070a38bce737"
    );
}

/// A second golden vector, with a non-printable key.
#[test]
fn it_signature_golden_repeated_key() {
    let mut client = Client::new();
    client.login(String::from("key"), "\u{000b}".repeat(20));
    let signature = client.hash_uri("Hi There").unwrap();
    assert_eq!(
        signature,
        "87aa7cdea5ef619d4ff0b4241a1d6cb02379f4e2ce4ec2787ad0b30545e17cd\
         edaa833b7d6b8a702038b274eaea3f4e4be9d914eeb61f1702e696c203a126854"
    );
}

/// Signing the same URL twice yields the same signature; signing with a
/// different secret yields a different one.
#[test]
fn it_signature_deterministic() {
    let url = "https://bittrex.com/api/v1.1//account/getbalances?apikey=key&nonce=1500000000";

    let mut client = Client::new();
    client.login(String::from("key"), String::from("first secret"));
    let first = client.hash_uri(url).unwrap();
    let again = client.hash_uri(url).unwrap();
    assert_eq!(first, again);

    let mut other = Client::new();
    other.login(String::from("key"), String::from("second secret"));
    let second = other.hash_uri(url).unwrap();
    assert_ne!(first, second);
}

/// A signature is 128 lowercase hex digits: 512 bits, two digits a byte.
#[test]
fn it_signature_shape() {
    let mut client = Client::new();
    client.login(String::from("key"), String::from("secret"));
    let signature = client.hash_uri("https://bittrex.com/api/v1.1//public/getmarkets").unwrap();
    assert_eq!(signature.len(), 128);
    assert!(signature.chars().all(|c| c.is_ascii_hexdigit() && !c.is_ascii_uppercase()));
}

/// Hashing without stored credentials reports the precondition error.
#[test]
fn it_hash_uri_requires_login() {
    let client = Client::new();
    assert_eq!(
        client.hash_uri("https://bittrex.com/api/v1.1//public/getmarkets"),
        Err(bittrex::Error::NotLoggedIn)
    );
}
