//! Request signing: HMAC-SHA512 over the canonical URL, hex-encoded.

use vstd::prelude::*;
use vstd::string::StringSliceAdditionalSpecFns;
use hmac::Mac;

use crate::error::Error;
use crate::Client;

verus! {

/// The character for one hexadecimal digit, lowercase.
pub open spec fn hex_char(d: nat) -> char
    recommends
        d < 16,
{
    if d == 0 {
        '0'
    } else if d == 1 {
        '1'
    } else if d == 2 {
        '2'
    } else if d == 3 {
        '3'
    } else if d == 4 {
        '4'
    } else if d == 5 {
        '5'
    } else if d == 6 {
        '6'
    } else if d == 7 {
        '7'
    } else if d == 8 {
        '8'
    } else if d == 9 {
        '9'
    } else if d == 10 {
        'a'
    } else if d == 11 {
        'b'
    } else if d == 12 {
        'c'
    } else if d == 13 {
        'd'
    } else if d == 14 {
        'e'
    } else {
        'f'
    }
}

/// Lowercase hexadecimal rendering of a byte sequence: two digits per byte,
/// high nibble first, no separators.
pub open spec fn hex_of(bytes: Seq<u8>) -> Seq<char> {
    Seq::new(
        2 * bytes.len(),
        |i: int|
            if i % 2 == 0 {
                hex_char((bytes[i / 2] >> 4) as nat)
            } else {
                hex_char((bytes[i / 2] & 0x0f) as nat)
            },
    )
}

/// What HMAC-SHA512 returns for a key and a message: a function of the two
/// byte sequences alone.
pub uninterp spec fn hmac_sha512(key: Seq<u8>, msg: Seq<u8>) -> Seq<u8>;

/// The value of the `apisign` header: the lowercase hex encoding of the
/// HMAC-SHA512 digest of the canonical URL, keyed by the API secret.
pub open spec fn signature_of(secret: Seq<u8>, url: Seq<u8>) -> Seq<char> {
    hex_of(hmac_sha512(secret, url))
}

/// Relies on `hmac::Hmac<sha2::Sha512>` (`new_from_slice`, `update`,
/// `finalize`) for the keyed digest: 64 bytes, a function of the key and
/// message bytes alone. `new_from_slice` accepts keys of any length for
/// this algorithm, so the call cannot fail.
#[verifier::external_body]
fn hmac_sha512_digest(key: &[u8], msg: &[u8]) -> (r: Vec<u8>)
    ensures
        r@ == hmac_sha512(key@, msg@),
        r@.len() == 64,
{
    let mut mac = <hmac::Hmac<sha2::Sha512> as hmac::KeyInit>::new_from_slice(key)
        .expect("HMAC accepts keys of any length");
    mac.update(msg);
    mac.finalize().into_bytes().to_vec()
}

/// Relies on `hex::encode`: lowercase hexadecimal, two digits per byte,
/// high nibble first.
#[verifier::external_body]
fn hex_lower(bytes: &[u8]) -> (r: String)
    ensures
        r@ == hex_of(bytes@),
{
    hex::encode(bytes)
}

impl Client {
    /// The UTF-8 bytes of the stored API secret: the key the signature is
    /// computed with.
    pub open spec fn secret_bytes(&self) -> Seq<u8>
        recommends
            self.logged_in(),
    {
        vstd::utf8::encode_utf8(self.secret_view())
    }

    /// Hashes the given URI with the stored API secret.
    ///
    /// Without stored credentials no signature can be computed, so the call
    /// reports the precondition error instead.
    pub fn hash_uri(&self, url: &str) -> (r: Result<String, Error>)
        ensures
            self.logged_in() ==> (r matches Ok(s) && s@ == signature_of(
                self.secret_bytes(),
                url.spec_bytes(),
            ) && s@.len() == 128),
            !self.logged_in() ==> r == Err::<String, Error>(Error::NotLoggedIn),
    {
        match (&self.api_key, &self.api_secret) {
            (Some(_), Some(secret)) => {
                let digest = hmac_sha512_digest(secret.as_str().as_bytes(), url.as_bytes());
                Ok(hex_lower(digest.as_slice()))
            },
            _ => Err(Error::NotLoggedIn),
        }
    }
}

/// Signing is deterministic: the signature is a function of the secret and
/// the canonical URL alone, so the same pair always yields the same header
/// value.
pub proof fn lemma_signature_deterministic(
    secret1: Seq<u8>,
    url1: Seq<u8>,
    secret2: Seq<u8>,
    url2: Seq<u8>,
)
    requires
        secret1 == secret2,
        url1 == url2,
    ensures
        signature_of(secret1, url1) == signature_of(secret2, url2),
{
}

} // verus!
