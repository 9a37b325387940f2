//! Private API endpoints: the calls that go out signed.
//!
//! A private call appends the stored API key and a fresh nonce to the
//! endpoint URL, in that order, and carries the signature of the complete
//! URL in the `apisign` header. Without stored credentials no private
//! request can be built: the precondition error is returned instead.

use vstd::prelude::*;
use vstd::string::StringExecFns;

use crate::encode::{dec_str, u64_to_string};
use crate::error::Error;
use crate::public::spec_api_url;
use crate::sign::signature_of;
use crate::Client;

verus! {

/// A ready private request: the canonical URL, and the signature that goes
/// with it as the `apisign` header.
#[derive(Debug, Clone)]
pub struct SignedRequest {
    /// The complete URL, query string included.
    pub url: String,
    /// The value of the `apisign` header.
    pub apisign: String,
}

/// The canonical URL of the balances endpoint for one key and nonce: the
/// `apikey` parameter first, the `nonce` parameter last.
pub open spec fn spec_balances_url(key: Seq<char>, nonce: nat) -> Seq<char> {
    spec_api_url() + "/account/getbalances"@ + "?apikey="@ + key + "&nonce="@ + dec_str(nonce)
}

impl SignedRequest {
    /// The request is the balances call of the given client, built with the
    /// given nonce: its URL is canonical and its header signs exactly that
    /// URL with the client's secret.
    pub open spec fn is_balances_request(&self, client: Client, nonce: nat) -> bool {
        &&& self.url@ == spec_balances_url(client.key_view(), nonce)
        &&& self.apisign@ == signature_of(
            client.secret_bytes(),
            vstd::utf8::encode_utf8(spec_balances_url(client.key_view(), nonce)),
        )
    }
}

/// Building the balances request twice with the same credentials and the
/// same nonce yields the same canonical URL and the same signature: both
/// are functions of the key, the secret and the nonce alone.
pub proof fn lemma_balances_request_deterministic(
    client: Client,
    nonce: nat,
    first: SignedRequest,
    second: SignedRequest,
)
    requires
        first.is_balances_request(client, nonce),
        second.is_balances_request(client, nonce),
    ensures
        first.url@ == second.url@,
        first.apisign@ == second.apisign@,
{
}

/// Relies on `chrono::Utc::now` and its `timestamp`: the current Unix time
/// in whole seconds. Nothing is promised of the value: it is read from the
/// wall clock.
#[verifier::external_body]
fn now_timestamp() -> i64 {
    chrono::Utc::now().timestamp()
}

impl Client {
    /// Builds the signed request for the balances endpoint with the given
    /// nonce.
    ///
    /// This is a private call: without stored credentials it fails with the
    /// precondition error, and nothing is handed to the transport.
    pub fn balances_request(&self, nonce: u64) -> (r: Result<SignedRequest, Error>)
        ensures
            self.logged_in() ==> (r matches Ok(req) && req.is_balances_request(
                *self,
                nonce as nat,
            )),
            !self.logged_in() ==> r == Err::<SignedRequest, Error>(Error::NotLoggedIn),
    {
        let key = match (&self.api_key, &self.api_secret) {
            (Some(key), Some(_)) => key,
            _ => {
                return Err(Error::NotLoggedIn);
            },
        };
        let mut url = crate::public::api_url().to_owned();
        url.append("/account/getbalances");
        url.append("?apikey=");
        url.append(key.as_str());
        url.append("&nonce=");
        let nonce_str = u64_to_string(nonce);
        url.append(nonce_str.as_str());
        match self.hash_uri(url.as_str()) {
            Ok(apisign) => Ok(SignedRequest { url, apisign }),
            Err(e) => Err(e),
        }
    }

    /// Builds the signed request for the balances endpoint, with the nonce
    /// read from the wall clock as Unix seconds.
    pub fn balances_request_now(&self) -> (r: Result<SignedRequest, Error>)
        ensures
            self.logged_in() ==> (r matches Ok(req) && exists|nonce: nat|
                req.is_balances_request(*self, nonce)),
            !self.logged_in() ==> r == Err::<SignedRequest, Error>(Error::NotLoggedIn),
    {
        let now = now_timestamp();
        let nonce: u64 = if now < 0 {
            0
        } else {
            now as u64
        };
        let r = self.balances_request(nonce);
        proof {
            if self.logged_in() {
                assert(r->Ok_0.is_balances_request(*self, nonce as nat));
            }
        }
        r
    }
}

} // verus!
