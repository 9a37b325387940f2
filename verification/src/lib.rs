//! Client for the Bittrex REST API.
//!
//! The heart of the crate is the construction of authenticated requests:
//! building a canonical URL with ordered query parameters, hashing it with
//! the account secret, and unwrapping the exchange's uniform response
//! envelope into typed values or classified errors.

use vstd::prelude::*;

mod encode;
mod error;
pub mod parse;
pub mod private;
pub mod public;
mod sign;
pub mod types;

pub use crate::encode::u64_to_string;
pub use crate::error::Error;
pub use crate::public::OrderBookType;
pub use crate::sign::{hex_of, hmac_sha512, lemma_signature_deterministic, signature_of};

verus! {

/// Bittrex API client: holds the credentials for private calls.
#[derive(Debug, Clone)]
pub struct Client {
    /// API key.
    api_key: Option<String>,
    /// API secret.
    api_secret: Option<String>,
}

impl Client {
    /// True when both the API key and the API secret are stored.
    pub closed spec fn logged_in(&self) -> bool {
        self.api_key is Some && self.api_secret is Some
    }

    /// The stored API key, as a character sequence.
    pub closed spec fn key_view(&self) -> Seq<char>
        recommends
            self.logged_in(),
    {
        self.api_key->0@
    }

    /// The stored API secret, as a character sequence.
    pub closed spec fn secret_view(&self) -> Seq<char>
        recommends
            self.logged_in(),
    {
        self.api_secret->0@
    }

    /// Creates a client with no stored credentials.
    pub fn new() -> (r: Client)
        ensures
            !r.logged_in(),
    {
        Client { api_key: None, api_secret: None }
    }

    /// Logs the client in for future private method access.
    ///
    /// This performs no request: it only stores the API key and the secret
    /// for future use.
    pub fn login(&mut self, api_key: String, api_secret: String)
        ensures
            final(self).logged_in(),
            final(self).key_view() == api_key@,
            final(self).secret_view() == api_secret@,
    {
        self.api_key = Some(api_key);
        self.api_secret = Some(api_secret);
    }
}

impl Default for Client {
    /// A fresh client starts out logged out.
    fn default() -> (r: Self)
        ensures
            !r.logged_in(),
    {
        Client::new()
    }
}

/// The uniform envelope every API response arrives in.
#[derive(Debug, Clone)]
pub struct ApiResult<R> {
    /// Whether the API call was successful.
    pub success: bool,
    /// The message returned in the API call.
    pub message: String,
    /// The result of the API call.
    pub result: Option<R>,
}

impl<R> ApiResult<R> {
    /// Unwraps the envelope: the carried value on success, a classified
    /// error otherwise.
    ///
    /// A successful envelope owes a result; one without is a protocol
    /// violation, reported apart from the domain failure that carries the
    /// server's message.
    pub fn into_result(self) -> (r: Result<R, Error>)
        ensures
            self.success && self.result is Some ==> r == Ok::<R, Error>(self.result->0),
            self.success && self.result is None ==> r == Err::<R, Error>(Error::MissingResult),
            !self.success ==> r == Err::<R, Error>(Error::Api(self.message)),
    {
        if self.success {
            match self.result {
                Some(value) => Ok(value),
                None => Err(Error::MissingResult),
            }
        } else {
            Err(Error::Api(self.message))
        }
    }
}

} // verus!
