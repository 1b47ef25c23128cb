//! The guard in front of the endpoints: one shared key, sent in the
//! `x-api-key` header or, for plain download links, in the query string.

use vstd::prelude::*;
use crate::http::{Rejection, UNAUTHORIZED};
use crate::text::str_eq;

verus! {

/// The key that the server was started with.
#[derive(Debug, Clone, PartialEq, Eq)]
pub struct ConfigApiKey(pub String);

/// A key that a request presented and the guard accepted.
#[derive(Debug, Clone, Copy, PartialEq, Eq)]
pub struct ApiKey<'r>(pub &'r str);

/// Why the guard turned a request away.
#[derive(Debug, Clone, Copy, PartialEq, Eq, Structural)]
pub enum ApiKeyError {
    /// The request carried no `x-api-key` header.
    Missing,
    /// The header did not hold the configured key.
    Invalid,
}

/// Name of the header that carries the key.
pub fn header_name() -> (name: &'static str)
    ensures
        name@ == "x-api-key"@,
{
    "x-api-key"
}

/// Whether `key` is the configured key `api_key`.
pub fn is_valid(api_key: &str, key: &str) -> (valid: bool)
    ensures
        valid == (api_key@ == key@),
{
    str_eq(api_key, key)
}

impl<'r> ApiKey<'r> {
    /// What the guard decides from the value of the `x-api-key` header.
    pub open spec fn decided(config: ConfigApiKey, header: Option<&'r str>) -> Result<
        ApiKey<'r>,
        (u16, ApiKeyError),
    > {
        match header {
            Some(key) => if config.0@ == key@ {
                Ok(ApiKey(key))
            } else {
                Err((UNAUTHORIZED, ApiKeyError::Invalid))
            },
            None => Err((UNAUTHORIZED, ApiKeyError::Missing)),
        }
    }

    /// Header mode of the guard. `header` is the value of the request's
    /// `x-api-key` header, if it has one. The request passes exactly when
    /// the header is there and equals the configured key; every other
    /// request is answered with status 401.
    pub fn from_request(config: &ConfigApiKey, header: Option<&'r str>) -> (outcome: Result<
        ApiKey<'r>,
        (u16, ApiKeyError),
    >)
        ensures
            outcome == Self::decided(*config, header),
            outcome is Ok <==> header is Some && header->0@ == config.0@,
            outcome is Err ==> outcome->Err_0.0 == 401,
    {
        match header {
            Some(key) => {
                if is_valid(config.0.as_str(), key) {
                    Ok(ApiKey(key))
                } else {
                    Err((UNAUTHORIZED, ApiKeyError::Invalid))
                }
            },
            None => Err((UNAUTHORIZED, ApiKeyError::Missing)),
        }
    }
}

/// Query mode of the guard, for the one endpoint that takes the key as the
/// `apikey` parameter of the URL. A key other than the configured one is
/// answered with status 401 and the message `Invalid API key`.
pub fn check_query_key(config: &ConfigApiKey, apikey: &str) -> (outcome: Result<(), Rejection>)
    ensures
        outcome is Ok <==> apikey@ == config.0@,
        outcome is Err ==> outcome->Err_0@ == (UNAUTHORIZED, "Invalid API key"@),
{
    if is_valid(config.0.as_str(), apikey) {
        Ok(())
    } else {
        Err(Rejection { status: UNAUTHORIZED, message: "Invalid API key".to_owned() })
    }
}

} // verus!
