//! Key-pool management and retry dispatch for a proxy in front of a
//! quota-limited upstream API.

use crate::endpoints::single::RouteError;
use vstd::prelude::*;

pub mod date_util;
pub mod endpoints;
pub mod instant;
pub mod key_manager;
pub mod models;
pub mod text;
pub mod timer;
pub mod youtube_client;
pub mod youtube_manager;

verus! {

/// What the liveness route answers.
pub fn alive() -> (answer: &'static str)
    ensures
        answer@ == "OK"@,
{
    "OK"
}

/// Proof that a request may use the routes: it showed the configured key,
/// or no key is configured.
pub struct ApiKey {}

impl ApiKey {
    /// A request that presents `keys` is admitted where `api_key` is
    /// configured: without a configured key every request is, with one
    /// only a request whose first presented key is that key.
    pub open spec fn admits(api_key: Option<Seq<char>>, keys: Seq<Seq<char>>) -> bool {
        match api_key {
            None => true,
            Some(expected) => keys.len() >= 1 && keys[0] == expected,
        }
    }

    /// Admits or refuses a request by the values of its key header.
    pub fn from_request(api_key: &Option<String>, keys: &Vec<String>) -> (outcome: Result<
        ApiKey,
        RouteError,
    >)
        ensures
            outcome is Ok <==> Self::admits(crate::text::optional_text(*api_key), keys.deep_view()),
            outcome matches Err(error) ==> error == RouteError::Unauthorized,
    {
        match api_key {
            None => Ok(ApiKey {  }),
            Some(expected) => {
                if keys.len() >= 1 && keys[0] == *expected {
                    Ok(ApiKey {  })
                } else {
                    Err(RouteError::Unauthorized)
                }
            },
        }
    }
}

} // verus!
