//! The client's own state: the API key, if it has one.

use vstd::prelude::*;
use vstd::string::*;
use crate::utils::{ApiError, ErrorKind};

verus! {

/// Client to make API requests easily.
///
/// Client can be constructed with or without an API key. Only subset
/// of APIs are available for the client without one.
pub struct SteamClient {
    api_key: Option<String>,
}

impl View for SteamClient {
    type V = Option<Seq<char>>;

    closed spec fn view(&self) -> Option<Seq<char>> {
        match self.api_key {
            Some(key) => Some(key@),
            None => None,
        }
    }
}

impl SteamClient {
    /// Create a client with an API key.
    ///
    /// Client with API key can use all available APIs.
    pub fn with_api_key(key: &str) -> (client: Self)
        ensures
            client@ == Some(key@),
    {
        SteamClient { api_key: Some(String::from_str(key)) }
    }

    /// Create a client without an API key.
    ///
    /// Client without an API key can only use a subset of the APIs.
    pub fn new() -> (client: Self)
        ensures
            client@ is None,
    {
        SteamClient { api_key: None }
    }

    /// The API key, or `NoAPIKey` where the client holds none.
    pub fn api_key(&self) -> (r: Result<String, ApiError>)
        ensures
            match self@ {
                Some(key) => r matches Ok(s) && s@ == key,
                None => r matches Err(e) && e@ == ErrorKind::NoAPIKey,
            },
    {
        match &self.api_key {
            Some(key) => Ok(key.clone()),
            None => Err(ApiError::new(ErrorKind::NoAPIKey)),
        }
    }
}

} // verus!
