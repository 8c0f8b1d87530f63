//! What the requests to the web API share: where the API lives, how a request
//! fails, and how the address of a request is put together.

use vstd::prelude::*;
use hyper::Uri;

verus! {

/// Host of the Steam web API.
pub const AUTHORITY: &'static str = "api.steampowered.com";

/// Reasons for which a request cannot be prepared.
#[derive(Clone, Copy, Debug, PartialEq, Eq, Structural, Hash)]
pub enum ErrorKind {
    /// The client holds no API key.
    NoAPIKey,
    /// The request needs an API key and the client holds none.
    APIKeyRequired,
    /// The parts of the address do not make a URI.
    InvalidUri,
}

/// A failure to prepare a request.
#[derive(Clone, Copy, Debug, PartialEq, Eq, Structural, Hash)]
pub struct ApiError {
    kind: ErrorKind,
}

impl View for ApiError {
    type V = ErrorKind;

    closed spec fn view(&self) -> ErrorKind {
        self.kind
    }
}

impl ApiError {
    pub fn new(kind: ErrorKind) -> (e: ApiError)
        ensures
            e@ == kind,
    {
        ApiError { kind }
    }

    pub fn kind(&self) -> (kind: ErrorKind)
        ensures
            kind == self@,
    {
        self.kind
    }

    /// Two errors are equal exactly when they are of the same kind.
    pub proof fn lemma_kind_decides(self, other: ApiError)
        ensures
            self == other <==> self@ == other@,
    {
    }
}

/// Whether hyper's URI builder makes a URI of a scheme, an authority and a
/// path with its query.
pub uninterp spec fn uri_accepted(
    scheme: Seq<char>,
    authority: Seq<char>,
    path_and_query: Seq<char>,
) -> bool;

/// `hyper::Uri::builder()`, then `scheme`, `authority`, `path_and_query` and
/// `build`. The builder parses the three parts and reads nothing else, so
/// whether it gives a URI or an error is decided by the three texts; which
/// texts it takes is not stated here, nor what the URI holds.
#[verifier::external_body]
pub(crate) fn build_uri(scheme: &str, authority: &str, path_and_query: &str) -> (r: Result<
    Uri,
    hyper::http::Error,
>)
    ensures
        r is Ok <==> uri_accepted(scheme@, authority@, path_and_query@),
{
    Uri::builder().scheme(scheme).authority(authority).path_and_query(path_and_query).build()
}

/// What a request makes of the builder's answer: the URI as it came, or
/// `InvalidUri` in place of the builder's error.
pub fn uri_outcome(built: Result<Uri, hyper::http::Error>) -> (r: Result<Uri, ApiError>)
    ensures
        match built {
            Ok(uri) => r == Ok::<Uri, ApiError>(uri),
            Err(_) => r matches Err(e) && e@ == ErrorKind::InvalidUri,
        },
{
    match built {
        Ok(uri) => Ok(uri),
        Err(_) => Err(ApiError::new(ErrorKind::InvalidUri)),
    }
}

/// The address of a request to the web API: `https`, the API's host, and the
/// given path with its query. Fails with `InvalidUri` exactly when the URI
/// builder refuses the parts.
pub fn api_uri(path_and_query: &str) -> (r: Result<Uri, ApiError>)
    ensures
        r is Ok <==> uri_accepted("https"@, AUTHORITY@, path_and_query@),
        r matches Err(e) ==> e@ == ErrorKind::InvalidUri,
{
    uri_outcome(build_uri("https", AUTHORITY, path_and_query))
}

} // verus!
