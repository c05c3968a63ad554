//! The dispatch shared by every endpoint and both transports: the request
//! that is sent for a descriptor, the status check, and the decoding of the body.
use vstd::prelude::*;

use super::json::{DecodeError, JsonValue};
use super::model::{param, params_view, Decode, GiphyRequest};

verus! {

/// reqwest::Error, declared so that `GiphyError::Transport` can carry it unchanged;
/// nothing is assumed of its contents.
#[verifier::external_type_specification]
#[verifier::external_body]
pub struct ExReqwestError(reqwest::Error);

/// Why a request did not produce a response value.
#[derive(Debug)]
pub enum GiphyError {
    /// The HTTP call itself failed (connection, TLS, timeout, ...).
    Transport(reqwest::Error),
    /// The response status is not a success (2xx); the body was not read.
    Status(u16),
    /// The response body is not a JSON document; the parser's message.
    Malformed(String),
    /// The response body does not match the expected response schema.
    Decode(DecodeError),
}

/// A GET request ready to be sent: the absolute URL, and the query parameters in order.
pub struct HttpGet {
    pub url: String,
    pub query: Vec<(String, String)>,
}

/// The URL a descriptor is sent to: the base URL, `/`, and the endpoint path.
pub open spec fn endpoint_url(base_url: Seq<char>, endpoint: Seq<char>) -> Seq<char> {
    base_url + "/"@ + endpoint
}

/// Builds the GET request for `req`: the endpoint URL under `base_url`, then the
/// API key as `api_key`, followed by the descriptor's own parameters.
pub fn prepare_get<ResponseType: Decode, Q: GiphyRequest<ResponseType>>(
    base_url: &str,
    api_key: &str,
    req: &Q,
) -> (r: HttpGet)
    ensures
        r.url@ == endpoint_url(base_url@, req.endpoint_path()),
        params_view(r.query@) == param("api_key"@, api_key@) + req.query_spec(),
{
    let url = String::from_str(base_url).concat("/").concat(req.get_endpoint());
    let mut query = Vec::new();
    query.push((String::from_str("api_key"), String::from_str(api_key)));
    let mut own = req.query_params();
    query.append(&mut own);
    assert(params_view(query@) =~= param("api_key"@, api_key@) + req.query_spec());
    HttpGet { url, query }
}

/// Whether `status` is a success status (2xx).
pub open spec fn is_success(status: u16) -> bool {
    200 <= status <= 299
}

/// Checks the response status before anything reads the body: a status that
/// is not 2xx fails with `Status`, whatever the body holds.
pub fn check_status(status: u16) -> (r: Result<(), GiphyError>)
    ensures
        r is Ok <==> is_success(status),
        !is_success(status) ==> (r matches Err(GiphyError::Status(s)) && s == status),
{
    if 200 <= status && status <= 299 {
        Ok(())
    } else {
        Err(GiphyError::Status(status))
    }
}

/// The outcome of a decode, as seen through `GiphyError`.
pub open spec fn as_decode_result<T>(r: Result<T, GiphyError>) -> Result<T, DecodeError> {
    match r {
        Ok(x) => Ok(x),
        Err(GiphyError::Decode(e)) => Err(e),
        Err(_) => arbitrary(),
    }
}

/// Decodes a response body as the response type of a descriptor.
pub fn decode_body<ResponseType: Decode>(body: &JsonValue) -> (r: Result<ResponseType, GiphyError>)
    ensures
        r is Ok || r matches Err(GiphyError::Decode(_)),
        ResponseType::decodes_to(*body, as_decode_result(r)),
{
    match ResponseType::decode(body) {
        Ok(x) => Ok(x),
        Err(e) => Err(GiphyError::Decode(e)),
    }
}

} // verus!
