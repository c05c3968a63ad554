//! The blocking transport adapter.
use vstd::prelude::*;

use super::dispatch::{endpoint_url, prepare_get, HttpGet};
use super::model::{param, params_view, Decode, GiphyRequest, API_ROOT};

verus! {

/// reqwest::blocking::Client, declared so that `SyncApi` can hold the client it
/// borrows; nothing is assumed of its behaviour.
#[verifier::external_type_specification]
#[verifier::external_body]
pub struct ExBlockingClient(reqwest::blocking::Client);

/// Giphy API over a blocking HTTP client: the base URL, the API key, and the client.
pub struct SyncApi {
    url: String,
    key: String,
    client: reqwest::blocking::Client,
}

impl SyncApi {
    /// The base URL requests are sent under.
    pub closed spec fn base_url(&self) -> Seq<char> {
        self.url@
    }

    /// The API key attached to every request.
    pub closed spec fn api_key(&self) -> Seq<char> {
        self.key@
    }

    /// The HTTP client requests are sent with.
    pub closed spec fn http_client(&self) -> reqwest::blocking::Client {
        self.client
    }

    /// Creates an adapter for the public API root.
    pub fn new(key: String, client: reqwest::blocking::Client) -> (r: SyncApi)
        ensures
            r.base_url() == API_ROOT@,
            r.api_key() == key@,
            r.http_client() == client,
    {
        SyncApi { url: String::from_str(API_ROOT), key, client }
    }

    /// Creates an adapter for another API root, such as a mock server.
    pub fn new_with_url(url: String, key: String, client: reqwest::blocking::Client) -> (r: SyncApi)
        ensures
            r.base_url() == url@,
            r.api_key() == key@,
            r.http_client() == client,
    {
        SyncApi { url, key, client }
    }

    /// The HTTP client requests are sent with.
    pub fn client(&self) -> (r: &reqwest::blocking::Client)
        ensures
            *r == self.http_client(),
    {
        &self.client
    }

    /// The GET request that sends `req` through this adapter.
    pub fn prepare<ResponseType: Decode, Q: GiphyRequest<ResponseType>>(&self, req: &Q) -> (r: HttpGet)
        ensures
            r.url@ == endpoint_url(self.base_url(), req.endpoint_path()),
            params_view(r.query@) == param("api_key"@, self.api_key()) + req.query_spec(),
    {
        prepare_get(self.url.as_str(), self.key.as_str(), req)
    }
}

} // verus!
