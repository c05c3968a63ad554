//! Typed client binding for the Giphy GIF-search HTTP API.
//!
//! Request descriptors, the query parameters they carry, the URL each one is
//! sent to, the status check and the decoding of response bodies are verified
//! here; the HTTP round trip itself is performed by the caller.
pub mod v1;
