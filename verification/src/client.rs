//! The plain values that cross the boundary between this layer and a
//! backend: the desired shape of an OIDC client, the credential bundle a
//! backend issues, and the error a backend call can raise.

use vstd::prelude::*;

verus! {

/// The desired shape of the OIDC client to create or check, supplied by the
/// caller per request and passed through to the backend unchanged.
#[derive(Clone, Debug, PartialEq, Eq)]
pub struct OIDCConfig {
    pub is_public: bool,
    pub redirect_urls: Vec<String>,
}

/// The credential bundle a backend issues on successful creation, returned
/// to the caller verbatim.
#[derive(Clone, Debug, PartialEq, Eq)]
pub enum SecretResult {
    /// The client was created and this secret was issued for it.
    Created(String),
    /// A client of that name already existed; this is its current secret.
    AlreadyExisted(String),
}

/// An error raised by a backend call. This layer treats it as opaque beyond
/// the display text it yields, which is logged for the operator and never
/// shown to the caller.
#[derive(Clone, Debug, PartialEq, Eq)]
pub struct BackendError {
    pub detail: String,
}

} // verus!
