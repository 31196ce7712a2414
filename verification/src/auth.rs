//! The account-authorization session model.
//!
//! One successful authorization call yields a short-lived token and the
//! per-account download base URL; both live for a single run. The call
//! itself is an HTTP round-trip made outside the library, which hands the
//! two extracted strings back as plain values.

use vstd::prelude::*;

verus! {

/// The fields extracted from a successful account-authorization response:
/// the token sent verbatim as an authorization header value, and the
/// origin against which file-download URLs are built.
pub struct AuthorizeAccountResponse {
    pub authorization_token: String,
    pub api_info: ApiInfo,
}

/// The API endpoints the service granted this account.
pub struct ApiInfo {
    pub storage_api: StorageApi,
}

/// The storage endpoint group; only the download origin is used here.
pub struct StorageApi {
    pub download_url: String,
}

impl AuthorizeAccountResponse {
    /// Packs the two values an authorization response supplies.
    pub fn new(authorization_token: String, download_url: String) -> (r: AuthorizeAccountResponse)
        ensures
            r.authorization_token@ == authorization_token@,
            r.api_info.storage_api.download_url@ == download_url@,
    {
        AuthorizeAccountResponse {
            authorization_token,
            api_info: ApiInfo { storage_api: StorageApi { download_url } },
        }
    }
}

} // verus!
