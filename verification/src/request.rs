//! Construction of the download request path.
//!
//! An object is fetched from `file/{bucket}/{object}` under the
//! account's download origin. Object names may themselves contain `/`;
//! they are kept as path segments, never escaped into one opaque token.

use vstd::prelude::*;
use vstd::string::StringExecFns;

verus! {

/// Builds the request path `file/{bucket}/{object}`, with the object name
/// carried over unmodified, slashes and all.
pub fn request_path(bucket_name: &str, file_name: &str) -> (r: String)
    ensures
        r@ == "file/"@ + bucket_name@ + "/"@ + file_name@,
{
    let mut path = String::from_str("file/");
    path.append(bucket_name);
    path.append("/");
    path.append(file_name);
    path
}

} // verus!
