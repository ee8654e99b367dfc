//! Trusted boundary to the outside crates that do the filesystem and
//! randomness work: `tempdir` creates the container directory and
//! `textnonce` draws the random file-name token.

use vstd::prelude::*;

use crate::is_urlsafe_char;
use crate::uploaded_file::TOKEN_LEN;

verus! {

/// Relies on `tempdir::TempDir::new`: it creates a fresh, uniquely named
/// directory under the system temp root and returns its absolute (hence
/// nonempty) path; when it fails, no directory has been created.
#[verifier::external_body]
pub(crate) fn make_temp_dir(prefix: &str) -> (r: Result<String, String>)
    ensures
        r matches Ok(p) ==> p@.len() > 0,
{
    match tempdir::TempDir::new(prefix) {
        Ok(d) => match d.into_path().into_os_string().into_string() {
            Ok(s) => Ok(s),
            Err(_) => Err("temp directory path is not valid unicode".to_owned()),
        },
        Err(e) => Err(format!("{}", e)),
    }
}

/// Relies on `tempdir::TempDir::new_in`: like `TempDir::new`, but the fresh
/// directory is created inside the given root instead of the system temp
/// root; when it fails, no directory has been created.
#[verifier::external_body]
pub(crate) fn make_temp_dir_in(root: &str, prefix: &str) -> (r: Result<String, String>)
    ensures
        r matches Ok(p) ==> p@.len() > 0,
{
    match tempdir::TempDir::new_in(root, prefix) {
        Ok(d) => match d.into_path().into_os_string().into_string() {
            Ok(s) => Ok(s),
            Err(_) => Err("temp directory path is not valid unicode".to_owned()),
        },
        Err(e) => Err(format!("{}", e)),
    }
}

/// Relies on `textnonce::TextNonce::sized_urlsafe`: for a length of at
/// least 16 that is divisible by 4 it returns a random token of exactly
/// that many characters, all drawn from the URL-safe base64 alphabet
/// (letters, digits, `-` and `_`).
#[verifier::external_body]
pub(crate) fn fresh_token() -> (r: Result<String, String>)
    ensures
        r matches Ok(t) ==> t@.len() == TOKEN_LEN as int
            && (forall|i: int| 0 <= i < t@.len() ==> is_urlsafe_char(#[trigger] t@[i])),
{
    match textnonce::TextNonce::sized_urlsafe(TOKEN_LEN) {
        Ok(n) => Ok(n.into_string()),
        Err(e) => Err(e),
    }
}

} // verus!
