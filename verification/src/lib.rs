//! A temporary-file-backed upload handle.
//!
//! An [`uploaded_file::UploadedFile`] owns a uniquely named temporary file
//! (and the private temporary directory that contains it), exposes the
//! upload's metadata, and yields an ordered, exactly-once cleanup plan for
//! removing both when the handle is released.

use vstd::prelude::*;

pub mod record;
mod sys;
pub mod uploaded_file;

verus! {

/// A character of the URL-safe base64 alphabet. Temp file names are built
/// from these alone, so a file name never contains a path separator.
pub open spec fn is_urlsafe_char(c: char) -> bool {
    ||| 'A' <= c && c <= 'Z'
    ||| 'a' <= c && c <= 'z'
    ||| '0' <= c && c <= '9'
    ||| c == '-'
    ||| c == '_'
}

} // verus!
