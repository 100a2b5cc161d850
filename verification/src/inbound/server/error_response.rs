//! How file-management errors are answered over HTTP.

use vstd::prelude::*;

use crate::domain::services::file_manager::FileManagerError;

verus! {

/// The JSON body of an error answer.
#[derive(Debug)]
pub struct ErrorResponse {
    pub error: String,
}

/// The HTTP status code that answers an error: not found 404, already
/// exists 409, permission denied 403, validation 400, and 500 for
/// input/output and unknown errors.
pub open spec fn status_of(e: FileManagerError) -> u16 {
    match e {
        FileManagerError::FileNotFound(_) => 404,
        FileManagerError::FileAlreadyExists(_) => 409,
        FileManagerError::PermissionDenied(_) => 403,
        FileManagerError::ValidationError(_) => 400,
        FileManagerError::IoError(_) => 500,
        FileManagerError::UnknownError(_) => 500,
    }
}

/// The HTTP status code that answers an error.
pub fn error_status(e: &FileManagerError) -> (r: u16)
    ensures
        r == status_of(*e),
{
    match e {
        FileManagerError::FileNotFound(_) => 404,
        FileManagerError::FileAlreadyExists(_) => 409,
        FileManagerError::PermissionDenied(_) => 403,
        FileManagerError::ValidationError(_) => 400,
        FileManagerError::IoError(_) | FileManagerError::UnknownError(_) => 500,
    }
}

/// The answer to an error: its status code and a body with its text.
pub fn error_response(e: FileManagerError) -> (r: (u16, ErrorResponse))
    ensures
        r.0 == status_of(e),
        r.1.error@ == e.message(),
{
    let status = error_status(&e);
    (status, ErrorResponse { error: e.to_string() })
}

} // verus!
