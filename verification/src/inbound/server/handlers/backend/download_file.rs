//! `GET /api/files/{id}/download`: a file's bytes as an attachment.

use vstd::prelude::*;

verus! {

/// The `Content-Disposition` value of a download:
/// `attachment; filename="{name}.{ext}"`.
pub fn attachment_disposition(name: &str, ext: &str) -> (r: String)
    ensures
        r@ == "attachment; filename=\""@ + name@ + "."@ + ext@ + "\""@,
{
    let mut r = String::from_str("attachment; filename=\"");
    r.append(name);
    r.append(".");
    r.append(ext);
    r.append("\"");
    r
}

} // verus!
