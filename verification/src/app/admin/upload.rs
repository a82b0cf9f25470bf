//! Media upload decisions.

use vstd::prelude::*;
use crate::text::{owned, push_str};

verus! {

/// `/{locale}/admin/upload`: the upload page, where every upload returns.
pub fn upload_base(locale: &str) -> (res: String)
    ensures
        res@ == seq!['/'] + locale@ + "/admin/upload"@,
{
    let mut s = owned("/");
    push_str(&mut s, locale);
    push_str(&mut s, "/admin/upload");
    proof {
        reveal_strlit("/");
    }
    assert(s@ =~= seq!['/'] + locale@ + "/admin/upload"@);
    s
}

/// What the upload handler does with a posted file.
pub enum UploadStep {
    /// The CSRF token does not match: refuse before writing anything.
    Forbidden,
    /// Back to the upload page with an error.
    Redirect(String),
    /// Store the file with this extension.
    Store { extension: String },
}

/// The upload decision, taken in this order: a bad CSRF token is refused; no
/// file or an empty one is "upload_empty"; more than `max_bytes` is
/// "upload_too_large"; a type without a known extension is "upload_type";
/// otherwise the file is stored.
pub fn upload_step(base: &str, csrf_ok: bool, file_len: Option<usize>, max_bytes: usize, extension: Option<&str>) -> (res: UploadStep)
    ensures
        !csrf_ok ==> res is Forbidden,
        csrf_ok ==> match file_len {
            None => res matches UploadStep::Redirect(u) && u@ == base@ + "?error=upload_empty"@,
            Some(n) => if n == 0 {
                res matches UploadStep::Redirect(u) && u@ == base@ + "?error=upload_empty"@
            } else if n > max_bytes {
                res matches UploadStep::Redirect(u) && u@ == base@ + "?error=upload_too_large"@
            } else {
                match extension {
                    None => res matches UploadStep::Redirect(u) && u@ == base@ + "?error=upload_type"@,
                    Some(e) => res matches UploadStep::Store { extension } && extension@ == e@,
                }
            },
        },
{
    if !csrf_ok {
        return UploadStep::Forbidden;
    }
    let mut u = owned(base);
    match file_len {
        None => {
            push_str(&mut u, "?error=upload_empty");
            UploadStep::Redirect(u)
        },
        Some(n) => {
            if n == 0 {
                push_str(&mut u, "?error=upload_empty");
                UploadStep::Redirect(u)
            } else if n > max_bytes {
                push_str(&mut u, "?error=upload_too_large");
                UploadStep::Redirect(u)
            } else {
                match extension {
                    None => {
                        push_str(&mut u, "?error=upload_type");
                        UploadStep::Redirect(u)
                    },
                    Some(e) => UploadStep::Store { extension: owned(e) },
                }
            }
        },
    }
}

/// Where an upload ends: `{base}?ok={image|video}&url={url}` once stored,
/// `{base}?error=upload_failed` when storing failed.
pub fn upload_done_url(base: &str, stored: Option<&str>, is_image: bool) -> (res: String)
    ensures
        match stored {
            Some(url) => res@ == base@ + "?ok="@ + (if is_image { "image"@ } else { "video"@ }) + "&url="@ + url@,
            None => res@ == base@ + "?error=upload_failed"@,
        },
{
    let mut s = owned(base);
    match stored {
        Some(url) => {
            push_str(&mut s, "?ok=");
            push_str(&mut s, if is_image { "image" } else { "video" });
            push_str(&mut s, "&url=");
            push_str(&mut s, url);
        },
        None => {
            push_str(&mut s, "?error=upload_failed");
        },
    }
    s
}

} // verus!
