//! The rules by which a completed HTTP exchange counts as a page.

use vstd::prelude::*;

verus! {

/// A status in the 2xx class.
pub open spec fn success_status(status: u16) -> bool {
    200 <= status < 300
}

/// Whether a response with this status carries the page that was asked for.
pub fn is_success(status: u16) -> (r: bool)
    ensures
        r == success_status(status),
{
    200 <= status && status < 300
}

/// The message for a response whose status is no success; `status` is the
/// status as the transport renders it.
pub fn status_error(status: &str) -> (message: String)
    ensures
        message@ == "HTTP error: "@ + status@,
{
    String::from_str("HTTP error: ").concat(status)
}

/// Accepts a response by its status: a status in the 2xx class passes, any
/// other is refused with the message that names it. `rendered` is the
/// status as the transport renders it.
pub fn check_status(status: u16, rendered: &str) -> (r: Result<(), String>)
    ensures
        r is Ok <==> success_status(status),
        r matches Err(message) ==> message@ == "HTTP error: "@ + rendered@,
{
    if is_success(status) {
        Ok(())
    } else {
        Err(status_error(rendered))
    }
}

} // verus!
