//! How HTTP status codes are read.

use vstd::prelude::*;

verus! {

/// Whether a status is a success (2xx).
pub open spec fn success_status(status: u16) -> bool {
    200 <= status < 300
}

/// Whether a status blames the server (5xx).
pub open spec fn server_error_status(status: u16) -> bool {
    500 <= status < 600
}

/// Whether a status is a success (2xx).
pub fn is_success(status: u16) -> (success: bool)
    ensures
        success == success_status(status),
{
    200 <= status && status < 300
}

/// Whether a status blames the server (5xx).
pub fn is_server_error(status: u16) -> (server_error: bool)
    ensures
        server_error == server_error_status(status),
{
    500 <= status && status < 600
}

/// A status is a success from 200 to 299 and blames the server from 500 to 599.
pub proof fn law_status_classes(status: u16)
    ensures
        success_status(status) <==> status / 100 == 2,
        server_error_status(status) <==> status / 100 == 5,
{
}

} // verus!
