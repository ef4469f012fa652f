//! The one decision inside the generic HTTP relay commands: whether a
//! response status means success.  The relay itself — building the request,
//! sending it, reading the body — is plain I/O and lives in the shell
//! around this crate; it hands the numeric status code in and acts on the
//! answer.

use vstd::prelude::*;

verus! {

/// Whether an HTTP status code counts as success for the relay: exactly the
/// 2xx range.  The created-with-code-201 case some callers single out is
/// already inside it.
pub fn is_success_status(code: u16) -> (r: bool)
    ensures
        r == (200 <= code < 300),
{
    200 <= code && code < 300
}

} // verus!
