//! The status code of a response.
use vstd::prelude::*;

verus! {

/// An HTTP status code.
#[derive(Clone, Copy, Debug, PartialEq, Eq, Structural)]
pub struct StatusCode(pub u16);

/// 200 OK
pub const OK: u16 = 200;

/// 404 Not Found
pub const NOT_FOUND: u16 = 404;

/// The text that `hyper::StatusCode` writes of the code `code`, through its
/// `Display`: the number and the reason that goes with it.
pub uninterp spec fn status_text_of(code: u16) -> Seq<char>;

/// The text of a status code, through the `Display` of `hyper::StatusCode`. A
/// number outside of the range that `StatusCode::try_from` takes is given to it
/// as a code that is not registered.
#[verifier::external_body]
pub(crate) fn status_text(code: u16) -> (text: String)
    ensures
        text@ == status_text_of(code),
{
    hyper::StatusCode::try_from(code).unwrap_or(hyper::StatusCode::Unregistered(code)).to_string()
}

} // verus!
