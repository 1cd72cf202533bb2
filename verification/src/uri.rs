//! Reading the address of what is to be fetched.
use hyper::error::UriError;
use vstd::prelude::*;

verus! {

/// What `hyper::Uri` makes of the text `url`, through its `FromStr`: the text
/// of the URI, or the error.
pub uninterp spec fn parsed_uri(url: Seq<char>) -> Result<Seq<char>, UriError>;

/// Whether `text` is the address `url`, written as it was or with one `/` put in.
pub open spec fn same_address(url: Seq<char>, text: Seq<char>) -> bool {
    text == url || exists|i: int| 0 <= i <= url.len() && text == #[trigger] url.insert(i, '/')
}

/// Parses `url` with the `FromStr` of `hyper::Uri`, and gives the text that its
/// `Display` then writes.
///
/// That text differs from `url` at most in that an absolute URI gets a `/`
/// behind its authority where there was none, so that parsing it again gives it
/// back. An empty text is refused. Which other texts are refused, and with which
/// error, is for the name `parsed_uri` to say.
#[verifier::external_body]
pub(crate) fn parse_uri(url: &str) -> (r: Result<String, UriError>)
    ensures
        match r {
            Ok(text) => {
                &&& parsed_uri(url@) == Ok::<Seq<char>, UriError>(text@)
                &&& parsed_uri(text@) == Ok::<Seq<char>, UriError>(text@)
                &&& same_address(url@, text@)
                &&& url@.len() > 0
            },
            Err(e) => parsed_uri(url@) == Err::<Seq<char>, UriError>(e),
        },
{
    url.parse::<hyper::Uri>().map(|uri| uri.to_string())
}

} // verus!
