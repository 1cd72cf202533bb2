//! The content type of a response.
use hyper::header::{ContentType, Headers};
use vstd::prelude::*;

verus! {

/// What a content type is made of: its whole text, and the names of its type
/// and subtype.
#[verifier::ext_equal]
pub struct MimeView {
    pub text: Seq<char>,
    pub type_: Seq<char>,
    pub subtype: Seq<char>,
}

/// A media type, as `text/html; charset=utf-8` is one.
#[derive(Debug)]
pub struct Mime {
    pub text: String,
    pub type_: String,
    pub subtype: String,
}

impl View for Mime {
    type V = MimeView;

    open spec fn view(&self) -> MimeView {
        MimeView { text: self.text@, type_: self.type_@, subtype: self.subtype@ }
    }
}

impl Clone for Mime {
    fn clone(&self) -> (r: Self)
        ensures
            r == *self,
    {
        Mime {
            text: self.text.clone(),
            type_: self.type_.clone(),
            subtype: self.subtype.clone(),
        }
    }
}

/// What `Headers::get` of hyper makes of a `Content-Type` header with these
/// lines: the text, the type and the subtype of the media type in it.
pub uninterp spec fn content_type_of(lines: Seq<Seq<u8>>) -> Option<
    (Seq<char>, Seq<char>, Seq<char>),
>;

/// The media type in a `Content-Type` header with these lines.
pub open spec fn media_type(lines: Seq<Seq<u8>>) -> Option<MimeView> {
    match content_type_of(lines) {
        Some((text, type_, subtype)) => Some(MimeView { text, type_, subtype }),
        None => None,
    }
}

/// The media type that `Headers::get` of hyper reads from the lines of a
/// `Content-Type` header. It reads none unless there is exactly one line.
#[verifier::external_body]
pub(crate) fn parse_content_type(lines: Vec<Vec<u8>>) -> (r: Option<Mime>)
    ensures
        match r {
            Some(mime) => content_type_of(lines.deep_view()) == Some(
                (mime.text@, mime.type_@, mime.subtype@),
            ),
            None => content_type_of(lines.deep_view()) is None,
        },
        lines@.len() != 1 ==> r is None,
{
    let mut headers = Headers::new();
    headers.set_raw("Content-Type", lines);
    headers.get::<ContentType>().map(|c| Mime {
        text: c.0.to_string(),
        type_: c.0.type_().to_string(),
        subtype: c.0.subtype().to_string(),
    })
}

/// The lower case of a letter of ASCII; any other character is left as it is.
pub open spec fn ascii_lower(c: char) -> char {
    if 'A' <= c <= 'Z' {
        ((c as u32) + 32) as char
    } else {
        c
    }
}

/// Whether two texts are the same but for the case of the letters of ASCII.
pub open spec fn same_but_for_case(a: Seq<char>, b: Seq<char>) -> bool {
    a.map_values(|c: char| ascii_lower(c)) == b.map_values(|c: char| ascii_lower(c))
}

impl MimeView {
    /// Whether this is a media type of the given type and subtype. The case of
    /// letters makes no difference to a name.
    pub open spec fn is(self, type_: Seq<char>, subtype: Seq<char>) -> bool {
        same_but_for_case(self.type_, type_) && same_but_for_case(self.subtype, subtype)
    }
}

fn to_lower(c: char) -> (r: char)
    ensures
        r == ascii_lower(c),
{
    if 'A' <= c && c <= 'Z' {
        (c as u8 + 32) as char
    } else {
        c
    }
}

fn eq_ignoring_case(a: &str, b: &str) -> (r: bool)
    ensures
        r == same_but_for_case(a@, b@),
{
    let ghost la = a@.map_values(|c: char| ascii_lower(c));
    let ghost lb = b@.map_values(|c: char| ascii_lower(c));
    let n: usize = a.unicode_len();
    if n != b.unicode_len() {
        assert(la.len() != lb.len());
        return false;
    }
    let mut i: usize = 0;
    while i < n
        invariant
            i <= n,
            n == a@.len(),
            n == b@.len(),
            la == a@.map_values(|c: char| ascii_lower(c)),
            lb == b@.map_values(|c: char| ascii_lower(c)),
            forall|j: int| 0 <= j < i ==> la[j] == lb[j],
        decreases n - i,
    {
        if to_lower(a.get_char(i)) != to_lower(b.get_char(i)) {
            assert(la[i as int] != lb[i as int]);
            return false;
        }
        i = i + 1;
    }
    assert(la =~= lb);
    true
}

impl Mime {
    /// Whether this is a media type of the given type and subtype, in whatever
    /// case their letters are.
    pub fn is(&self, type_: &str, subtype: &str) -> (r: bool)
        ensures
            r == self@.is(type_@, subtype@),
    {
        eq_ignoring_case(&self.type_, type_) && eq_ignoring_case(&self.subtype, subtype)
    }
}

} // verus!
