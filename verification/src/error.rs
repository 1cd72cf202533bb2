//! The errors of fetching, and what they say to a reader.
use futures::sync::oneshot::Canceled;
use hyper::error::UriError;
use hyper::Error as HttpError;
use vstd::prelude::*;
use vstd::std_specs::convert::FromSpecImpl;
use vstd::string::to_string_from_display_ensures;

verus! {

/// `std::io::Error`, carried as it came from the operating system or from a
/// reader. Nothing inside it is looked at.
#[verifier::external_type_specification]
#[verifier::external_body]
pub struct ExIoError(std::io::Error);

/// `hyper::Error`, carried as hyper raised it. Nothing inside it is looked at.
#[verifier::external_type_specification]
#[verifier::external_body]
pub struct ExHyperError(HttpError);

/// `hyper::error::UriError`, carried as hyper raised it. Nothing inside it is
/// looked at.
#[verifier::external_type_specification]
#[verifier::external_body]
pub struct ExUriError(hyper::error::UriError);

/// `futures::sync::oneshot::Canceled`, which holds nothing.
#[verifier::external_type_specification]
#[verifier::external_body]
pub struct ExCanceled(futures::sync::oneshot::Canceled);

/// The kinds of I/O error that fetching raises by itself.
#[derive(Clone, Copy, Debug, PartialEq, Eq, Structural)]
pub enum ErrorKind {
    ConnectionAborted,
    PermissionDenied,
    TimedOut,
    Other,
}

/// An I/O error.
#[derive(Debug)]
pub enum IoError {
    /// One that fetching raised itself.
    Raised { kind: ErrorKind, message: &'static str },
    /// One that came from outside.
    System(std::io::Error),
}

/// An error of the HTTP layer.
#[derive(Debug)]
pub enum HyperError {
    /// The HTTP layer failed on an I/O error.
    Io(IoError),
    /// One that hyper raised.
    Hyper(HttpError),
}

/// What an error is that is none of the other kinds.
pub enum OtherError {
    /// Something that this text says.
    Text(String),
    /// The channel on which a reply was to come was dropped.
    Canceled(Canceled),
}

/// Fetch related error cases.
pub enum Error {
    /// Error produced by hyper.
    Hyper(HyperError),
    /// I/O error
    Io(IoError),
    /// URI parse error
    Uri(UriError),
    /// Request aborted
    Aborted,
    /// Some other error
    Other(OtherError),
}

impl IoError {
    /// Whether this is an error that fetching raised, of this kind and with
    /// this text.
    pub open spec fn is_raised(self, kind: ErrorKind, text: Seq<char>) -> bool {
        self matches IoError::Raised { kind: k, message: m } && k == kind && m@ == text
    }

    /// Whether `text` is what the error says to a reader.
    pub open spec fn says(self, text: String) -> bool {
        match self {
            IoError::Raised { message, .. } => text@ == message@,
            IoError::System(e) => to_string_from_display_ensures::<std::io::Error>(&e, text),
        }
    }

    /// The text of the error.
    pub fn message(&self) -> (text: String)
        ensures
            self.says(text),
    {
        match self {
            IoError::Raised { message, .. } => (*message).to_owned(),
            IoError::System(e) => e.to_string(),
        }
    }
}

impl HyperError {
    /// Whether `text` is what the error says to a reader.
    pub open spec fn says(self, text: String) -> bool {
        match self {
            HyperError::Io(e) => e.says(text),
            HyperError::Hyper(e) => to_string_from_display_ensures::<HttpError>(&e, text),
        }
    }

    /// The text of the error.
    pub fn message(&self) -> (text: String)
        ensures
            self.says(text),
    {
        match self {
            HyperError::Io(e) => e.message(),
            HyperError::Hyper(e) => e.to_string(),
        }
    }
}

impl OtherError {
    /// Whether `text` is what the error says to a reader.
    pub open spec fn says(self, text: String) -> bool {
        match self {
            OtherError::Text(t) => text@ == t@,
            OtherError::Canceled(_) => text@ == "oneshot canceled"@,
        }
    }

    /// The text of the error.
    pub fn message(&self) -> (text: String)
        ensures
            self.says(text),
    {
        match self {
            OtherError::Text(t) => t.clone(),
            OtherError::Canceled(e) => canceled_text(e),
        }
    }
}

impl Error {
    /// Whether this is the error with no more to it than this text.
    pub open spec fn is_other(self, text: Seq<char>) -> bool {
        self matches Error::Other(OtherError::Text(t)) && t@ == text
    }

    /// Whether `text` is what the error says to a reader.
    pub open spec fn says(self, text: String) -> bool {
        match self {
            Error::Aborted => text@ == "The request has been aborted."@,
            Error::Hyper(e) => e.says(text),
            Error::Uri(e) => to_string_from_display_ensures::<UriError>(&e, text),
            Error::Io(e) => e.says(text),
            Error::Other(e) => e.says(text),
        }
    }

    /// The text of the error.
    pub fn message(&self) -> (text: String)
        ensures
            self.says(text),
    {
        match self {
            Error::Aborted => "The request has been aborted.".to_owned(),
            Error::Hyper(e) => e.message(),
            Error::Uri(e) => e.to_string(),
            Error::Io(e) => e.message(),
            Error::Other(e) => e.message(),
        }
    }
}

/// The text of `futures::sync::oneshot::Canceled`, through its `Display`: it
/// writes the same words whenever it is asked.
#[verifier::external_body]
fn canceled_text(e: &Canceled) -> (text: String)
    ensures
        text@ == "oneshot canceled"@,
{
    e.to_string()
}

impl FromSpecImpl<Canceled> for Error {
    open spec fn obeys_from_spec() -> bool {
        true
    }

    open spec fn from_spec(e: Canceled) -> Self {
        Error::Other(OtherError::Canceled(e))
    }
}

impl From<Canceled> for Error {
    fn from(e: Canceled) -> (r: Self) {
        Error::Other(OtherError::Canceled(e))
    }
}

impl FromSpecImpl<HttpError> for Error {
    open spec fn obeys_from_spec() -> bool {
        true
    }

    open spec fn from_spec(e: HttpError) -> Self {
        Error::Hyper(HyperError::Hyper(e))
    }
}

impl From<HttpError> for Error {
    fn from(e: HttpError) -> (r: Self) {
        Error::Hyper(HyperError::Hyper(e))
    }
}

impl FromSpecImpl<std::io::Error> for Error {
    open spec fn obeys_from_spec() -> bool {
        true
    }

    open spec fn from_spec(e: std::io::Error) -> Self {
        Error::Io(IoError::System(e))
    }
}

impl From<std::io::Error> for Error {
    fn from(e: std::io::Error) -> (r: Self) {
        Error::Io(IoError::System(e))
    }
}

impl FromSpecImpl<UriError> for Error {
    open spec fn obeys_from_spec() -> bool {
        true
    }

    open spec fn from_spec(e: UriError) -> Self {
        Error::Uri(e)
    }
}

impl From<UriError> for Error {
    fn from(e: UriError) -> (r: Self) {
        Error::Uri(e)
    }
}

} // verus!
