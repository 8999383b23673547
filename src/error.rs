use vstd::prelude::*;
use vstd::string::*;

verus! {

/// What can go wrong while getting a test account.
#[derive(Debug, Clone, PartialEq, Eq)]
pub enum Error {
    /// The tag is empty or holds a character outside `[A-Za-z0-9_-]`; holds the tag.
    InvalidTag(String),
    /// The configuration directory could not be resolved, or a cache file could
    /// not be read or written.
    StoreIo(String),
    /// A cache file exists but does not hold a valid account record.
    StoreDeserialize(String),
    /// The provider answered with a status other than `success`; holds the full message.
    UnexpectedResponse(String),
    /// The provider reported success but left out the username or the password.
    MissingAccountInfo,
    /// The request to the provider failed, or its reply could not be decoded.
    Transport(String),
}

/// What `{:?}` writes for a string.
pub uninterp spec fn debug_str_of(t: Seq<char>) -> Seq<char>;

/// Relies on std's `Debug` for `str`: the text in double quotes, with quotes,
/// backslashes and control characters escaped. Depends on the text alone.
#[verifier::external_body]
fn debug_str(t: &str) -> (r: String)
    ensures
        r@ == debug_str_of(t@),
{
    format!("{:?}", t)
}

pub open spec fn invalid_tag_text(tag: Seq<char>) -> Seq<char> {
    "invalid tag, tag must match [a-Z0-9_-]+ but got: "@ + debug_str_of(tag)
}

pub open spec fn store_io_text(detail: Seq<char>) -> Seq<char> {
    "could not access the account cache: "@ + detail
}

pub open spec fn store_deserialize_text(detail: Seq<char>) -> Seq<char> {
    "malformed account cache file: "@ + detail
}

pub open spec fn transport_text(detail: Seq<char>) -> Seq<char> {
    "request for a new account failed: "@ + detail
}

/// The human readable message of an error.
pub open spec fn error_text(e: Error) -> Seq<char> {
    match e {
        Error::InvalidTag(t) => invalid_tag_text(t@),
        Error::StoreIo(d) => store_io_text(d@),
        Error::StoreDeserialize(d) => store_deserialize_text(d@),
        Error::UnexpectedResponse(m) => m@,
        Error::MissingAccountInfo => "missing account info"@,
        Error::Transport(d) => transport_text(d@),
    }
}

impl Error {
    /// The human readable message of this error.
    pub fn message(&self) -> (r: String)
        ensures
            r@ == error_text(*self),
    {
        match self {
            Error::InvalidTag(t) => {
                let mut s = String::from_str("invalid tag, tag must match [a-Z0-9_-]+ but got: ");
                let quoted = debug_str(t.as_str());
                s.append(quoted.as_str());
                s
            },
            Error::StoreIo(d) => {
                let mut s = String::from_str("could not access the account cache: ");
                s.append(d.as_str());
                s
            },
            Error::StoreDeserialize(d) => {
                let mut s = String::from_str("malformed account cache file: ");
                s.append(d.as_str());
                s
            },
            Error::UnexpectedResponse(m) => m.clone(),
            Error::MissingAccountInfo => String::from_str("missing account info"),
            Error::Transport(d) => {
                let mut s = String::from_str("request for a new account failed: ");
                s.append(d.as_str());
                s
            },
        }
    }
}

} // verus!
