//! The ways in which running a script can fail, and how each is worded.

use std::string::FromUtf8Error;
use vstd::prelude::*;
use vstd::std_specs::convert::FromSpecImpl;
use vstd::string::StringExecFns;

verus! {

/// The error of `String::from_utf8`: it holds the bytes that are no UTF-8.
#[verifier::external_type_specification]
#[verifier::external_body]
pub struct ExFromUtf8Error(FromUtf8Error);

/// The error of an input or output operation of `std::io`.
#[verifier::external_type_specification]
#[verifier::external_body]
pub struct ExIoError(std::io::Error);

/// Why a script was not run to its end.
pub enum Error {
    /// The script did not run to its end.
    Error,
    /// The script is no UTF-8 text.
    InvalidString(FromUtf8Error),
    /// The script could not be read.
    IO(std::io::Error),
    /// No script was named.
    MissingArgument,
}

impl From<()> for Error {
    fn from(_e: ()) -> (error: Error) {
        Error::Error
    }
}

impl FromSpecImpl<()> for Error {
    open spec fn obeys_from_spec() -> bool {
        true
    }

    open spec fn from_spec(_e: ()) -> Error {
        Error::Error
    }
}

impl From<FromUtf8Error> for Error {
    fn from(e: FromUtf8Error) -> (error: Error) {
        Error::InvalidString(e)
    }
}

impl FromSpecImpl<FromUtf8Error> for Error {
    open spec fn obeys_from_spec() -> bool {
        true
    }

    open spec fn from_spec(e: FromUtf8Error) -> Error {
        Error::InvalidString(e)
    }
}

impl From<std::io::Error> for Error {
    fn from(e: std::io::Error) -> (error: Error) {
        Error::IO(e)
    }
}

impl FromSpecImpl<std::io::Error> for Error {
    open spec fn obeys_from_spec() -> bool {
        true
    }

    open spec fn from_spec(e: std::io::Error) -> Error {
        Error::IO(e)
    }
}

/// The text of `error` as `{:?}` formats it, by `format!`. Nothing is
/// claimed of the text.
#[verifier::external_body]
fn debug_utf8_error(error: &FromUtf8Error) -> (text: String) {
    format!("{:?}", error)
}

/// The text of `error` as `{:?}` formats it, by `format!`. Nothing is
/// claimed of the text: for an error of the operating system it holds the
/// system's own wording.
#[verifier::external_body]
fn debug_io_error(error: &std::io::Error) -> (text: String) {
    format!("{:?}", error)
}

/// The wording of an error that has an underlying error: what happened,
/// and in parentheses the underlying error.
pub open spec fn worded(what: Seq<char>, detail: Seq<char>) -> Seq<char> {
    what + " ("@ + detail + ")"@
}

/// Words an error that has an underlying error.
pub fn word(what: &str, detail: &str) -> (text: String)
    ensures
        text@ == worded(what@, detail@),
{
    let mut text = String::from_str(what);
    text.append(" (");
    text.append(detail);
    text.append(")");
    text
}

impl Error {
    /// What happened, without the underlying error.
    pub open spec fn what(self) -> Seq<char> {
        match self {
            Error::Error => "an unspecified error occurred"@,
            Error::InvalidString(_) => "an error occurred decoding a string"@,
            Error::IO(_) => "an input/output error occurred"@,
            Error::MissingArgument => "a required argument was omitted"@,
        }
    }

    /// Whether the error has an underlying error.
    pub open spec fn has_detail(self) -> bool {
        self is InvalidString || self is IO
    }

    /// The wording of the error for a reader: what happened, followed in
    /// parentheses by the underlying error where there is one.
    pub fn to_string(&self) -> (text: String)
        ensures
            !self.has_detail() ==> text@ == self.what(),
            self.has_detail() ==> exists|detail: Seq<char>| text@ == worded(self.what(), detail),
    {
        match self {
            Error::Error => String::from_str("an unspecified error occurred"),
            Error::InvalidString(error) => {
                let detail = debug_utf8_error(error);
                let text = word("an error occurred decoding a string", detail.as_str());
                assert(text@ == worded(self.what(), detail@));
                text
            },
            Error::IO(error) => {
                let detail = debug_io_error(error);
                let text = word("an input/output error occurred", detail.as_str());
                assert(text@ == worded(self.what(), detail@));
                text
            },
            Error::MissingArgument => String::from_str("a required argument was omitted"),
        }
    }
}

} // verus!
