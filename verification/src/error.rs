//! The errors of the auditing suite.
use vstd::prelude::*;

verus! {

/// `std::io::Error`, carried through unchanged.
#[verifier::external_type_specification]
#[verifier::external_body]
pub struct ExIoError(std::io::Error);

/// What can go wrong while auditing.
#[derive(Debug)]
pub enum MsasError {
    Io(std::io::Error),
    Parse(String),
    Ftp(String),
    ScriptFailed(String),
    Other(String),
}

/// The text that `Display` on an I/O error gives.  What it says comes from the
/// operating system, so nothing is stated of it.
#[verifier::external_body]
fn io_error_text(e: &std::io::Error) -> String {
    e.to_string()
}

/// The message of an error that carries a text, by its kind.
pub open spec fn error_message(e: MsasError) -> Seq<char> {
    match e {
        MsasError::Io(_) => "I/O Error occurred: "@,
        MsasError::Parse(s) => "Failed to parse: "@ + s@,
        MsasError::Ftp(s) => "FTP error occurred: "@ + s@,
        MsasError::ScriptFailed(s) => "Script failed: "@ + s@,
        MsasError::Other(s) => "Error occurred: "@ + s@,
    }
}

impl MsasError {
    /// The message that describes the error.  For an I/O error it is the
    /// prefix followed by the operating system's description.
    pub fn message(&self) -> (r: String)
        ensures
            !(self is Io) ==> r@ == error_message(*self),
            self is Io ==> error_message(*self).is_prefix_of(r@),
    {
        match self {
            MsasError::Io(e) => {
                let text = io_error_text(e);
                let r = String::from_str("I/O Error occurred: ").concat(text.as_str());
                r
            },
            MsasError::Parse(s) => String::from_str("Failed to parse: ").concat(s.as_str()),
            MsasError::Ftp(s) => String::from_str("FTP error occurred: ").concat(s.as_str()),
            MsasError::ScriptFailed(s) => String::from_str("Script failed: ").concat(s.as_str()),
            MsasError::Other(s) => String::from_str("Error occurred: ").concat(s.as_str()),
        }
    }
}

impl From<std::io::Error> for MsasError {
    fn from(value: std::io::Error) -> (r: Self) {
        MsasError::Io(value)
    }
}

impl vstd::std_specs::convert::FromSpecImpl<std::io::Error> for MsasError {
    open spec fn obeys_from_spec() -> bool {
        true
    }

    open spec fn from_spec(v: std::io::Error) -> Self {
        MsasError::Io(v)
    }
}

} // verus!
