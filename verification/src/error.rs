//! What can go wrong with an encoder session, and how it is reported.

use vstd::prelude::*;
use vstd::std_specs::convert::FromSpecImpl;
use vstd::string::to_string_from_display_ensures;
use crate::decimal::{signed_decimal, signed_decimal_string};

verus! {

/// `std::io::Error`, the operating system's account of a failed spawn,
/// write or wait. Nothing is claimed of it: the library carries it from
/// the caller into [`Error::IOError`] and never looks inside.
#[verifier::external_type_specification]
#[verifier::external_body]
pub struct ExIoError(std::io::Error);

/// How the encoder process ended.
#[derive(Clone, Copy, Debug, PartialEq, Eq)]
pub struct ExitStatus {
    /// The exit code, or `None` where the platform gave none (the process
    /// was ended by a signal).
    pub code: Option<i32>,
}

impl ExitStatus {
    /// The status of a process that ended with `code`.
    pub fn new(code: Option<i32>) -> (status: ExitStatus)
        ensures
            status.code == code,
    {
        ExitStatus { code }
    }

    /// Whether the process ended normally and with exit code 0.
    pub open spec fn succeeded(self) -> bool {
        self.code == Some(0i32)
    }

    /// The exit code, if there is one.
    pub fn code(&self) -> (code: Option<i32>)
        ensures
            code == self.code,
    {
        self.code
    }

    /// Whether the process ended normally and with exit code 0.
    pub fn success(&self) -> (ok: bool)
        ensures
            ok == self.succeeded(),
    {
        match self.code {
            Some(code) => code == 0,
            None => false,
        }
    }
}

/// The error of every operation of this library that can fail.
#[derive(Debug)]
pub enum Error {
    /// The operating system refused to launch the encoder, to take bytes
    /// on its pipe, or to wait for it.
    IOError(std::io::Error),
    /// The encoder ended, but not with exit code 0.
    FFMpegExitedAbnormally(ExitStatus),
}

/// The result of every operation of this library that can fail.
pub type Result<T> = std::result::Result<T, Error>;

impl From<std::io::Error> for Error {
    fn from(e: std::io::Error) -> (error: Error) {
        Error::IOError(e)
    }
}

impl FromSpecImpl<std::io::Error> for Error {
    open spec fn obeys_from_spec() -> bool {
        true
    }

    open spec fn from_spec(e: std::io::Error) -> Error {
        Error::IOError(e)
    }
}

/// The message for an encoder that ended with `code`.
pub open spec fn exit_message(code: Option<i32>) -> Seq<char> {
    match code {
        Some(code) => "ffmpeg exited abnormally with code "@ + signed_decimal(code as int),
        None => "ffmpeg exited abnormally"@,
    }
}

/// The message for an input/output failure that the operating system
/// describes as `detail`.
pub open spec fn io_message(detail: Seq<char>) -> Seq<char> {
    "io error: "@ + detail
}

/// Writes the message for an encoder that ended with `status`.
pub fn describe_exit(status: ExitStatus) -> (text: String)
    ensures
        text@ == exit_message(status.code),
{
    match status.code {
        Some(code) => {
            let digits = signed_decimal_string(code as i64);
            "ffmpeg exited abnormally with code ".to_owned().concat(digits.as_str())
        },
        None => "ffmpeg exited abnormally".to_owned(),
    }
}

/// Writes the message for an input/output failure, given the operating
/// system's own description of it.
pub fn describe_io(detail: &str) -> (text: String)
    ensures
        text@ == io_message(detail@),
{
    "io error: ".to_owned().concat(detail)
}

impl Error {
    /// The message that describes this error to a person. For an
    /// input/output failure it ends with the text that the
    /// `std::io::Error` displays as.
    pub fn message(&self) -> (text: String)
        ensures
            match *self {
                Error::IOError(e) => exists|detail: String|
                    to_string_from_display_ensures::<std::io::Error>(&e, detail) && text@
                        == io_message(detail@),
                Error::FFMpegExitedAbnormally(status) => text@ == exit_message(status.code),
            },
    {
        match self {
            Error::IOError(e) => {
                let detail = e.to_string();
                describe_io(detail.as_str())
            },
            Error::FFMpegExitedAbnormally(status) => describe_exit(*status),
        }
    }
}

} // verus!
