//! The library's errors.
use vstd::prelude::*;
use crate::command::ExitStatus;
use crate::types::ParseSELinuxTypeError;

verus! {

/// A process that ended badly: how it ended and what it wrote.
#[derive(Debug, Clone, PartialEq, Eq)]
pub struct CmdError {
    pub status: Option<ExitStatus>,
    pub stdout: Vec<u8>,
    pub stderr: Vec<u8>,
}

/// Everything that can go wrong in the library.
#[derive(Debug, Clone, PartialEq, Eq)]
pub enum AdbError {
    /// A device address that does not fit the operation.
    InvalidDeviceAddressError(String),
    /// `adb connect` did not leave the device connected.
    ConnectToDeviceError,
    /// A field the output was expected to hold is absent.
    NameNotFoundError(String),
    /// Text that should have been a decimal number is not one, or does not fit.
    ParseIntError,
    /// Output that is not valid UTF-8 (`errno` code of the failed conversion).
    Errno(i32),
    /// A process that failed.
    CmdError(CmdError),
    /// A settings listing that is not a valid properties text.
    PropertiesError(String),
    /// An SELinux mode that could not be read.
    ParseSELinuxTypeError(ParseSELinuxTypeError),
    /// A device description that could not be read.
    InvalidDeviceError(String),
    /// Output that does not have the expected shape.
    ParseInputError,
    /// A value that could not be read, with the reason.
    ParseError(String),
    /// A package that is not installed.
    PackageNotFoundError(String),
    /// A needed program or file that is absent.
    NotFound,
    /// A value outside the words the operation knows.
    InvalidInput,
    /// An image that could not be decoded, with the decoder's message.
    ImageError(String),
    /// Output that should have been read as UTF-8 lines and is not.
    InvalidData,
    /// The `adb` executable was not found, with the lookup's message.
    WhichError(String),
    /// A MAC address that could not be read.
    MacParseError,
    /// A UUID that could not be read.
    UuidError,
    /// Anything else.
    Unknown(String),
}

impl CmdError {
    /// A failure with its status and the message the process wrote.
    pub fn from_err(status: ExitStatus, msg: Vec<u8>) -> (e: CmdError)
        ensures
            e.status == Some(status),
            e.stdout@.len() == 0,
            e.stderr@ == msg@,
    {
        CmdError { status: Some(status), stdout: Vec::new(), stderr: msg }
    }

    /// The exit code of the failed process, when it exited.
    pub fn exit_code(&self) -> (r: Option<i32>)
        ensures
            r == match self.status {
                Some(s) => s.code,
                None => None,
            },
    {
        match self.status {
            Some(s) => s.code,
            None => None,
        }
    }

    /// The signal that stopped the failed process, when one did.
    pub fn exit_signal(&self) -> (r: Option<i32>)
        ensures
            r == match self.status {
                Some(s) => s.signal,
                None => None,
            },
    {
        match self.status {
            Some(s) => s.signal,
            None => None,
        }
    }
}

/// The outcome of a library operation.
pub type Result<T> = core::result::Result<T, AdbError>;

} // verus!
