//! The error taxonomy of the editor: initialization, byte-channel, and
//! line-processing failures. Each variant carries a human-readable detail
//! string supplied by whoever raised it.

use vstd::prelude::*;
use vstd::string::StringExecFns;

verus! {

/// Errors the editor can surface to its caller.
#[derive(Debug, PartialEq, Eq)]
pub enum Error {
    /// The terminal mode could not be captured or set at startup.
    InitFail(String),
    /// The output channel could not be flushed.
    IoFlush(String),
    /// The input byte channel failed or reached end-of-stream.
    IoRead(String),
    /// The output byte channel failed.
    IoWrite(String),
    /// The caller-supplied line processor reported failure.
    ProcessLine(String),
}

impl Error {
    /// A readable description: a fixed prefix for the variant, then the
    /// detail string.
    pub fn message(&self) -> (r: String)
        ensures
            match self {
                Error::InitFail(s) => r@ == "initialization failed: "@ + s@,
                Error::IoFlush(s) => r@ == "IO flush error: "@ + s@,
                Error::IoRead(s) => r@ == "IO read error: "@ + s@,
                Error::IoWrite(s) => r@ == "IO write error: "@ + s@,
                Error::ProcessLine(s) => r@ == "Process Line error: "@ + s@,
            },
    {
        match self {
            Error::InitFail(s) => String::from_str("initialization failed: ").concat(s.as_str()),
            Error::IoFlush(s) => String::from_str("IO flush error: ").concat(s.as_str()),
            Error::IoRead(s) => String::from_str("IO read error: ").concat(s.as_str()),
            Error::IoWrite(s) => String::from_str("IO write error: ").concat(s.as_str()),
            Error::ProcessLine(s) => String::from_str("Process Line error: ").concat(s.as_str()),
        }
    }
}

} // verus!
