//! Errors for EZO sensor chips.
use vstd::prelude::*;

verus! {

/// Every way in which building, sending or decoding a command can fail.
#[derive(Copy, Clone, Debug, PartialEq, Eq, Structural)]
pub enum ErrorKind {
    /// The text of a `Baud` command is malformed.
    BaudParse,
    /// The baud rate is not one of the rates the chip accepts.
    BpsRateParse,
    /// The text of a command is malformed.
    CommandParse,
    /// The chip rejected the command.
    DeviceErrorResponse,
    /// The reply could not be read from the bus.
    I2CRead,
    /// The reply is not a nul-terminated ASCII string, or its status byte is unknown.
    MalformedResponse,
    /// The chip has no data for this command.
    NoDataExpectedResponse,
    /// The chip has not finished processing the command.
    PendingResponse,
    /// The payload does not follow the grammar of the expected response.
    ResponseParse,
    /// The command could not be read.
    UnreadableCommand,
    /// The command could not be written to the bus.
    UnwritableCommand,
}

/// An error of this library: the kind of failure.
#[derive(Copy, Clone, Debug, PartialEq, Eq, Structural)]
pub struct EzoError {
    pub kind: ErrorKind,
}

impl EzoError {
    /// The kind of failure.
    pub fn kind(&self) -> (k: ErrorKind)
        ensures
            k == self.kind,
    {
        self.kind
    }
}

impl From<ErrorKind> for EzoError {
    fn from(kind: ErrorKind) -> (e: EzoError) {
        EzoError { kind }
    }
}

impl vstd::std_specs::convert::FromSpecImpl<ErrorKind> for EzoError {
    open spec fn obeys_from_spec() -> bool {
        true
    }

    open spec fn from_spec(kind: ErrorKind) -> EzoError {
        EzoError { kind }
    }
}

/// Shorthand for the results of this library.
pub type Result<T> = core::result::Result<T, EzoError>;

/// The error value of the given kind.
pub open spec fn err_of<T>(kind: ErrorKind) -> Result<T> {
    Err(EzoError { kind })
}

} // verus!
