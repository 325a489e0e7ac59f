use vstd::prelude::*;

verus! {

/// Coarse classification of an exchange error for upstream handling.
#[derive(Debug, Clone, Copy, PartialEq, Eq, Structural)]
pub enum ErrorKind {
    /// No card answered: the expected outcome while polling an empty field.
    NoResponse,
    /// A genuine protocol or hardware fault.
    Other,
}

/// Faults of one frame exchange.
#[derive(Debug, Clone, Copy, PartialEq, Eq, Structural)]
pub enum Error {
    Timeout,
    Framing,
    FramingLastByteMissingParity,
    Crc,
    Collision,
    Parity,
    ResponseTooShort,
    ResponseTooLong,
    FifoOverflow,
    FifoUnderflow,
}

/// Failures of acquiring the RF field in ISO14443A mode.
#[derive(Debug, Clone, Copy, PartialEq, Eq, Structural)]
pub enum StartError {
    FieldCollision,
    Timeout,
    Protocol,
}

impl Error {
    /// `Timeout` means no response; every other error is a genuine fault.
    pub fn kind(&self) -> (r: ErrorKind)
        ensures
            (r == ErrorKind::NoResponse) <==> (*self == Error::Timeout),
    {
        match self {
            Error::Timeout => ErrorKind::NoResponse,
            _ => ErrorKind::Other,
        }
    }
}

} // verus!
