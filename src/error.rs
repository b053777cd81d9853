//! Failures of the dispatcher and the exceptions they become on the wire.
use modbus_core::Exception;
use vstd::prelude::*;

verus! {

/// Why a request could not be served.
#[derive(Debug, Clone, Copy, PartialEq, Eq, Structural)]
pub enum Error {
    /// Provided buffer is too small
    BufferTooSmall,
    /// Invalid resource address
    InvalidAddress,
    /// Invalid value
    InvalidValue,
    /// Request / function is not supported
    NotSupported,
    /// Application error
    Application,
}

/// The protocol exception that reports a failure.
pub open spec fn exception_for(err: Error) -> Exception {
    match err {
        Error::InvalidAddress => Exception::IllegalDataAddress,
        Error::InvalidValue => Exception::IllegalDataValue,
        Error::NotSupported => Exception::IllegalFunction,
        Error::Application => Exception::ServerDeviceFailure,
        Error::BufferTooSmall => Exception::ServerDeviceFailure,
    }
}

/// Map crate error codes to modbus exceptions.
pub fn map_exception(err: Error) -> (r: Exception)
    ensures
        r == exception_for(err),
{
    match err {
        Error::InvalidAddress => Exception::IllegalDataAddress,
        Error::InvalidValue => Exception::IllegalDataValue,
        Error::NotSupported => Exception::IllegalFunction,
        Error::Application | Error::BufferTooSmall => Exception::ServerDeviceFailure,
    }
}

} // verus!
