//! The numbers by which the C interface reports failures.
use libc::{c_int, ssize_t};
use quiche::Error;
use vstd::prelude::*;

verus! {

/// Failures that the interface finds itself.
#[derive(Clone, Copy, Debug, PartialEq, Eq, Structural)]
pub enum DtpError {
    /// The connection is not ready for data yet.
    DtpNotEstablished,
    /// A pointer is null.
    DtpNull,
    /// Any other failure.
    DtpDefaultErr,
}

impl DtpError {
    /// The number of the failure.
    pub open spec fn spec_code(self) -> int {
        match self {
            DtpError::DtpNotEstablished => -42,
            DtpError::DtpNull => -404,
            DtpError::DtpDefaultErr => -444,
        }
    }

    /// The number of the failure.
    pub fn code(self) -> (code: c_int)
        ensures
            code == self.spec_code(),
    {
        match self {
            DtpError::DtpNotEstablished => -42,
            DtpError::DtpNull => -404,
            DtpError::DtpDefaultErr => -444,
        }
    }
}

/// The number of a failure of the transport.
pub open spec fn error_code(e: Error) -> int {
    match e {
        Error::Done => -1,
        Error::BufferTooShort => -2,
        Error::UnknownVersion => -3,
        Error::InvalidFrame => -4,
        Error::InvalidPacket => -5,
        Error::InvalidState => -6,
        Error::InvalidStreamState(_) => -7,
        Error::InvalidTransportParam => -8,
        Error::CryptoFail => -9,
        Error::TlsFail => -10,
        Error::FlowControl => -11,
        Error::StreamLimit => -12,
        Error::FinalSize => -13,
        Error::CongestionControl => -14,
        Error::StreamStopped(_) => -15,
        Error::StreamReset(_) => -16,
    }
}

/// The number of a failure of the transport.
pub fn error_to_c(e: Error) -> (code: ssize_t)
    ensures
        code == error_code(e),
        -16 <= code <= -1,
{
    match e {
        Error::Done => -1,
        Error::BufferTooShort => -2,
        Error::UnknownVersion => -3,
        Error::InvalidFrame => -4,
        Error::InvalidPacket => -5,
        Error::InvalidState => -6,
        Error::InvalidStreamState(_) => -7,
        Error::InvalidTransportParam => -8,
        Error::CryptoFail => -9,
        Error::TlsFail => -10,
        Error::FlowControl => -11,
        Error::StreamLimit => -12,
        Error::FinalSize => -13,
        Error::CongestionControl => -14,
        Error::StreamStopped(_) => -15,
        Error::StreamReset(_) => -16,
    }
}

/// Whether two failures of the transport are of the same kind, whatever stream
/// or peer code they carry.
pub open spec fn same_kind(a: Error, b: Error) -> bool {
    match (a, b) {
        (Error::InvalidStreamState(_), Error::InvalidStreamState(_)) => true,
        (Error::StreamStopped(_), Error::StreamStopped(_)) => true,
        (Error::StreamReset(_), Error::StreamReset(_)) => true,
        _ => a == b,
    }
}

/// A number tells its failure apart: failures of the transport share a number
/// exactly if they are of the same kind, and the failures of the interface have
/// numbers of their own.
pub proof fn codes_tell_failures_apart(a: Error, b: Error, own: DtpError, other: DtpError)
    ensures
        error_code(a) == error_code(b) <==> same_kind(a, b),
        own.spec_code() == other.spec_code() <==> own == other,
        error_code(a) != own.spec_code(),
{
}

/// A failure is never taken for a success: its number is below zero.
pub proof fn failures_are_negative(e: Error, own: DtpError)
    ensures
        error_code(e) < 0,
        own.spec_code() < 0,
{
}

/// Each kind of failure has its own fixed number.
pub proof fn numbers_of_failures(e: Error)
    ensures
        error_code(e) == -1 <==> e is Done,
        error_code(e) == -2 <==> e is BufferTooShort,
        error_code(e) == -3 <==> e is UnknownVersion,
        error_code(e) == -4 <==> e is InvalidFrame,
        error_code(e) == -5 <==> e is InvalidPacket,
        error_code(e) == -6 <==> e is InvalidState,
        error_code(e) == -7 <==> e is InvalidStreamState,
        error_code(e) == -8 <==> e is InvalidTransportParam,
        error_code(e) == -9 <==> e is CryptoFail,
        error_code(e) == -10 <==> e is TlsFail,
        error_code(e) == -11 <==> e is FlowControl,
        error_code(e) == -12 <==> e is StreamLimit,
        error_code(e) == -13 <==> e is FinalSize,
        error_code(e) == -14 <==> e is CongestionControl,
        error_code(e) == -15 <==> e is StreamStopped,
        error_code(e) == -16 <==> e is StreamReset,
{
}

/// Each failure that the interface finds itself has its own fixed number.
pub proof fn numbers_of_own_failures(e: DtpError)
    ensures
        e.spec_code() == -42 <==> e is DtpNotEstablished,
        e.spec_code() == -404 <==> e is DtpNull,
        e.spec_code() == -444 <==> e is DtpDefaultErr,
{
}

} // verus!
