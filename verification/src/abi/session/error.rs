//! Typed failures of Session ABI operations.

use vstd::prelude::*;

use crate::abi::session::abi::{status_code_value, PksSessionStatus, PksSessionStatusCode};
use crate::text::push_str;

verus! {

/// Why a Session ABI operation was refused.
#[derive(Clone, Copy, Debug, PartialEq, Eq, Structural)]
pub enum AbiError {
    NullArgument,
    UnsupportedAbiMajor,
    UnsupportedAbiMinor,
    InvalidStructSize,
    InvalidHandle,
    StaleHandle,
    NoCapacity,
    MisalignedPointer,
    InvalidArgument,
    ForeignHandle,
    InvalidLifecycleState,
    WouldBlock,
    BackendFailure,
    Cancelled,
    IndexOutOfRange,
}

/// The status code that reports each error.
pub open spec fn abi_error_code(error: AbiError) -> PksSessionStatusCode {
    match error {
        AbiError::NullArgument => PksSessionStatusCode::NullArgument,
        AbiError::UnsupportedAbiMajor => PksSessionStatusCode::UnsupportedAbiMajor,
        AbiError::UnsupportedAbiMinor => PksSessionStatusCode::UnsupportedAbiMinor,
        AbiError::InvalidStructSize => PksSessionStatusCode::InvalidStructSize,
        AbiError::InvalidHandle => PksSessionStatusCode::InvalidHandle,
        AbiError::StaleHandle => PksSessionStatusCode::StaleHandle,
        AbiError::NoCapacity => PksSessionStatusCode::NoCapacity,
        AbiError::MisalignedPointer => PksSessionStatusCode::MisalignedPointer,
        AbiError::InvalidArgument => PksSessionStatusCode::InvalidArgument,
        AbiError::ForeignHandle => PksSessionStatusCode::ForeignHandle,
        AbiError::InvalidLifecycleState => PksSessionStatusCode::InvalidLifecycleState,
        AbiError::WouldBlock => PksSessionStatusCode::WouldBlock,
        AbiError::BackendFailure => PksSessionStatusCode::BackendFailure,
        AbiError::Cancelled => PksSessionStatusCode::Cancelled,
        AbiError::IndexOutOfRange => PksSessionStatusCode::IndexOutOfRange,
    }
}

/// The human-readable text of each error.
pub open spec fn abi_error_text(error: AbiError) -> Seq<char> {
    match error {
        AbiError::NullArgument => "output pointer is null"@,
        AbiError::UnsupportedAbiMajor => "requested ABI major is unsupported"@,
        AbiError::UnsupportedAbiMinor => "requested ABI minor is newer than this engine"@,
        AbiError::InvalidStructSize => "record struct_size is smaller than required"@,
        AbiError::InvalidHandle => "handle is invalid"@,
        AbiError::StaleHandle => "handle is stale"@,
        AbiError::NoCapacity => "handle table has no free slot"@,
        AbiError::MisalignedPointer => "pointer alignment does not satisfy the record contract"@,
        AbiError::InvalidArgument => "argument is invalid"@,
        AbiError::ForeignHandle => "handle belongs to another engine"@,
        AbiError::InvalidLifecycleState => "operation is invalid for the current lifecycle state"@,
        AbiError::WouldBlock => "bounded queue is empty"@,
        AbiError::BackendFailure => "native Session engine operation failed"@,
        AbiError::Cancelled => "operation was cancelled"@,
        AbiError::IndexOutOfRange => "index is outside the bounded result"@,
    }
}

impl AbiError {
    /// The ABI status that reports this error, with a zero detail.
    pub fn status(self) -> (r: PksSessionStatus)
        ensures
            r.code == status_code_value(abi_error_code(self)),
            r.detail == 0,
    {
        let code = match self {
            AbiError::NullArgument => PksSessionStatusCode::NullArgument,
            AbiError::UnsupportedAbiMajor => PksSessionStatusCode::UnsupportedAbiMajor,
            AbiError::UnsupportedAbiMinor => PksSessionStatusCode::UnsupportedAbiMinor,
            AbiError::InvalidStructSize => PksSessionStatusCode::InvalidStructSize,
            AbiError::InvalidHandle => PksSessionStatusCode::InvalidHandle,
            AbiError::StaleHandle => PksSessionStatusCode::StaleHandle,
            AbiError::NoCapacity => PksSessionStatusCode::NoCapacity,
            AbiError::MisalignedPointer => PksSessionStatusCode::MisalignedPointer,
            AbiError::InvalidArgument => PksSessionStatusCode::InvalidArgument,
            AbiError::ForeignHandle => PksSessionStatusCode::ForeignHandle,
            AbiError::InvalidLifecycleState => PksSessionStatusCode::InvalidLifecycleState,
            AbiError::WouldBlock => PksSessionStatusCode::WouldBlock,
            AbiError::BackendFailure => PksSessionStatusCode::BackendFailure,
            AbiError::Cancelled => PksSessionStatusCode::Cancelled,
            AbiError::IndexOutOfRange => PksSessionStatusCode::IndexOutOfRange,
        };
        PksSessionStatus::new(code, 0)
    }

    /// The human-readable text of this error.
    pub fn message(&self) -> (r: String)
        ensures
            r@ == abi_error_text(*self),
    {
        let mut text = String::new();
        let line = match self {
            AbiError::NullArgument => "output pointer is null",
            AbiError::UnsupportedAbiMajor => "requested ABI major is unsupported",
            AbiError::UnsupportedAbiMinor => "requested ABI minor is newer than this engine",
            AbiError::InvalidStructSize => "record struct_size is smaller than required",
            AbiError::InvalidHandle => "handle is invalid",
            AbiError::StaleHandle => "handle is stale",
            AbiError::NoCapacity => "handle table has no free slot",
            AbiError::MisalignedPointer => "pointer alignment does not satisfy the record contract",
            AbiError::InvalidArgument => "argument is invalid",
            AbiError::ForeignHandle => "handle belongs to another engine",
            AbiError::InvalidLifecycleState => "operation is invalid for the current lifecycle state",
            AbiError::WouldBlock => "bounded queue is empty",
            AbiError::BackendFailure => "native Session engine operation failed",
            AbiError::Cancelled => "operation was cancelled",
            AbiError::IndexOutOfRange => "index is outside the bounded result",
        };
        push_str(&mut text, line);
        text
    }
}

} // verus!
