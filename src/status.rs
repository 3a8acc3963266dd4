//! Host status codes and the error model they translate into.

use vstd::prelude::*;

verus! {

/// Status reported by every host operation.
#[derive(Clone, Copy, Debug, PartialEq, Eq, Structural)]
pub enum OakStatus {
    Unspecified,
    Success,
    ErrBadHandle,
    ErrInvalidArgs,
    ErrChannelClosed,
    ErrBufferTooSmall,
    ErrHandleSpaceTooSmall,
    ErrOutOfRange,
    ErrInternal,
}

/// Failure kinds surfaced by the channel layer: one per non-OK host status.
#[derive(Clone, Copy, Debug, PartialEq, Eq, Structural)]
pub enum OakError {
    /// The host reported the unspecified status, or a code outside the known range.
    Unspecified,
    BadHandle,
    InvalidArgs,
    ChannelClosed,
    BufferTooSmall,
    HandleSpaceTooSmall,
    OutOfRange,
    Internal,
}

/// The numeric code by which the host reports each status.
pub open spec fn status_code(s: OakStatus) -> i32 {
    match s {
        OakStatus::Unspecified => 0,
        OakStatus::Success => 1,
        OakStatus::ErrBadHandle => 2,
        OakStatus::ErrInvalidArgs => 3,
        OakStatus::ErrChannelClosed => 4,
        OakStatus::ErrBufferTooSmall => 5,
        OakStatus::ErrHandleSpaceTooSmall => 6,
        OakStatus::ErrOutOfRange => 7,
        OakStatus::ErrInternal => 8,
    }
}

/// The status whose code is `code`, if there is one.
pub open spec fn spec_status_from_i32(code: i32) -> Option<OakStatus> {
    if code == 0 {
        Some(OakStatus::Unspecified)
    } else if code == 1 {
        Some(OakStatus::Success)
    } else if code == 2 {
        Some(OakStatus::ErrBadHandle)
    } else if code == 3 {
        Some(OakStatus::ErrInvalidArgs)
    } else if code == 4 {
        Some(OakStatus::ErrChannelClosed)
    } else if code == 5 {
        Some(OakStatus::ErrBufferTooSmall)
    } else if code == 6 {
        Some(OakStatus::ErrHandleSpaceTooSmall)
    } else if code == 7 {
        Some(OakStatus::ErrOutOfRange)
    } else if code == 8 {
        Some(OakStatus::ErrInternal)
    } else {
        None
    }
}

/// The failure that each non-OK status stands for.
pub open spec fn error_of(s: OakStatus) -> OakError {
    match s {
        OakStatus::Unspecified => OakError::Unspecified,
        OakStatus::Success => OakError::Unspecified,
        OakStatus::ErrBadHandle => OakError::BadHandle,
        OakStatus::ErrInvalidArgs => OakError::InvalidArgs,
        OakStatus::ErrChannelClosed => OakError::ChannelClosed,
        OakStatus::ErrBufferTooSmall => OakError::BufferTooSmall,
        OakStatus::ErrHandleSpaceTooSmall => OakError::HandleSpaceTooSmall,
        OakStatus::ErrOutOfRange => OakError::OutOfRange,
        OakStatus::ErrInternal => OakError::Internal,
    }
}

/// Outcome of a host call that reported `status`: `val` on OK, the mapped failure
/// otherwise; an unrecognised status is the unspecified failure.
pub open spec fn spec_result_from_status<T>(status: Option<OakStatus>, val: T) -> Result<T, OakError> {
    match status {
        Some(OakStatus::Success) => Ok(val),
        Some(s) => Err(error_of(s)),
        None => Err(OakError::Unspecified),
    }
}

/// Outcome of a host call that reported the raw code `code`.
pub open spec fn spec_code_result(code: i32) -> Result<(), OakError> {
    spec_result_from_status(spec_status_from_i32(code), ())
}

impl OakStatus {
    /// The numeric code of this status.
    pub fn value(&self) -> (r: i32)
        ensures
            r == status_code(*self),
    {
        match self {
            OakStatus::Unspecified => 0,
            OakStatus::Success => 1,
            OakStatus::ErrBadHandle => 2,
            OakStatus::ErrInvalidArgs => 3,
            OakStatus::ErrChannelClosed => 4,
            OakStatus::ErrBufferTooSmall => 5,
            OakStatus::ErrHandleSpaceTooSmall => 6,
            OakStatus::ErrOutOfRange => 7,
            OakStatus::ErrInternal => 8,
        }
    }

    /// The status reported by the host code `code`, or `None` for an unknown code.
    pub fn from_i32(code: i32) -> (r: Option<OakStatus>)
        ensures
            r == spec_status_from_i32(code),
            r.is_none() <==> (code < 0 || code > 8),
            r matches Some(s) ==> status_code(s) == code,
    {
        let r = if code == 0 {
            Some(OakStatus::Unspecified)
        } else if code == 1 {
            Some(OakStatus::Success)
        } else if code == 2 {
            Some(OakStatus::ErrBadHandle)
        } else if code == 3 {
            Some(OakStatus::ErrInvalidArgs)
        } else if code == 4 {
            Some(OakStatus::ErrChannelClosed)
        } else if code == 5 {
            Some(OakStatus::ErrBufferTooSmall)
        } else if code == 6 {
            Some(OakStatus::ErrHandleSpaceTooSmall)
        } else if code == 7 {
            Some(OakStatus::ErrOutOfRange)
        } else if code == 8 {
            Some(OakStatus::ErrInternal)
        } else {
            None
        };
        r
    }
}

/// Map a host status to the outcome of the call that reported it.
pub fn result_from_status<T>(status: Option<OakStatus>, val: T) -> (r: Result<T, OakError>)
    ensures
        r == spec_result_from_status(status, val),
{
    match status {
        Some(OakStatus::Unspecified) => Err(OakError::Unspecified),
        Some(OakStatus::Success) => Ok(val),
        Some(OakStatus::ErrBadHandle) => Err(OakError::BadHandle),
        Some(OakStatus::ErrInvalidArgs) => Err(OakError::InvalidArgs),
        Some(OakStatus::ErrChannelClosed) => Err(OakError::ChannelClosed),
        Some(OakStatus::ErrBufferTooSmall) => Err(OakError::BufferTooSmall),
        Some(OakStatus::ErrHandleSpaceTooSmall) => Err(OakError::HandleSpaceTooSmall),
        Some(OakStatus::ErrOutOfRange) => Err(OakError::OutOfRange),
        Some(OakStatus::ErrInternal) => Err(OakError::Internal),
        None => Err(OakError::Unspecified),
    }
}

/// Map a raw host status code to the outcome of the call that reported it.
pub fn result_from_code(code: i32) -> (r: Result<(), OakError>)
    ensures
        r == spec_code_result(code),
{
    result_from_status(OakStatus::from_i32(code), ())
}

/// The mapping from host codes to outcomes is total and never coerces a failure
/// to success: only the OK code succeeds, each other known code gives its own
/// failure kind, and any code outside the known range gives the unspecified one.
pub proof fn lemma_status_mapping_total(code: i32)
    ensures
        spec_code_result(code) is Ok <==> code == 1,
        (code < 0 || code > 8) ==> spec_code_result(code) == Err::<(), OakError>(OakError::Unspecified),
        forall|a: OakStatus, b: OakStatus|
            a != OakStatus::Success && b != OakStatus::Success && #[trigger] error_of(a) == #[trigger] error_of(b)
                ==> a == b,
        forall|s: OakStatus|
            s != OakStatus::Success ==> #[trigger] spec_code_result(status_code(s)) == Err::<(), OakError>(error_of(s)),
{
}

} // verus!
