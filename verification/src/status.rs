//! Status codes reported by the native recorder entry points.

use vstd::prelude::*;

verus! {

/// Status codes returned by the native recorder library.
///
/// The native layer transmits these as plain integers; [`status_code`]
/// and [`status_from_code`] give the fixed correspondence.
#[derive(PartialEq, Eq, Structural, Clone, Copy, Debug)]
#[allow(non_camel_case_types)]
pub enum PvRecorderStatus {
    SUCCESS,
    OUT_OF_MEMORY,
    INVALID_ARGUMENT,
    INVALID_STATE,
    BACKEND_ERROR,
    DEVICE_ALREADY_INITIALIZED,
    DEVICE_NOT_INITIALIZED,
    IO_ERROR,
    RUNTIME_ERROR,
}

/// The integer value a status travels as across the native boundary.
pub open spec fn spec_status_code(s: PvRecorderStatus) -> int {
    match s {
        PvRecorderStatus::SUCCESS => 0,
        PvRecorderStatus::OUT_OF_MEMORY => 1,
        PvRecorderStatus::INVALID_ARGUMENT => 2,
        PvRecorderStatus::INVALID_STATE => 3,
        PvRecorderStatus::BACKEND_ERROR => 4,
        PvRecorderStatus::DEVICE_ALREADY_INITIALIZED => 5,
        PvRecorderStatus::DEVICE_NOT_INITIALIZED => 6,
        PvRecorderStatus::IO_ERROR => 7,
        PvRecorderStatus::RUNTIME_ERROR => 8,
    }
}

/// Translates a status into the integer the native ABI uses for it.
pub fn status_code(s: PvRecorderStatus) -> (code: i32)
    ensures
        code == spec_status_code(s),
{
    match s {
        PvRecorderStatus::SUCCESS => 0,
        PvRecorderStatus::OUT_OF_MEMORY => 1,
        PvRecorderStatus::INVALID_ARGUMENT => 2,
        PvRecorderStatus::INVALID_STATE => 3,
        PvRecorderStatus::BACKEND_ERROR => 4,
        PvRecorderStatus::DEVICE_ALREADY_INITIALIZED => 5,
        PvRecorderStatus::DEVICE_NOT_INITIALIZED => 6,
        PvRecorderStatus::IO_ERROR => 7,
        PvRecorderStatus::RUNTIME_ERROR => 8,
    }
}

/// Reads a native integer back into a status; unknown codes yield `None`.
pub fn status_from_code(code: i32) -> (s: Option<PvRecorderStatus>)
    ensures
        match s {
            Some(v) => spec_status_code(v) == code,
            None => forall|v: PvRecorderStatus| spec_status_code(v) != code,
        },
{
    if code == 0 {
        Some(PvRecorderStatus::SUCCESS)
    } else if code == 1 {
        Some(PvRecorderStatus::OUT_OF_MEMORY)
    } else if code == 2 {
        Some(PvRecorderStatus::INVALID_ARGUMENT)
    } else if code == 3 {
        Some(PvRecorderStatus::INVALID_STATE)
    } else if code == 4 {
        Some(PvRecorderStatus::BACKEND_ERROR)
    } else if code == 5 {
        Some(PvRecorderStatus::DEVICE_ALREADY_INITIALIZED)
    } else if code == 6 {
        Some(PvRecorderStatus::DEVICE_NOT_INITIALIZED)
    } else if code == 7 {
        Some(PvRecorderStatus::IO_ERROR)
    } else if code == 8 {
        Some(PvRecorderStatus::RUNTIME_ERROR)
    } else {
        None
    }
}

/// The status table is one-to-one: distinct statuses never share a
/// code, so a status travels across the boundary and back unchanged.
pub proof fn lemma_status_code_injective(a: PvRecorderStatus, b: PvRecorderStatus)
    requires
        spec_status_code(a) == spec_status_code(b),
    ensures
        a == b,
{
}

} // verus!
