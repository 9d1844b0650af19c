//! Ports to the native layer.
//!
//! Every foreign call the recorder logic depends on is reached through
//! one of these traits, over plain values only: statuses, integers,
//! decoded strings and sample buffers. An adapter that performs the
//! real dynamic-library calls implements them outside the verified
//! crate; a deterministic double can implement them for tests. Nothing
//! is assumed of an implementation: the logic in this crate is proved
//! for every value a port may hand back.

use vstd::prelude::*;

use crate::status::PvRecorderStatus;

verus! {

/// The native entry points that operate on one capture session.
///
/// A port owns whatever stands behind the calls: the loaded library,
/// the resolved entry points and the native handle that `init`
/// creates. It must release the native session exactly once, when it
/// is dropped.
pub trait NativeSession: Sized {
    /// Creates the native session from the three configuration values.
    /// Returns the reported status, and whether a non-null handle came
    /// back through the out-parameter.
    fn init(&self, frame_length: i32, device_index: i32, buffered_frames_count: i32) -> (
        PvRecorderStatus,
        bool,
    );

    /// Starts capturing.
    fn start(&self) -> PvRecorderStatus;

    /// Stops capturing.
    fn stop(&self) -> PvRecorderStatus;

    /// Blocks until one frame of `frame_length` samples is available
    /// and returns it beside the reported status.
    fn read_frame(&self, frame_length: usize) -> (PvRecorderStatus, Vec<i16>);

    /// Sets debug logging; the flag travels as a native integer.
    fn set_debug_logging(&self, flag: i32);

    /// Returns the native truth value for "currently recording".
    fn get_is_recording(&self) -> i32;

    /// Returns the selected device name, or `None` when the native
    /// string is not valid text.
    fn get_selected_device(&self) -> Option<String>;

    /// Returns the sample rate the native layer captures at.
    fn sample_rate(&self) -> i32;

    /// Returns the native library version, or `None` when the native
    /// string is not valid text.
    fn version(&self) -> Option<String>;
}

/// The native entry point that enumerates capture devices.
///
/// An implementation copies each native name into an owned string
/// (`None` where a name is not valid text) and must always release the
/// native list itself, whatever it returns.
pub trait NativeDeviceList: Sized {
    /// Returns the reported status and one entry per native device.
    fn get_available_devices(&self) -> (PvRecorderStatus, Vec<Option<String>>);
}

/// A source of native symbols, as a dynamic library offers them.
///
/// `resolve` reports whether the named entry point exists; an adapter
/// also keeps the resolved symbol for later calls.
pub trait SymbolSource: Sized {
    /// Attempts to resolve one exported name.
    fn resolve(&mut self, name: &str) -> bool;
}

/// Decodes a native truth value: any nonzero integer means true.
pub fn native_bool(value: i32) -> (r: bool)
    ensures
        r == (value != 0),
{
    value != 0
}

/// Encodes a flag for the native boolean-as-integer convention.
pub fn native_flag(value: bool) -> (r: i32)
    ensures
        r == (if value {
            1int
        } else {
            0int
        }),
{
    if value {
        1
    } else {
        0
    }
}

} // verus!
