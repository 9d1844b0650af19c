//! Configuration and validation that precede any native call.

use vstd::prelude::*;

use crate::decimal::i32_decimal;
use crate::decimal::spec_decimal;
use crate::devices::decode_device_list;
use crate::error::PvRecorderError;
use crate::error::PvRecorderErrorStatus;
use crate::error::check_fn_call_status;
use crate::error::lemma_mentions_infix;
use crate::error::mentions;
use crate::error::spec_native_failure;
use crate::port::NativeDeviceList;
use crate::port::NativeSession;
use crate::recorder::PvRecorder;
use crate::recorder::PvRecorderInner;

verus! {

/// The device index that selects the system default device.
pub const DEFAULT_DEVICE_INDEX: i32 = -1;

/// The frame length a builder starts with.
pub const DEFAULT_FRAME_LENGTH: i32 = 512;

/// The buffered frame count a builder starts with.
pub const DEFAULT_BUFFERED_FRAMES_COUNT: i32 = 50;

/// The message rejecting a non-positive frame length.
pub open spec fn spec_frame_length_message(value: int) -> Seq<char> {
    "frame_length must be greater than 0, got: "@ + spec_decimal(value)
}

/// The message rejecting a device index below -1.
pub open spec fn spec_device_index_message(value: int) -> Seq<char> {
    "device_index must be >= -1, got: "@ + spec_decimal(value)
}

/// The message rejecting a non-positive buffered frame count.
pub open spec fn spec_buffered_frames_count_message(value: int) -> Seq<char> {
    "buffered_frames_count must be greater than 0, got: "@ + spec_decimal(value)
}

/// Builder for recorder handles: accumulates the configuration and
/// validates it before any native call is made.
pub struct PvRecorderBuilder {
    frame_length: i32,
    device_index: i32,
    buffered_frames_count: i32,
    library_path: String,
}

impl PvRecorderBuilder {
    /// The configured frame length.
    pub closed spec fn spec_frame_length(&self) -> i32 {
        self.frame_length
    }

    /// The configured device index.
    pub closed spec fn spec_device_index(&self) -> i32 {
        self.device_index
    }

    /// The configured buffered frame count.
    pub closed spec fn spec_buffered_frames_count(&self) -> i32 {
        self.buffered_frames_count
    }

    /// The configured library path.
    pub closed spec fn spec_library_path(&self) -> Seq<char> {
        self.library_path@
    }

    /// A configuration the native layer accepts: a positive frame
    /// length, a device index of -1 (the system default) or above, and
    /// a positive buffered frame count.
    pub open spec fn spec_valid(&self) -> bool {
        &&& self.spec_frame_length() > 0
        &&& self.spec_device_index() >= -1
        &&& self.spec_buffered_frames_count() > 0
    }

    /// Creates a new builder with the specified frame length. The
    /// library path starts empty; the embedding application supplies
    /// the platform-specific location through [`Self::library_path`].
    pub fn new(frame_length: i32) -> (r: Self)
        ensures
            r.spec_frame_length() == frame_length,
            r.spec_device_index() == DEFAULT_DEVICE_INDEX,
            r.spec_buffered_frames_count() == DEFAULT_BUFFERED_FRAMES_COUNT,
            r.spec_library_path() == Seq::<char>::empty(),
    {
        Self {
            frame_length,
            device_index: DEFAULT_DEVICE_INDEX,
            buffered_frames_count: DEFAULT_BUFFERED_FRAMES_COUNT,
            library_path: String::new(),
        }
    }

    /// Sets the frame length (number of samples per read).
    pub fn frame_length(self, frame_length: i32) -> (r: Self)
        ensures
            r.spec_frame_length() == frame_length,
            r.spec_device_index() == self.spec_device_index(),
            r.spec_buffered_frames_count() == self.spec_buffered_frames_count(),
            r.spec_library_path() == self.spec_library_path(),
    {
        let mut updated = self;
        updated.frame_length = frame_length;
        updated
    }

    /// Sets the audio device index; -1 selects the system default.
    pub fn device_index(self, device_index: i32) -> (r: Self)
        ensures
            r.spec_device_index() == device_index,
            r.spec_frame_length() == self.spec_frame_length(),
            r.spec_buffered_frames_count() == self.spec_buffered_frames_count(),
            r.spec_library_path() == self.spec_library_path(),
    {
        let mut updated = self;
        updated.device_index = device_index;
        updated
    }

    /// Sets the number of frames the native layer buffers internally.
    pub fn buffered_frames_count(self, buffered_frames_count: i32) -> (r: Self)
        ensures
            r.spec_buffered_frames_count() == buffered_frames_count,
            r.spec_frame_length() == self.spec_frame_length(),
            r.spec_device_index() == self.spec_device_index(),
            r.spec_library_path() == self.spec_library_path(),
    {
        let mut updated = self;
        updated.buffered_frames_count = buffered_frames_count;
        updated
    }

    /// Sets the path the native recorder library is loaded from.
    pub fn library_path(self, library_path: &str) -> (r: Self)
        ensures
            r.spec_library_path() == library_path@,
            r.spec_frame_length() == self.spec_frame_length(),
            r.spec_device_index() == self.spec_device_index(),
            r.spec_buffered_frames_count() == self.spec_buffered_frames_count(),
    {
        let mut updated = self;
        updated.library_path = library_path.to_owned();
        updated
    }

    /// Reads back the configured library path, for the adapter that
    /// performs the load.
    pub fn get_library_path(&self) -> (r: &str)
        ensures
            r@ == self.spec_library_path(),
    {
        self.library_path.as_str()
    }

    /// Validates the configuration and, only when every field passes,
    /// creates a recorder over `port`. A rejected field produces an
    /// `ArgumentError` naming it and its value, before any native
    /// call; the fields are checked in the order frame length, device
    /// index, buffered frame count.
    pub fn init<T: NativeSession>(&self, port: T) -> (r: Result<PvRecorder<T>, PvRecorderError>)
        ensures
            self.spec_frame_length() <= 0 ==> r is Err && {
                &&& (r->Err_0).spec_status() is ArgumentError
                &&& (r->Err_0).spec_message() == spec_frame_length_message(
                    self.spec_frame_length() as int,
                )
                &&& mentions((r->Err_0).spec_message(), "frame_length"@)
            },
            self.spec_frame_length() > 0 && self.spec_device_index() < -1 ==> r is Err && {
                &&& (r->Err_0).spec_status() is ArgumentError
                &&& (r->Err_0).spec_message() == spec_device_index_message(
                    self.spec_device_index() as int,
                )
                &&& mentions((r->Err_0).spec_message(), "device_index"@)
            },
            self.spec_frame_length() > 0 && self.spec_device_index() >= -1
                && self.spec_buffered_frames_count() <= 0 ==> r is Err && {
                &&& (r->Err_0).spec_status() is ArgumentError
                &&& (r->Err_0).spec_message() == spec_buffered_frames_count_message(
                    self.spec_buffered_frames_count() as int,
                )
                &&& mentions((r->Err_0).spec_message(), "buffered_frames_count"@)
            },
            self.spec_valid() ==> {
                &&& r is Ok ==> (r->Ok_0).wf() && (r->Ok_0).spec_frame_length()
                    == self.spec_frame_length()
                &&& r is Err ==> ((r->Err_0).spec_status() matches
                    PvRecorderErrorStatus::LibraryError(_) || (r->Err_0).spec_status() is OtherError
                    || (r->Err_0).spec_status() is StringEncodingError)
                &&& (r is Err && (r->Err_0).spec_status() matches
                    PvRecorderErrorStatus::LibraryError(_)) ==> spec_native_failure(
                    r->Err_0,
                    "pv_recorder_init"@,
                )
                &&& (r is Err && (r->Err_0).spec_status() is OtherError) ==> (
                r->Err_0).spec_message() == "pv_recorder_init returned SUCCESS but pointer is null"@
                &&& (r is Err && (r->Err_0).spec_status() is StringEncodingError) ==> (
                (r->Err_0).spec_message() == "Failed to convert selected device string"@ || (
                r->Err_0).spec_message() == "Failed to convert version string"@)
            },
    {
        if self.frame_length <= 0 {
            let mut m = "frame_length must be greater than 0, got: ".to_owned();
            let rendered = i32_decimal(self.frame_length);
            m.append(rendered.as_str());
            proof {
                reveal_strlit("frame_length");
                reveal_strlit("frame_length must be greater than 0, got: ");
                reveal_strlit(" must be greater than 0, got: ");
                assert(m@ =~= Seq::<char>::empty() + "frame_length"@ + (
                " must be greater than 0, got: "@ + spec_decimal(self.frame_length as int)));
                lemma_mentions_infix(
                    Seq::<char>::empty(),
                    "frame_length"@,
                    " must be greater than 0, got: "@ + spec_decimal(self.frame_length as int),
                );
            }
            return Err(PvRecorderError::new(PvRecorderErrorStatus::ArgumentError, m.as_str()));
        }
        if self.device_index < -1 {
            let mut m = "device_index must be >= -1, got: ".to_owned();
            let rendered = i32_decimal(self.device_index);
            m.append(rendered.as_str());
            proof {
                reveal_strlit("device_index");
                reveal_strlit("device_index must be >= -1, got: ");
                reveal_strlit(" must be >= -1, got: ");
                assert(m@ =~= Seq::<char>::empty() + "device_index"@ + (" must be >= -1, got: "@
                    + spec_decimal(self.device_index as int)));
                lemma_mentions_infix(
                    Seq::<char>::empty(),
                    "device_index"@,
                    " must be >= -1, got: "@ + spec_decimal(self.device_index as int),
                );
            }
            return Err(PvRecorderError::new(PvRecorderErrorStatus::ArgumentError, m.as_str()));
        }
        if self.buffered_frames_count <= 0 {
            let mut m = "buffered_frames_count must be greater than 0, got: ".to_owned();
            let rendered = i32_decimal(self.buffered_frames_count);
            m.append(rendered.as_str());
            proof {
                reveal_strlit("buffered_frames_count");
                reveal_strlit("buffered_frames_count must be greater than 0, got: ");
                reveal_strlit(" must be greater than 0, got: ");
                assert(m@ =~= Seq::<char>::empty() + "buffered_frames_count"@ + (
                " must be greater than 0, got: "@ + spec_decimal(
                    self.buffered_frames_count as int,
                )));
                lemma_mentions_infix(
                    Seq::<char>::empty(),
                    "buffered_frames_count"@,
                    " must be greater than 0, got: "@ + spec_decimal(
                        self.buffered_frames_count as int,
                    ),
                );
            }
            return Err(PvRecorderError::new(PvRecorderErrorStatus::ArgumentError, m.as_str()));
        }
        match PvRecorderInner::init(
            port,
            self.frame_length,
            self.device_index,
            self.buffered_frames_count,
        ) {
            Ok(inner) => Ok(PvRecorder::from_inner(inner)),
            Err(e) => Err(e),
        }
    }

    /// Returns the list of audio input devices that `port` reports,
    /// each name owned. The index of an entry can be handed to
    /// [`Self::device_index`]. The list is all or nothing: a native
    /// failure or an undecodable name discards it whole.
    pub fn get_available_devices<E: NativeDeviceList>(&self, port: &E) -> (r: Result<
        Vec<String>,
        PvRecorderError,
    >)
        ensures
            r is Err ==> ((r->Err_0).spec_status() matches PvRecorderErrorStatus::LibraryError(_)
                || (r->Err_0).spec_status() is StringEncodingError),
            (r is Err && (r->Err_0).spec_status() matches PvRecorderErrorStatus::LibraryError(_))
                ==> spec_native_failure(r->Err_0, "pv_recorder_get_available_devices"@),
            (r is Err && (r->Err_0).spec_status() is StringEncodingError) ==> (
            r->Err_0).spec_message() == "Failed to convert device strings"@,
    {
        let (status, raw) = port.get_available_devices();
        match check_fn_call_status(status, "pv_recorder_get_available_devices") {
            Err(e) => {
                return Err(e);
            },
            Ok(()) => {},
        }
        decode_device_list(&raw)
    }
}

impl Default for PvRecorderBuilder {
    /// The default configuration: the default frame length with the
    /// system default device.
    fn default() -> (r: Self)
        ensures
            r.spec_frame_length() == DEFAULT_FRAME_LENGTH,
            r.spec_device_index() == DEFAULT_DEVICE_INDEX,
            r.spec_buffered_frames_count() == DEFAULT_BUFFERED_FRAMES_COUNT,
            r.spec_library_path() == Seq::<char>::empty(),
    {
        Self::new(DEFAULT_FRAME_LENGTH)
    }
}

} // verus!
