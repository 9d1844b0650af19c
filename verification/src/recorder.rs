//! The capture session and the shareable recorder facade over it.

use std::sync::Arc;

use vstd::prelude::*;

use crate::error::PvRecorderError;
use crate::error::PvRecorderErrorStatus;
use crate::error::check_fn_call_status;
use crate::error::spec_native_failure;
use crate::port::NativeSession;
use crate::port::native_bool;
use crate::port::native_flag;
use crate::status::PvRecorderStatus;

verus! {

/// One capture session: the port to the native layer together with the
/// properties fetched once when the session was created.
///
/// The port owns the native handle and the loaded library, and
/// releases them when the session is dropped; sessions are shared by
/// reference counting, so that happens exactly once, after the last
/// facade is gone.
pub(crate) struct PvRecorderInner<T: NativeSession> {
    port: T,
    frame_length: i32,
    sample_rate: i32,
    selected_device: String,
    version: String,
}

impl<T: NativeSession> PvRecorderInner<T> {
    /// The frame length the session was configured with.
    pub(crate) closed spec fn spec_frame_length(&self) -> i32 {
        self.frame_length
    }

    /// The sample rate fetched when the session was created.
    pub(crate) closed spec fn spec_sample_rate(&self) -> i32 {
        self.sample_rate
    }

    /// The device name fetched when the session was created.
    pub(crate) closed spec fn spec_selected_device(&self) -> Seq<char> {
        self.selected_device@
    }

    /// The library version fetched when the session was created.
    pub(crate) closed spec fn spec_version(&self) -> Seq<char> {
        self.version@
    }

    /// A session always carries a positive frame length.
    pub(crate) open spec fn wf(&self) -> bool {
        self.spec_frame_length() > 0
    }

    /// Assembles the session from the values the port handed back
    /// after a successful native init. The outcome is fixed for every
    /// input: an undecodable device name fails first, then an
    /// undecodable version, each a string-encoding error with its
    /// exact message; with both strings decoded the session caches
    /// every value exactly as handed in.
    pub(crate) fn from_properties(
        port: T,
        frame_length: i32,
        sample_rate: i32,
        device: Option<String>,
        version: Option<String>,
    ) -> (r: Result<Self, PvRecorderError>)
        requires
            frame_length > 0,
        ensures
            r is Ok <==> device is Some && version is Some,
            r is Ok ==> {
                &&& (r->Ok_0).wf()
                &&& (r->Ok_0).spec_frame_length() == frame_length
                &&& (r->Ok_0).spec_sample_rate() == sample_rate
                &&& (r->Ok_0).spec_selected_device() == device->0@
                &&& (r->Ok_0).spec_version() == version->0@
            },
            r is Err ==> (r->Err_0).spec_status() is StringEncodingError,
            device is None <==> (r is Err && (r->Err_0).spec_message()
                == "Failed to convert selected device string"@),
            (device is Some && version is None) <==> (r is Err && (r->Err_0).spec_message()
                == "Failed to convert version string"@),
    {
        proof {
            reveal_strlit("Failed to convert selected device string");
            reveal_strlit("Failed to convert version string");
            assert("Failed to convert selected device string"@.len()
                != "Failed to convert version string"@.len());
        }
        let selected_device = match device {
            Some(s) => s,
            None => {
                return Err(
                    PvRecorderError::new(
                        PvRecorderErrorStatus::StringEncodingError,
                        "Failed to convert selected device string",
                    ),
                );
            },
        };
        let version_string = match version {
            Some(s) => s,
            None => {
                return Err(
                    PvRecorderError::new(
                        PvRecorderErrorStatus::StringEncodingError,
                        "Failed to convert version string",
                    ),
                );
            },
        };
        Ok(Self { port, frame_length, sample_rate, selected_device, version: version_string })
    }

    /// Creates the native session through the port: one native init
    /// call, its outcome settled by [`check_init_result`]; only after
    /// it succeeds are the immutable properties fetched and the
    /// session assembled by [`Self::from_properties`]. The three
    /// arguments have been validated by the builder.
    pub(crate) fn init(
        port: T,
        frame_length: i32,
        device_index: i32,
        buffered_frames_count: i32,
    ) -> (r: Result<Self, PvRecorderError>)
        requires
            frame_length > 0,
            device_index >= -1,
            buffered_frames_count > 0,
        ensures
            r is Ok ==> (r->Ok_0).wf() && (r->Ok_0).spec_frame_length() == frame_length,
            r is Err ==> ((r->Err_0).spec_status() matches PvRecorderErrorStatus::LibraryError(_)
                || (r->Err_0).spec_status() is OtherError || (
            r->Err_0).spec_status() is StringEncodingError),
            (r is Err && (r->Err_0).spec_status() matches PvRecorderErrorStatus::LibraryError(_))
                ==> spec_native_failure(r->Err_0, "pv_recorder_init"@),
            (r is Err && (r->Err_0).spec_status() is OtherError) ==> (r->Err_0).spec_message()
                == "pv_recorder_init returned SUCCESS but pointer is null"@,
            (r is Err && (r->Err_0).spec_status() is StringEncodingError) ==> (
            (r->Err_0).spec_message() == "Failed to convert selected device string"@ || (
            r->Err_0).spec_message() == "Failed to convert version string"@),
    {
        let (status, handle_ok) = port.init(frame_length, device_index, buffered_frames_count);
        match check_init_result(status, handle_ok) {
            Err(e) => {
                return Err(e);
            },
            Ok(()) => {},
        }
        let device = port.get_selected_device();
        let sample_rate = port.sample_rate();
        let version = port.version();
        Self::from_properties(port, frame_length, sample_rate, device, version)
    }

    /// Forwards to the native start entry point.
    pub(crate) fn start(&self) -> (r: Result<(), PvRecorderError>)
        ensures
            r is Err ==> spec_native_failure(r->Err_0, "pv_recorder_start"@),
    {
        let status = self.port.start();
        check_fn_call_status(status, "pv_recorder_start")
    }

    /// Forwards to the native stop entry point.
    pub(crate) fn stop(&self) -> (r: Result<(), PvRecorderError>)
        ensures
            r is Err ==> spec_native_failure(r->Err_0, "pv_recorder_stop"@),
    {
        let status = self.port.stop();
        check_fn_call_status(status, "pv_recorder_stop")
    }

    /// Reads one frame into the first `frame_length` slots of
    /// `buffer`, leaving its length and everything past the frame
    /// untouched. On an error the buffer is left as it was.
    pub(crate) fn read_into(&self, buffer: &mut Vec<i16>) -> (r: Result<(), PvRecorderError>)
        requires
            self.wf(),
            old(buffer)@.len() >= self.spec_frame_length(),
        ensures
            final(buffer)@.len() == old(buffer)@.len(),
            forall|j: int|
                self.spec_frame_length() <= j < old(buffer)@.len() ==> final(buffer)@[j] == old(
                    buffer,
                )@[j],
            r is Err ==> final(buffer)@ == old(buffer)@,
            r is Err ==> ((r->Err_0).spec_status() matches PvRecorderErrorStatus::LibraryError(_)
                || (r->Err_0).spec_status() is OtherError),
            (r is Err && (r->Err_0).spec_status() matches PvRecorderErrorStatus::LibraryError(_))
                ==> spec_native_failure(r->Err_0, "pv_recorder_read"@),
            r is Err && (r->Err_0).spec_status() is OtherError ==> (r->Err_0).spec_message()
                == "pv_recorder_read returned an incomplete frame"@,
    {
        let frame_length = self.frame_length as usize;
        let (status, samples) = self.port.read_frame(frame_length);
        match check_fn_call_status(status, "pv_recorder_read") {
            Err(e) => {
                return Err(e);
            },
            Ok(()) => {},
        }
        if samples.len() < frame_length {
            return Err(
                PvRecorderError::new(
                    PvRecorderErrorStatus::OtherError,
                    "pv_recorder_read returned an incomplete frame",
                ),
            );
        }
        fill_from_frame(buffer, &samples, frame_length);
        Ok(())
    }

    /// Allocates a frame-sized buffer, reads one frame into it and
    /// hands it back; on success its length is exactly the configured
    /// frame length.
    pub(crate) fn read(&self) -> (r: Result<Vec<i16>, PvRecorderError>)
        requires
            self.wf(),
        ensures
            r is Ok ==> (r->Ok_0)@.len() == self.spec_frame_length(),
            r is Err ==> ((r->Err_0).spec_status() matches PvRecorderErrorStatus::LibraryError(_)
                || (r->Err_0).spec_status() is OtherError),
            (r is Err && (r->Err_0).spec_status() matches PvRecorderErrorStatus::LibraryError(_))
                ==> spec_native_failure(r->Err_0, "pv_recorder_read"@),
            r is Err && (r->Err_0).spec_status() is OtherError ==> (r->Err_0).spec_message()
                == "pv_recorder_read returned an incomplete frame"@,
    {
        let frame_length = self.frame_length as usize;
        let mut frame: Vec<i16> = Vec::new();
        while frame.len() < frame_length
            invariant
                frame@.len() <= frame_length,
            decreases frame_length - frame@.len(),
        {
            frame.push(0i16);
        }
        match self.read_into(&mut frame) {
            Err(e) => Err(e),
            Ok(()) => Ok(frame),
        }
    }

    /// Forwards the flag to the native debug-logging entry point.
    pub(crate) fn set_debug_logging(&self, is_debug_logging_enabled: bool) {
        let flag = native_flag(is_debug_logging_enabled);
        self.port.set_debug_logging(flag);
    }

    /// Asks the native layer whether the session is recording.
    pub(crate) fn is_recording(&self) -> bool {
        let value = self.port.get_is_recording();
        native_bool(value)
    }

    /// The configured frame length.
    pub(crate) fn frame_length(&self) -> (r: i32)
        ensures
            r == self.spec_frame_length(),
    {
        self.frame_length
    }

    /// The cached sample rate.
    pub(crate) fn sample_rate(&self) -> (r: i32)
        ensures
            r == self.spec_sample_rate(),
    {
        self.sample_rate
    }

    /// The cached device name.
    pub(crate) fn selected_device(&self) -> (r: &str)
        ensures
            r@ == self.spec_selected_device(),
    {
        self.selected_device.as_str()
    }

    /// The cached library version.
    pub(crate) fn version(&self) -> (r: &str)
        ensures
            r@ == self.spec_version(),
    {
        self.version.as_str()
    }
}

/// Settles the outcome of one native init call: success is a
/// `SUCCESS` status together with a non-null handle. A non-success
/// status carries the status verbatim, if and only if; success paired
/// with a null handle is the distinct internal-consistency error with
/// its exact message, if and only if — a broken native contract is
/// never accepted silently.
pub fn check_init_result(status: PvRecorderStatus, handle_ok: bool) -> (r: Result<
    (),
    PvRecorderError,
>)
    ensures
        r is Ok <==> (status == PvRecorderStatus::SUCCESS && handle_ok),
        ((r is Err && (r->Err_0).spec_status() matches PvRecorderErrorStatus::LibraryError(_))
            <==> status != PvRecorderStatus::SUCCESS),
        (r is Err && status != PvRecorderStatus::SUCCESS) ==> spec_native_failure(
            r->Err_0,
            "pv_recorder_init"@,
        ),
        ((r is Err && (r->Err_0).spec_status() is OtherError) <==> (status
            == PvRecorderStatus::SUCCESS && !handle_ok)),
        (r is Err && (r->Err_0).spec_status() is OtherError) ==> (r->Err_0).spec_message()
            == "pv_recorder_init returned SUCCESS but pointer is null"@,
{
    match check_fn_call_status(status, "pv_recorder_init") {
        Err(e) => {
            return Err(e);
        },
        Ok(()) => {},
    }
    if !handle_ok {
        return Err(
            PvRecorderError::new(
                PvRecorderErrorStatus::OtherError,
                "pv_recorder_init returned SUCCESS but pointer is null",
            ),
        );
    }
    Ok(())
}

/// Copies one frame of samples into the first `frame_length` slots of
/// `buffer`, exactly: slot by slot from `samples`, with the buffer's
/// length and every entry past the frame untouched.
pub fn fill_from_frame(buffer: &mut Vec<i16>, samples: &Vec<i16>, frame_length: usize)
    requires
        old(buffer)@.len() >= frame_length,
        samples@.len() >= frame_length,
    ensures
        final(buffer)@.len() == old(buffer)@.len(),
        forall|j: int| 0 <= j < frame_length ==> final(buffer)@[j] == samples@[j],
        forall|j: int|
            frame_length <= j < old(buffer)@.len() ==> final(buffer)@[j] == old(buffer)@[j],
{
    let mut i: usize = 0;
    while i < frame_length
        invariant
            i <= frame_length,
            frame_length <= samples@.len(),
            frame_length <= buffer@.len(),
            buffer@.len() == old(buffer)@.len(),
            forall|j: int| 0 <= j < i ==> buffer@[j] == samples@[j],
            forall|j: int| i <= j < old(buffer)@.len() ==> buffer@[j] == old(buffer)@[j],
        decreases frame_length - i,
    {
        buffer[i] = samples[i];
        i += 1;
    }
}

/// Relies on `Arc::clone`: the clone is a new reference to the same
/// shared session, not a copy of it.
#[verifier::external_body]
fn share_session<T: NativeSession>(session: &Arc<PvRecorderInner<T>>) -> (r: Arc<
    PvRecorderInner<T>,
>)
    ensures
        r == *session,
{
    Arc::clone(session)
}

/// The public recorder handle.
///
/// Cloning it is cheap: clones share one session, and the native
/// session is torn down exactly once, when the last clone is gone.
pub struct PvRecorder<T: NativeSession> {
    inner: Arc<PvRecorderInner<T>>,
}

impl<T: NativeSession> PvRecorder<T> {
    /// The frame length the recorder was configured with.
    pub closed spec fn spec_frame_length(&self) -> i32 {
        (*self.inner).spec_frame_length()
    }

    /// The sample rate cached at construction.
    pub closed spec fn spec_sample_rate(&self) -> i32 {
        (*self.inner).spec_sample_rate()
    }

    /// The device name cached at construction.
    pub closed spec fn spec_selected_device(&self) -> Seq<char> {
        (*self.inner).spec_selected_device()
    }

    /// The library version cached at construction.
    pub closed spec fn spec_version(&self) -> Seq<char> {
        (*self.inner).spec_version()
    }

    /// A recorder always carries a positive frame length.
    pub closed spec fn wf(&self) -> bool {
        (*self.inner).wf()
    }

    /// Wraps a freshly created session.
    pub(crate) fn from_inner(inner: PvRecorderInner<T>) -> (r: Self)
        requires
            inner.wf(),
        ensures
            r.wf(),
            r.spec_frame_length() == inner.spec_frame_length(),
            r.spec_sample_rate() == inner.spec_sample_rate(),
            r.spec_selected_device() == inner.spec_selected_device(),
            r.spec_version() == inner.spec_version(),
    {
        PvRecorder { inner: Arc::new(inner) }
    }

    /// Starts recording audio from the selected device. A failure
    /// carries the native status verbatim; `INVALID_STATE` is what an
    /// already-started recorder reports.
    pub fn start(&self) -> (r: Result<(), PvRecorderError>)
        ensures
            r is Err ==> spec_native_failure(r->Err_0, "pv_recorder_start"@),
    {
        self.inner.start()
    }

    /// Stops recording audio. A failure carries the native status
    /// verbatim; `INVALID_STATE` is what a recorder that was never
    /// started reports.
    pub fn stop(&self) -> (r: Result<(), PvRecorderError>)
        ensures
            r is Err ==> spec_native_failure(r->Err_0, "pv_recorder_stop"@),
    {
        self.inner.stop()
    }

    /// Reads one frame of audio samples, blocking until it is
    /// available; on success the returned buffer holds exactly
    /// `frame_length` samples.
    pub fn read(&self) -> (r: Result<Vec<i16>, PvRecorderError>)
        requires
            self.wf(),
        ensures
            r is Ok ==> (r->Ok_0)@.len() == self.spec_frame_length(),
            r is Err ==> ((r->Err_0).spec_status() matches PvRecorderErrorStatus::LibraryError(_)
                || (r->Err_0).spec_status() is OtherError),
            (r is Err && (r->Err_0).spec_status() matches PvRecorderErrorStatus::LibraryError(_))
                ==> spec_native_failure(r->Err_0, "pv_recorder_read"@),
            r is Err && (r->Err_0).spec_status() is OtherError ==> (r->Err_0).spec_message()
                == "pv_recorder_read returned an incomplete frame"@,
    {
        self.inner.read()
    }

    /// Reads one frame into the first `frame_length` slots of
    /// `buffer`. The buffer must be at least `frame_length` long:
    /// anything shorter is a caller bug, ruled out here rather than
    /// reported. Entries past the frame, and the buffer's length, are
    /// never touched.
    pub fn read_into(&self, buffer: &mut Vec<i16>) -> (r: Result<(), PvRecorderError>)
        requires
            self.wf(),
            old(buffer)@.len() >= self.spec_frame_length(),
        ensures
            final(buffer)@.len() == old(buffer)@.len(),
            forall|j: int|
                self.spec_frame_length() <= j < old(buffer)@.len() ==> final(buffer)@[j] == old(
                    buffer,
                )@[j],
            r is Err ==> final(buffer)@ == old(buffer)@,
            r is Err ==> ((r->Err_0).spec_status() matches PvRecorderErrorStatus::LibraryError(_)
                || (r->Err_0).spec_status() is OtherError),
            (r is Err && (r->Err_0).spec_status() matches PvRecorderErrorStatus::LibraryError(_))
                ==> spec_native_failure(r->Err_0, "pv_recorder_read"@),
            r is Err && (r->Err_0).spec_status() is OtherError ==> (r->Err_0).spec_message()
                == "pv_recorder_read returned an incomplete frame"@,
    {
        self.inner.read_into(buffer)
    }

    /// Enables or disables debug logging in the native layer. The
    /// native entry point reports nothing back.
    pub fn set_debug_logging(&self, is_debug_logging_enabled: bool) {
        self.inner.set_debug_logging(is_debug_logging_enabled)
    }

    /// Returns the number of samples per frame.
    pub fn frame_length(&self) -> (r: usize)
        requires
            self.wf(),
        ensures
            r == self.spec_frame_length(),
    {
        self.inner.frame_length() as usize
    }

    /// Asks the native layer whether the recorder is currently
    /// recording; nonzero native truth values mean it is.
    pub fn is_recording(&self) -> bool {
        self.inner.is_recording()
    }

    /// Returns the sample rate cached at construction; a negative
    /// native report is clamped to zero rather than reinterpreted.
    pub fn sample_rate(&self) -> (r: usize)
        ensures
            self.spec_sample_rate() >= 0 ==> r == self.spec_sample_rate(),
            self.spec_sample_rate() < 0 ==> r == 0,
    {
        let rate = self.inner.sample_rate();
        if rate < 0 {
            0
        } else {
            rate as usize
        }
    }

    /// Returns the name of the selected audio device, cached at
    /// construction; this never re-enters the native layer.
    pub fn selected_device(&self) -> (r: &str)
        ensures
            r@ == self.spec_selected_device(),
    {
        self.inner.selected_device()
    }

    /// Returns the version of the native library, cached at
    /// construction; this never re-enters the native layer.
    pub fn version(&self) -> (r: &str)
        ensures
            r@ == self.spec_version(),
    {
        self.inner.version()
    }
}

impl<T: NativeSession> Clone for PvRecorder<T> {
    /// The clone shares the session: every cached property, and the
    /// native handle behind them, is the same one.
    fn clone(&self) -> (r: Self)
        ensures
            r == *self,
    {
        PvRecorder { inner: share_session(&self.inner) }
    }
}

/// Two recorder handles over one shared session agree on every cached
/// property: cloning never changes what the getters report.
pub proof fn lemma_clones_agree<T: NativeSession>(a: PvRecorder<T>, b: PvRecorder<T>)
    requires
        a == b,
    ensures
        a.spec_frame_length() == b.spec_frame_length(),
        a.spec_sample_rate() == b.spec_sample_rate(),
        a.spec_selected_device() == b.spec_selected_device(),
        a.spec_version() == b.spec_version(),
{
}

} // verus!
