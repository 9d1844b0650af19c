use std::cell::Cell;
use std::rc::Rc;

use pv_recorder::port::{NativeDeviceList, NativeSession, SymbolSource};
use pv_recorder::{PvRecorderBuilder, PvRecorderError, PvRecorderErrorStatus, PvRecorderStatus};

/// A deterministic native layer: every entry point answers from plain
/// fields, and counters record what was called.
struct FakeSession {
    init_status: PvRecorderStatus,
    init_handle_ok: bool,
    start_status: PvRecorderStatus,
    stop_status: PvRecorderStatus,
    read_status: PvRecorderStatus,
    read_shortfall: usize,
    sample_value: i16,
    rate: i32,
    device: Option<String>,
    lib_version: Option<String>,
    recording: Cell<bool>,
    init_calls: Rc<Cell<u32>>,
    delete_calls: Rc<Cell<u32>>,
}

impl FakeSession {
    fn ok() -> Self {
        FakeSession {
            init_status: PvRecorderStatus::SUCCESS,
            init_handle_ok: true,
            start_status: PvRecorderStatus::SUCCESS,
            stop_status: PvRecorderStatus::SUCCESS,
            read_status: PvRecorderStatus::SUCCESS,
            read_shortfall: 0,
            sample_value: 7,
            rate: 16000,
            device: Some(String::from("Fake Microphone")),
            lib_version: Some(String::from("1.2.3")),
            recording: Cell::new(false),
            init_calls: Rc::new(Cell::new(0)),
            delete_calls: Rc::new(Cell::new(0)),
        }
    }
}

impl NativeSession for FakeSession {
    fn init(&self, _frame_length: i32, _device_index: i32, _buffered_frames_count: i32) -> (
        PvRecorderStatus,
        bool,
    ) {
        self.init_calls.set(self.init_calls.get() + 1);
        (self.init_status, self.init_handle_ok)
    }

    fn start(&self) -> PvRecorderStatus {
        if matches!(self.start_status, PvRecorderStatus::SUCCESS) {
            self.recording.set(true);
        }
        self.start_status
    }

    fn stop(&self) -> PvRecorderStatus {
        if matches!(self.stop_status, PvRecorderStatus::SUCCESS) {
            self.recording.set(false);
        }
        self.stop_status
    }

    fn read_frame(&self, frame_length: usize) -> (PvRecorderStatus, Vec<i16>) {
        let produced = frame_length.saturating_sub(self.read_shortfall);
        (self.read_status, vec![self.sample_value; produced])
    }

    fn set_debug_logging(&self, _flag: i32) {}

    fn get_is_recording(&self) -> i32 {
        if self.recording.get() {
            1
        } else {
            0
        }
    }

    fn get_selected_device(&self) -> Option<String> {
        self.device.clone()
    }

    fn sample_rate(&self) -> i32 {
        self.rate
    }

    fn version(&self) -> Option<String> {
        self.lib_version.clone()
    }
}

impl Drop for FakeSession {
    fn drop(&mut self) {
        self.delete_calls.set(self.delete_calls.get() + 1);
    }
}

/// A deterministic device enumerator.
struct FakeDeviceList {
    status: PvRecorderStatus,
    names: Vec<Option<String>>,
}

impl NativeDeviceList for FakeDeviceList {
    fn get_available_devices(&self) -> (PvRecorderStatus, Vec<Option<String>>) {
        (self.status, self.names.clone())
    }
}

/// A symbol table with a configurable hole, recording the resolution
/// order.
struct FakeSymbols {
    missing: Option<String>,
    resolved: Vec<String>,
}

impl SymbolSource for FakeSymbols {
    fn resolve(&mut self, name: &str) -> bool {
        if self.missing.as_deref() == Some(name) {
            return false;
        }
        self.resolved.push(String::from(name));
        true
    }
}

/// Unwraps the error of a result whose success value has no debug
/// rendering.
fn expect_err<T>(result: Result<T, PvRecorderError>) -> PvRecorderError {
    match result {
        Err(err) => err,
        Ok(_) => panic!("expected an error"),
    }
}

#[test]
fn test_init() -> Result<(), PvRecorderError> {
    let recorder = PvRecorderBuilder::new(512).device_index(0).init(FakeSession::ok())?;
    assert!(recorder.sample_rate() > 0);
    assert!(!recorder.selected_device().is_empty());
    assert!(!recorder.version().is_empty());

    Ok(())
}

#[test]
fn test_start_stop() -> Result<(), PvRecorderError> {
    let frame_length = 666;

    let recorder = PvRecorderBuilder::new(frame_length)
        .device_index(0)
        .frame_length(frame_length)
        .init(FakeSession::ok())?;
    recorder.set_debug_logging(true);

    assert!(!recorder.is_recording());
    recorder.start()?;
    assert!(recorder.is_recording());

    let frame = recorder.read()?;
    assert_eq!(frame.len(), frame_length as usize);

    recorder.stop()?;
    assert!(!recorder.is_recording());

    Ok(())
}

#[test]
fn test_read_into() -> Result<(), PvRecorderError> {
    let frame_length = 512;

    let recorder = PvRecorderBuilder::new(frame_length).device_index(0).init(FakeSession::ok())?;

    recorder.start()?;

    let mut buffer = vec![0i16; frame_length as usize];
    recorder.read_into(&mut buffer)?;

    let mut large_buffer = vec![0i16; frame_length as usize * 2];
    recorder.read_into(&mut large_buffer)?;

    recorder.stop()?;

    Ok(())
}

#[test]
fn test_get_available_devices() -> Result<(), PvRecorderError> {
    let port = FakeDeviceList {
        status: PvRecorderStatus::SUCCESS,
        names: vec![Some(String::from("Fake Microphone")), Some(String::from("Fake Line-In"))],
    };
    let devices = PvRecorderBuilder::default().get_available_devices(&port)?;

    for device in &devices {
        assert!(!device.is_empty(), "Device name should not be empty");
    }

    Ok(())
}

#[test]
fn test_invalid_frame_length() {
    let result = PvRecorderBuilder::new(0).init(FakeSession::ok());
    assert!(result.is_err());

    if let Err(err) = result {
        assert!(matches!(err.status(), PvRecorderErrorStatus::ArgumentError));
        assert!(err.message().contains("frame_length"));
    }
}

#[test]
fn test_negative_frame_length() {
    let result = PvRecorderBuilder::new(-10).init(FakeSession::ok());
    assert!(result.is_err());

    if let Err(err) = result {
        assert!(matches!(err.status(), PvRecorderErrorStatus::ArgumentError));
    }
}

#[test]
fn test_invalid_device_index() {
    let result = PvRecorderBuilder::new(512).device_index(-2).init(FakeSession::ok());
    assert!(result.is_err());

    if let Err(err) = result {
        assert!(matches!(err.status(), PvRecorderErrorStatus::ArgumentError));
        assert!(err.message().contains("device_index"));
    }
}

#[test]
fn test_invalid_buffered_frames_count() {
    let result = PvRecorderBuilder::new(512).buffered_frames_count(0).init(FakeSession::ok());
    assert!(result.is_err());

    if let Err(err) = result {
        assert!(matches!(err.status(), PvRecorderErrorStatus::ArgumentError));
        assert!(err.message().contains("buffered_frames_count"));
    }
}

#[test]
fn test_default_builder() {
    let builder = PvRecorderBuilder::default();
    let _ = builder.init(FakeSession::ok());
}

#[test]
fn test_frame_length_getter() -> Result<(), PvRecorderError> {
    let expected_frame_length = 1024usize;
    let recorder = PvRecorderBuilder::new(expected_frame_length as i32)
        .device_index(0)
        .init(FakeSession::ok())?;

    assert_eq!(recorder.frame_length(), expected_frame_length);

    Ok(())
}

#[test]
fn test_sample_rate_is_reasonable() -> Result<(), PvRecorderError> {
    let recorder = PvRecorderBuilder::new(512).device_index(0).init(FakeSession::ok())?;

    let sample_rate = recorder.sample_rate();
    assert!(sample_rate >= 8000, "Sample rate {} is too low", sample_rate);
    assert!(sample_rate <= 96000, "Sample rate {} is too high", sample_rate);

    Ok(())
}

#[test]
fn test_clone_recorder() -> Result<(), PvRecorderError> {
    let recorder1 = PvRecorderBuilder::new(512).device_index(0).init(FakeSession::ok())?;

    let recorder2 = recorder1.clone();

    assert_eq!(recorder1.frame_length(), recorder2.frame_length());
    assert_eq!(recorder1.sample_rate(), recorder2.sample_rate());
    assert_eq!(recorder1.selected_device(), recorder2.selected_device());
    assert_eq!(recorder1.version(), recorder2.version());

    Ok(())
}

#[test]
fn test_error_display() {
    let err = PvRecorderError::new(PvRecorderErrorStatus::ArgumentError, "test error message");

    let display = err.display_string();
    assert!(display.contains("test error message"));
    assert!(display.contains("ArgumentError"));
}

#[test]
fn test_validation_precedes_native_calls() {
    let session = FakeSession::ok();
    let init_calls = session.init_calls.clone();
    let result = PvRecorderBuilder::new(0).init(session);
    assert!(result.is_err());
    assert_eq!(init_calls.get(), 0);

    let session = FakeSession::ok();
    let init_calls = session.init_calls.clone();
    let result = PvRecorderBuilder::new(512).device_index(-2).init(session);
    assert!(result.is_err());
    assert_eq!(init_calls.get(), 0);

    let session = FakeSession::ok();
    let init_calls = session.init_calls.clone();
    let result = PvRecorderBuilder::new(512).buffered_frames_count(-3).init(session);
    assert!(result.is_err());
    assert_eq!(init_calls.get(), 0);

    let session = FakeSession::ok();
    let init_calls = session.init_calls.clone();
    let result = PvRecorderBuilder::new(512).init(session);
    assert!(result.is_ok());
    assert_eq!(init_calls.get(), 1);
}

#[test]
fn test_argument_error_messages_are_exact() {
    let err = expect_err(PvRecorderBuilder::new(0).init(FakeSession::ok()));
    assert_eq!(err.message(), "frame_length must be greater than 0, got: 0");

    let err = expect_err(PvRecorderBuilder::new(-10).init(FakeSession::ok()));
    assert_eq!(err.message(), "frame_length must be greater than 0, got: -10");

    let err = expect_err(PvRecorderBuilder::new(512).device_index(-2).init(FakeSession::ok()));
    assert_eq!(err.message(), "device_index must be >= -1, got: -2");

    let err = expect_err(PvRecorderBuilder::new(512).buffered_frames_count(0).init(FakeSession::ok()));
    assert_eq!(err.message(), "buffered_frames_count must be greater than 0, got: 0");
}

#[test]
fn test_fresh_recorder_is_not_recording() -> Result<(), PvRecorderError> {
    let recorder = PvRecorderBuilder::new(512).init(FakeSession::ok())?;
    assert!(!recorder.is_recording());
    Ok(())
}

#[test]
fn test_read_fills_exactly_one_frame() -> Result<(), PvRecorderError> {
    let mut session = FakeSession::ok();
    session.sample_value = 7;
    let recorder = PvRecorderBuilder::new(4).init(session)?;
    recorder.start()?;

    let frame = recorder.read()?;
    assert_eq!(frame, vec![7i16, 7, 7, 7]);

    let mut buffer = vec![-1i16; 6];
    recorder.read_into(&mut buffer)?;
    assert_eq!(buffer, vec![7i16, 7, 7, 7, -1, -1]);

    Ok(())
}

#[test]
fn test_incomplete_native_frame_is_an_error() -> Result<(), PvRecorderError> {
    let mut session = FakeSession::ok();
    session.read_shortfall = 1;
    let recorder = PvRecorderBuilder::new(4).init(session)?;
    recorder.start()?;

    let mut buffer = vec![-1i16; 4];
    let err = recorder.read_into(&mut buffer).unwrap_err();
    assert!(matches!(err.status(), PvRecorderErrorStatus::OtherError));
    assert_eq!(err.message(), "pv_recorder_read returned an incomplete frame");
    assert_eq!(buffer, vec![-1i16; 4]);

    Ok(())
}

#[test]
fn test_native_start_failure_carries_status() -> Result<(), PvRecorderError> {
    let mut session = FakeSession::ok();
    session.start_status = PvRecorderStatus::BACKEND_ERROR;
    let recorder = PvRecorderBuilder::new(512).init(session)?;

    let err = recorder.start().unwrap_err();
    assert!(matches!(
        err.status(),
        PvRecorderErrorStatus::LibraryError(PvRecorderStatus::BACKEND_ERROR)
    ));
    assert_eq!(err.message(), "Function 'pv_recorder_start' in the pvrecorder library failed");

    let mut session = FakeSession::ok();
    session.stop_status = PvRecorderStatus::INVALID_STATE;
    let recorder = PvRecorderBuilder::new(512).init(session)?;
    let err = recorder.stop().unwrap_err();
    assert!(matches!(
        err.status(),
        PvRecorderErrorStatus::LibraryError(PvRecorderStatus::INVALID_STATE)
    ));

    Ok(())
}

#[test]
fn test_init_failure_statuses() {
    let mut session = FakeSession::ok();
    session.init_status = PvRecorderStatus::DEVICE_ALREADY_INITIALIZED;
    let err = expect_err(PvRecorderBuilder::new(512).init(session));
    assert!(matches!(
        err.status(),
        PvRecorderErrorStatus::LibraryError(PvRecorderStatus::DEVICE_ALREADY_INITIALIZED)
    ));
    assert_eq!(err.message(), "Function 'pv_recorder_init' in the pvrecorder library failed");

    let mut session = FakeSession::ok();
    session.init_handle_ok = false;
    let err = expect_err(PvRecorderBuilder::new(512).init(session));
    assert!(matches!(err.status(), PvRecorderErrorStatus::OtherError));
    assert_eq!(err.message(), "pv_recorder_init returned SUCCESS but pointer is null");

    let mut session = FakeSession::ok();
    session.device = None;
    let err = expect_err(PvRecorderBuilder::new(512).init(session));
    assert!(matches!(err.status(), PvRecorderErrorStatus::StringEncodingError));
    assert_eq!(err.message(), "Failed to convert selected device string");

    let mut session = FakeSession::ok();
    session.lib_version = None;
    let err = expect_err(PvRecorderBuilder::new(512).init(session));
    assert!(matches!(err.status(), PvRecorderErrorStatus::StringEncodingError));
    assert_eq!(err.message(), "Failed to convert version string");
}

#[test]
fn test_double_disposal_deletes_once() -> Result<(), PvRecorderError> {
    let session = FakeSession::ok();
    let delete_calls = session.delete_calls.clone();

    let recorder1 = PvRecorderBuilder::new(512).init(session)?;
    let recorder2 = recorder1.clone();
    assert_eq!(delete_calls.get(), 0);

    drop(recorder1);
    assert_eq!(delete_calls.get(), 0);

    drop(recorder2);
    assert_eq!(delete_calls.get(), 1);

    Ok(())
}

#[test]
fn test_missing_symbol_fails_atomically() {
    let mut source = FakeSymbols {
        missing: Some(String::from("pv_recorder_read")),
        resolved: Vec::new(),
    };
    let err = pv_recorder::loader::load_entry_points(&mut source).unwrap_err();
    assert!(matches!(err.status(), PvRecorderErrorStatus::LibraryLoadError));
    assert_eq!(
        err.message(),
        "Failed to load function symbol from pvrecorder library: pv_recorder_read"
    );
    assert_eq!(
        source.resolved,
        vec![
            String::from("pv_recorder_init"),
            String::from("pv_recorder_delete"),
            String::from("pv_recorder_start"),
            String::from("pv_recorder_stop"),
        ]
    );

    let mut source = FakeSymbols { missing: None, resolved: Vec::new() };
    assert!(pv_recorder::loader::load_entry_points(&mut source).is_ok());
    assert_eq!(source.resolved.len(), 12);
    assert_eq!(source.resolved[0], "pv_recorder_init");
    assert_eq!(source.resolved[11], "pv_recorder_version");
}

#[test]
fn test_library_load_error_carries_detail() {
    let err = pv_recorder::loader::library_load_error("no such file");
    assert!(matches!(err.status(), PvRecorderErrorStatus::LibraryLoadError));
    assert_eq!(err.message(), "Failed to load pvrecorder dynamic library: no such file");
}

#[test]
fn test_device_list_keeps_count_and_order() {
    let port = FakeDeviceList {
        status: PvRecorderStatus::SUCCESS,
        names: vec![
            Some(String::from("Fake Microphone")),
            Some(String::from("Fake Line-In")),
            Some(String::from("Fake Headset")),
        ],
    };
    let devices = PvRecorderBuilder::default().get_available_devices(&port).unwrap();
    assert_eq!(
        devices,
        vec![
            String::from("Fake Microphone"),
            String::from("Fake Line-In"),
            String::from("Fake Headset"),
        ]
    );
}

#[test]
fn test_device_list_is_all_or_nothing() {
    let port = FakeDeviceList {
        status: PvRecorderStatus::SUCCESS,
        names: vec![Some(String::from("Fake Microphone")), None],
    };
    let err = PvRecorderBuilder::default().get_available_devices(&port).unwrap_err();
    assert!(matches!(err.status(), PvRecorderErrorStatus::StringEncodingError));
    assert_eq!(err.message(), "Failed to convert device strings");

    let port = FakeDeviceList { status: PvRecorderStatus::IO_ERROR, names: Vec::new() };
    let err = PvRecorderBuilder::default().get_available_devices(&port).unwrap_err();
    assert!(matches!(
        err.status(),
        PvRecorderErrorStatus::LibraryError(PvRecorderStatus::IO_ERROR)
    ));
}

#[test]
fn test_status_codes_match_native_table() {
    let table = [
        (PvRecorderStatus::SUCCESS, 0),
        (PvRecorderStatus::OUT_OF_MEMORY, 1),
        (PvRecorderStatus::INVALID_ARGUMENT, 2),
        (PvRecorderStatus::INVALID_STATE, 3),
        (PvRecorderStatus::BACKEND_ERROR, 4),
        (PvRecorderStatus::DEVICE_ALREADY_INITIALIZED, 5),
        (PvRecorderStatus::DEVICE_NOT_INITIALIZED, 6),
        (PvRecorderStatus::IO_ERROR, 7),
        (PvRecorderStatus::RUNTIME_ERROR, 8),
    ];
    for (status, code) in table {
        assert_eq!(pv_recorder::status::status_code(status), code);
        assert_eq!(pv_recorder::status::status_from_code(code), Some(status));
    }
    assert_eq!(pv_recorder::status::status_from_code(9), None);
    assert_eq!(pv_recorder::status::status_from_code(-1), None);
}

#[test]
fn test_decimal_rendering_is_exact() {
    assert_eq!(pv_recorder::decimal::i32_decimal(0), "0");
    assert_eq!(pv_recorder::decimal::i32_decimal(512), "512");
    assert_eq!(pv_recorder::decimal::i32_decimal(-10), "-10");
    assert_eq!(pv_recorder::decimal::i32_decimal(i32::MAX), "2147483647");
    assert_eq!(pv_recorder::decimal::i32_decimal(i32::MIN), "-2147483648");
}

#[test]
fn test_display_string_is_exact() {
    let err = PvRecorderError::new(
        PvRecorderErrorStatus::LibraryError(PvRecorderStatus::BACKEND_ERROR),
        "recording failed",
    );
    assert_eq!(err.display_string(), "recording failed: LibraryError(BACKEND_ERROR)");
}

#[test]
fn test_negative_sample_rate_is_clamped() -> Result<(), PvRecorderError> {
    let mut session = FakeSession::ok();
    session.rate = -5;
    let recorder = PvRecorderBuilder::new(512).init(session)?;
    assert_eq!(recorder.sample_rate(), 0);
    Ok(())
}

#[test]
fn test_check_init_result_settles_every_outcome() {
    assert!(pv_recorder::recorder::check_init_result(PvRecorderStatus::SUCCESS, true).is_ok());

    let err = pv_recorder::recorder::check_init_result(PvRecorderStatus::SUCCESS, false)
        .unwrap_err();
    assert!(matches!(err.status(), PvRecorderErrorStatus::OtherError));
    assert_eq!(err.message(), "pv_recorder_init returned SUCCESS but pointer is null");

    let err = pv_recorder::recorder::check_init_result(PvRecorderStatus::OUT_OF_MEMORY, true)
        .unwrap_err();
    assert!(matches!(
        err.status(),
        PvRecorderErrorStatus::LibraryError(PvRecorderStatus::OUT_OF_MEMORY)
    ));
    assert_eq!(err.message(), "Function 'pv_recorder_init' in the pvrecorder library failed");

    let err = pv_recorder::recorder::check_init_result(PvRecorderStatus::BACKEND_ERROR, false)
        .unwrap_err();
    assert!(matches!(
        err.status(),
        PvRecorderErrorStatus::LibraryError(PvRecorderStatus::BACKEND_ERROR)
    ));
}

#[test]
fn test_fill_from_frame_is_exact() {
    let mut buffer = vec![-1i16; 6];
    let samples = vec![3i16, 1, 4, 1, 5];
    pv_recorder::recorder::fill_from_frame(&mut buffer, &samples, 4);
    assert_eq!(buffer, vec![3i16, 1, 4, 1, -1, -1]);
}

#[test]
fn test_cached_properties_come_from_the_native_layer() -> Result<(), PvRecorderError> {
    let mut session = FakeSession::ok();
    session.rate = 44100;
    session.device = Some(String::from("Fake Headset"));
    session.lib_version = Some(String::from("9.9.9"));
    let recorder = PvRecorderBuilder::new(256).init(session)?;
    assert_eq!(recorder.sample_rate(), 44100);
    assert_eq!(recorder.selected_device(), "Fake Headset");
    assert_eq!(recorder.version(), "9.9.9");
    assert_eq!(recorder.frame_length(), 256);
    Ok(())
}

#[test]
fn test_string_encoding_error_label() {
    let err = PvRecorderError::new(
        PvRecorderErrorStatus::StringEncodingError,
        "Failed to convert device strings",
    );
    assert_eq!(
        err.display_string(),
        "Failed to convert device strings: StringEncodingError"
    );
}
