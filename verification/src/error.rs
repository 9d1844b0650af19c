//! The categorized error type every fallible operation returns.

use vstd::prelude::*;

use crate::status::PvRecorderStatus;

verus! {

/// Categorization of the errors a recorder operation can produce.
#[derive(Clone, Debug)]
pub enum PvRecorderErrorStatus {
    /// A non-success status reported by the native library.
    LibraryError(PvRecorderStatus),
    /// The dynamic library, or a symbol of it, could not be resolved.
    LibraryLoadError,
    /// A caller-supplied argument violates a precondition.
    ArgumentError,
    /// A native string (a device name, the version, an enumerated
    /// device name) was not valid text.
    StringEncodingError,
    /// Any other failure, such as a broken native contract.
    OtherError,
}

/// Error type carrying a category and a human-readable message.
#[derive(Clone, Debug)]
pub struct PvRecorderError {
    status: PvRecorderErrorStatus,
    message: String,
}

/// True when `name` occurs somewhere inside `message`.
pub open spec fn mentions(message: Seq<char>, name: Seq<char>) -> bool {
    exists|i: int|
        0 <= i && i + name.len() <= message.len() && #[trigger] message.subrange(
            i,
            i + name.len(),
        ) == name
}

/// A concatenation mentions its middle part.
pub proof fn lemma_mentions_infix(prefix: Seq<char>, name: Seq<char>, suffix: Seq<char>)
    ensures
        mentions(prefix + name + suffix, name),
{
    let whole = prefix + name + suffix;
    let i = prefix.len() as int;
    assert(whole.subrange(i, i + name.len()) =~= name);
}

/// The name of a native status, as its debug rendering prints it.
pub open spec fn spec_status_name(s: PvRecorderStatus) -> Seq<char> {
    match s {
        PvRecorderStatus::SUCCESS => "SUCCESS"@,
        PvRecorderStatus::OUT_OF_MEMORY => "OUT_OF_MEMORY"@,
        PvRecorderStatus::INVALID_ARGUMENT => "INVALID_ARGUMENT"@,
        PvRecorderStatus::INVALID_STATE => "INVALID_STATE"@,
        PvRecorderStatus::BACKEND_ERROR => "BACKEND_ERROR"@,
        PvRecorderStatus::DEVICE_ALREADY_INITIALIZED => "DEVICE_ALREADY_INITIALIZED"@,
        PvRecorderStatus::DEVICE_NOT_INITIALIZED => "DEVICE_NOT_INITIALIZED"@,
        PvRecorderStatus::IO_ERROR => "IO_ERROR"@,
        PvRecorderStatus::RUNTIME_ERROR => "RUNTIME_ERROR"@,
    }
}

/// The name of a native status as a string slice.
pub fn status_name(s: PvRecorderStatus) -> (r: &'static str)
    ensures
        r@ == spec_status_name(s),
{
    match s {
        PvRecorderStatus::SUCCESS => "SUCCESS",
        PvRecorderStatus::OUT_OF_MEMORY => "OUT_OF_MEMORY",
        PvRecorderStatus::INVALID_ARGUMENT => "INVALID_ARGUMENT",
        PvRecorderStatus::INVALID_STATE => "INVALID_STATE",
        PvRecorderStatus::BACKEND_ERROR => "BACKEND_ERROR",
        PvRecorderStatus::DEVICE_ALREADY_INITIALIZED => "DEVICE_ALREADY_INITIALIZED",
        PvRecorderStatus::DEVICE_NOT_INITIALIZED => "DEVICE_NOT_INITIALIZED",
        PvRecorderStatus::IO_ERROR => "IO_ERROR",
        PvRecorderStatus::RUNTIME_ERROR => "RUNTIME_ERROR",
    }
}

/// The label of an error category, as its debug rendering prints it.
pub open spec fn spec_status_label(s: PvRecorderErrorStatus) -> Seq<char> {
    match s {
        PvRecorderErrorStatus::LibraryError(inner) => "LibraryError("@ + spec_status_name(inner)
            + ")"@,
        PvRecorderErrorStatus::LibraryLoadError => "LibraryLoadError"@,
        PvRecorderErrorStatus::ArgumentError => "ArgumentError"@,
        PvRecorderErrorStatus::StringEncodingError => "StringEncodingError"@,
        PvRecorderErrorStatus::OtherError => "OtherError"@,
    }
}

/// The label of an error category as an owned string.
pub fn status_label(s: &PvRecorderErrorStatus) -> (r: String)
    ensures
        r@ == spec_status_label(*s),
{
    match s {
        PvRecorderErrorStatus::LibraryError(inner) => {
            let mut r = "LibraryError(".to_owned();
            r.append(status_name(*inner));
            r.append(")");
            r
        },
        PvRecorderErrorStatus::LibraryLoadError => "LibraryLoadError".to_owned(),
        PvRecorderErrorStatus::ArgumentError => "ArgumentError".to_owned(),
        PvRecorderErrorStatus::StringEncodingError => "StringEncodingError".to_owned(),
        PvRecorderErrorStatus::OtherError => "OtherError".to_owned(),
    }
}

impl PvRecorderError {
    /// The category of this error.
    pub closed spec fn spec_status(&self) -> PvRecorderErrorStatus {
        self.status
    }

    /// The message of this error.
    pub closed spec fn spec_message(&self) -> Seq<char> {
        self.message@
    }

    /// Makes an error from a category and a message.
    pub fn new(status: PvRecorderErrorStatus, message: &str) -> (r: Self)
        ensures
            r.spec_status() == status,
            r.spec_message() == message@,
    {
        Self { status, message: message.to_owned() }
    }

    /// Returns the error status category.
    pub fn status(&self) -> (r: &PvRecorderErrorStatus)
        ensures
            *r == self.spec_status(),
    {
        &self.status
    }

    /// Returns the error message.
    pub fn message(&self) -> (r: &str)
        ensures
            r@ == self.spec_message(),
    {
        self.message.as_str()
    }

    /// Renders the error as `message: category`, the form its display
    /// output takes.
    pub fn display_string(&self) -> (r: String)
        ensures
            r@ == self.spec_message() + ": "@ + spec_status_label(self.spec_status()),
    {
        let mut r = self.message.clone();
        r.append(": ");
        let label = status_label(&self.status);
        r.append(label.as_str());
        r
    }
}

/// The message reported when a native entry point returns a
/// non-success status.
pub open spec fn spec_native_call_message(function_name: Seq<char>) -> Seq<char> {
    "Function '"@ + function_name + "' in the pvrecorder library failed"@
}

/// What an error reporting a failed native call looks like: it
/// carries a non-success status verbatim and its message names the
/// entry point that failed.
pub open spec fn spec_native_failure(e: PvRecorderError, entry_point: Seq<char>) -> bool {
    &&& e.spec_status() matches PvRecorderErrorStatus::LibraryError(s) && s
        != PvRecorderStatus::SUCCESS
    &&& e.spec_message() == spec_native_call_message(entry_point)
}

/// Turns the status a native entry point returned into a result:
/// success becomes `Ok`, anything else an error that carries the
/// status verbatim and names the entry point.
pub fn check_fn_call_status(status: PvRecorderStatus, function_name: &str) -> (r: Result<
    (),
    PvRecorderError,
>)
    ensures
        r is Ok <==> status == PvRecorderStatus::SUCCESS,
        r is Err ==> {
            &&& (r->Err_0).spec_status() == PvRecorderErrorStatus::LibraryError(status)
            &&& (r->Err_0).spec_message() == spec_native_call_message(function_name@)
            &&& mentions((r->Err_0).spec_message(), function_name@)
        },
{
    match status {
        PvRecorderStatus::SUCCESS => Ok(()),
        _ => {
            let mut m = "Function '".to_owned();
            m.append(function_name);
            m.append("' in the pvrecorder library failed");
            proof {
                assert(m@ =~= "Function '"@ + function_name@
                    + "' in the pvrecorder library failed"@);
                lemma_mentions_infix(
                    "Function '"@,
                    function_name@,
                    "' in the pvrecorder library failed"@,
                );
            }
            Err(PvRecorderError::new(PvRecorderErrorStatus::LibraryError(status), m.as_str()))
        },
    }
}

} // verus!
