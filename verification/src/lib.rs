//! A safe facade over a dynamically loaded native audio-capture library.
//!
//! The native layer is reached only through a fixed set of entry points.
//! This crate holds the logic that sits on top of those entry points:
//! argument validation, status-code translation, handle-lifecycle
//! decisions and string marshaling. The actual dynamic loading and the
//! foreign calls are supplied by an adapter implementing the port traits
//! of [`port`]; everything on this side of that boundary is verified.

pub mod builder;
pub mod decimal;
pub mod devices;
pub mod error;
pub mod loader;
pub mod port;
pub mod recorder;
pub mod status;

pub use builder::PvRecorderBuilder;
pub use error::PvRecorderError;
pub use error::PvRecorderErrorStatus;
pub use recorder::PvRecorder;
pub use status::PvRecorderStatus;
