//! A native input method bridge for Linux: hosts that draw themselves talk to
//! Fcitx5, Fcitx 4 or IBus over D-Bus, without a window of their own.
//!
//! A host holds an [`ImeHandle`], or an [`ImeEngine`] of its own making, on an
//! [`ImeBackend`]. Calls go to the backend; [`ImeEvent`]s come back on a queue.
//! What each framework is asked, and what its signals and answers mean, stands
//! in [`fcitx5`], [`fcitx4`] and [`ibus`]; sending and receiving is left to the
//! program around the library.

pub mod backend;
pub mod convert;
pub mod detect;
pub mod engine;
pub mod event_data;
pub mod fcitx4;
pub mod fcitx5;
pub mod ffi;
pub mod handle;
pub mod ibus;
pub mod object_path;
pub mod poc;
pub mod poc_args;
pub mod poc_report;
pub mod queue;
pub mod text;
pub mod types;
pub mod variant;

pub use backend::ImeBackend;
pub use engine::ImeEngine;
pub use event_data::ImeEventData;
pub use handle::ImeHandle;
pub use types::{BackendKind, ContentType, CursorRect, ImeCapabilities, ImeEvent, KeyState};
