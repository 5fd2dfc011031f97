//! The heart of a desktop utility that, at a hotkey, captures a region of
//! the screen, sends it to a chat service that reads images, and puts the
//! streamed answer on the clipboard or into a dialog.
//!
//! The library holds the rules, with contracts that Verus checks; it does
//! no input or output of its own. What it keeps:
//!
//! - [`profile`] and [`config`]: the profiles, the active one, the shared
//!   settings, and the operations on them, each of which succeeds or leaves
//!   everything as it was;
//! - [`store`]: the one owner of the configuration, whose changes are kept
//!   only once they are written out;
//! - [`codec`] and [`commands`]: the configuration as a document, and what
//!   the settings page sends;
//! - [`analysis`], [`pipeline`] and [`sse`]: the request for an image, the
//!   attempts to send it, and the answer stream;
//! - [`models`]: the list of models that a service offers;
//! - [`dispatch`] and [`capture`]: what a press of a hotkey sets off;
//! - [`tray`], [`dialog`], [`hotkey`] and [`errors`]: the texts that the
//!   user sees;
//! - [`json`], [`text`] and [`ids`]: documents, character sequences and
//!   identifiers.

pub mod analysis;
pub mod capture;
pub mod codec;
pub mod commands;
pub mod config;
pub mod dialog;
pub mod dispatch;
pub mod errors;
pub mod hotkey;
pub mod ids;
pub mod json;
pub mod models;
pub mod pipeline;
pub mod profile;
pub mod sse;
pub mod store;
pub mod text;
pub mod tray;

pub use analysis::{AnalysisError, AnalysisRequest};
pub use capture::{CaptureError, ImageKind};
pub use config::{Config, ConfigError};
pub use dispatch::{
    CaptureRun, DialogKind, DispatchAction, DispatchEvent, HotkeyDispatcher, KeyState, SoundKind,
    Trigger,
};
pub use errors::{sanitize_error, ErrorCategory};
pub use hotkey::format_hotkey_for_display;
pub use json::JsonValue;
pub use pipeline::{analyze, Analysis, AnalysisAction, AnalysisEvent, AnalysisOutcome};
pub use profile::{
    ApiConfig, ConfigUpdates, ModelInfo, OutputMode, Profile, ProfileConfigUpdate, PromptMode,
};
pub use sse::{SseEvent, SseParser};
pub use store::{ConfigMutation, ConfigStore, SaveStep, Transaction};
