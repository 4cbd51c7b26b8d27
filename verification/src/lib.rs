//! The window subsystem of the AxWindow plugin: window lifecycle, the
//! identity registry of native handles, and the translation of native
//! messages into a stable cross-platform event model.
//!
//! Everything native is handed in and out as plain values: the unverified
//! shell decodes OS messages into [`axevent::AxRawEvent`] values and
//! reports creation outcomes as [`axwindow::AxNativeCreation`]; the window
//! state machine, its geometry and input bookkeeping, and the per-poll
//! event queue are verified here.

pub mod axevent;
pub mod axkeys;
pub mod axmessage;
pub mod axplatform;
pub mod axstate;
pub mod axstyle;
pub mod axtypes;
pub mod axwindow;
