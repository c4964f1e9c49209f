//! Core of a Wayland compositor: the shared window/output model, the
//! interactive resize grab state machine, the foreign-protocol (X11-style)
//! window lifecycle bridge, and the per-output render composition pipeline,
//! together with the pure parts of the client configuration API.
//!
//! Everything here is plain state-machine and list logic over integer
//! geometry: protocol I/O, GPU submission and RPC transport live outside this
//! crate and talk to it through plain values and action lists.

pub mod actions;
pub mod api_output;
pub mod api_signal;
pub mod api_tag;
pub mod api_window;
pub mod geometry;
pub mod model;
pub mod modeline;
pub mod mouse_area;
pub mod operation;
pub mod render;
pub mod resize_grab;
pub mod state;
pub mod text_input;
pub mod widget;
pub mod wire;
pub mod window;
pub mod xwayland;
