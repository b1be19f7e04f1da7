//! Core of a windowed GPU presentation loop.
//!
//! The library models, with plain values, everything the loop decides:
//! negotiating a surface configuration against reported capabilities,
//! resizing and reconfiguring the surface, planning the per-frame clear
//! pass, and the event-dispatch state machine that sequences
//! initialization, redraw, resize and error recovery. The platform window
//! and the graphics backend themselves are outside collaborators: a host
//! program performs their calls and feeds the outcomes back in.

pub mod application;
pub mod dispatcher;
pub mod errors;
pub mod frame;
pub mod surface;
pub mod window;
