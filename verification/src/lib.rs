//! Core of a live audio scope: device selection, the capture session
//! lifecycle, the hand-off of sample blocks from the capture side to the
//! drawing side, and the conversion of a block into a polyline.
//!
//! Everything here works on plain values. The host audio subsystem and the
//! window toolkit stay outside: the caller performs the [`controller::Command`]s
//! that the controller returns and reports what the host answered as
//! [`controller::Message`]s.

pub mod controller;
pub mod device;
pub mod frame;
pub mod sample;
pub mod session;
pub mod waveform;
