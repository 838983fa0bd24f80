//! A duty-cycled, voice-triggered lighting controller.
//!
//! The library holds everything the controller decides or computes: the clock
//! gate that tells listening hours from idle hours, the ordered keyword table
//! and its first-match dispatch policy, the actuator path built from an
//! action, and the session state machine that couples the recognizer and
//! audio handles across on/off transitions. Audio capture, speech
//! recognition and the HTTP actuator call are outside capabilities; the
//! binary around this library performs them and feeds plain values back in.

pub mod action;
pub mod clock;
pub mod dispatch;
pub mod session;
pub mod text;
