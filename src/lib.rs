//! Emulation of a USB boot keyboard that types text.
//!
//! `scancode` maps input bytes to HID usages, `keyboard` holds the pressed
//! keys and modifiers and builds the seven-byte report, and `sequencer`
//! decides, report by report, how a text is typed: one report with the
//! character's key held, one with everything released. `laws` states the
//! properties that tie these together.
mod key_slots;
pub mod scancode;
pub mod keyboard;
pub mod sequencer;
pub mod laws;
