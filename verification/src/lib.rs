//! Interpreter of the samples of a laptop's touch surface that doubles as a
//! numeric keypad.
//!
//! A long tap in one corner of the surface switches it from a pointer to a
//! keypad; while it is a keypad, a touch on a printed key types that key.
//! The interpreter takes the samples one at a time and returns what is to
//! be done about each: keys to press and release, the level at which to
//! light the keypad, and whether to keep the surface from the pointer. It
//! does none of this itself.
//!
//! - [`time`]: time values and the time elapsed between two of them.
//! - [`brightness`]: the levels of the keypad's light.
//! - [`layout`]: where the keys and the switching region are.
//! - [`event`]: the samples that come in and the commands that go out.
//! - [`state`]: what is remembered between samples, and the transition from
//!   one sample to the next as a function.
//! - [`numpad`]: the interpreter itself.
//! - [`laws`]: what holds of every run of the interpreter.
pub mod brightness;
pub mod event;
pub mod laws;
pub mod layout;
pub mod numpad;
pub mod state;
pub mod time;
