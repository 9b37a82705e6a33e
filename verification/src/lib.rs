//! Screen-edge gestures.
//!
//! Pointer samples are classified into screen zones, zone changes are
//! debounced into touch gestures, and each (zone, gesture) pair is resolved
//! to an action through a configurable table. Every decision is a verified
//! function on plain values; reading the input devices and sending keys is
//! left to the caller.

pub mod action;
pub mod blacklist;
pub mod config;
pub mod dispatcher;
pub mod screen_position;
pub mod screen_size;
pub mod user_operation;
