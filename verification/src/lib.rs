//! Control logic for a system default audio output device.
//!
//! The library models one audio output device as an immutable snapshot taken
//! at construction time: a device identifier plus the list of per-channel
//! indices that were discovered then. Volume and mute operations are split
//! into verified decision logic (what to write where, how to aggregate what
//! was read) and the platform property calls themselves, which the caller
//! performs and whose raw results it hands back as plain values.

use vstd::prelude::*;

pub mod error;
pub mod device;
pub mod discovery;
pub mod property;

verus! {

/// The well-known object identifier of the audio system itself, used only to
/// ask which device is currently the default output.
pub const SYSTEM_OBJECT_ID: u32 = 1;

} // verus!
