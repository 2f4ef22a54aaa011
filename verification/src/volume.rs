//! Setting the audio volume of the device, which the audio driver takes as a raw gain and a
//! mute switch.

use vstd::prelude::*;

verus! {

/// The lowest raw volume; at or below it the output is muted.
pub const MIN_RAW_VALUE: i32 = -60;

/// The highest raw volume.
pub const MAX_RAW_VALUE: i32 = 0;

/// What to hand the audio driver when the volume is set: the raw volume, and whether to
/// switch muting on (`Some(true)`), off (`Some(false)`) or leave it as it is (`None`).
#[derive(Debug, Clone, Copy, PartialEq, Eq, Structural)]
pub struct VolumeChange {
    pub volume: i32,
    pub mute: Option<bool>,
}

/// `v` held within the raw volume range.
pub open spec fn clamp_volume(v: int) -> int {
    if v < MIN_RAW_VALUE {
        MIN_RAW_VALUE as int
    } else if v > MAX_RAW_VALUE {
        MAX_RAW_VALUE as int
    } else {
        v
    }
}

/// Whether a raw volume is silent.
pub open spec fn is_silent(v: int) -> bool {
    v <= MIN_RAW_VALUE
}

/// Sets the volume to `volume`, given the volume `prev_volume` the driver reported before:
/// the volume is held within the raw range, and muting is switched off when leaving the
/// lowest volume and on when reaching it.
pub fn set(prev_volume: i32, volume: i32) -> (c: VolumeChange)
    ensures
        c.volume == clamp_volume(volume as int),
        c.mute == if is_silent(prev_volume as int) && !is_silent(c.volume as int) {
            Some(false)
        } else if !is_silent(prev_volume as int) && is_silent(c.volume as int) {
            Some(true)
        } else {
            None
        },
{
    let volume = if volume < MIN_RAW_VALUE {
        MIN_RAW_VALUE
    } else if volume > MAX_RAW_VALUE {
        MAX_RAW_VALUE
    } else {
        volume
    };
    let mute = if prev_volume <= MIN_RAW_VALUE && volume > MIN_RAW_VALUE {
        Some(false)
    } else if prev_volume > MIN_RAW_VALUE && volume <= MIN_RAW_VALUE {
        Some(true)
    } else {
        None
    };
    VolumeChange { volume, mute }
}

/// When muting matched the previous volume (muted exactly when it was silent), it matches the
/// new volume after the change is applied.
pub proof fn lemma_mute_follows_volume(prev_volume: i32, muted: bool, volume: i32, c: VolumeChange)
    requires
        muted == is_silent(prev_volume as int),
        c.volume == clamp_volume(volume as int),
        c.mute == if is_silent(prev_volume as int) && !is_silent(c.volume as int) {
            Some(false)
        } else if !is_silent(prev_volume as int) && is_silent(c.volume as int) {
            Some(true)
        } else {
            None
        },
    ensures
        (match c.mute {
            Some(m) => m,
            None => muted,
        }) == is_silent(c.volume as int),
        MIN_RAW_VALUE <= c.volume <= MAX_RAW_VALUE,
{
}

} // verus!
