//! GPIO line numbers of the default wiring.

use vstd::prelude::*;

verus! {

pub const X_ENABLE_PIN_NUMBER: u64 = 17;

pub const X_STEP_PIN_NUMBER: u64 = 18;

pub const X_DIRECTION_PIN_NUMBER: u64 = 19;

pub const X_MIN_ENDSTOP_PIN_NUMBER: u32 = 20;

pub const X_MAX_ENDSTOP_PIN_NUMBER: u32 = 21;

pub const Y_ENABLE_PIN_NUMBER: u64 = 24;

pub const Y_STEP_PIN_NUMBER: u64 = 25;

pub const Y_DIRECTION_PIN_NUMBER: u64 = 22;

pub const Y_MIN_ENDSTOP_PIN_NUMBER: u32 = 13;

pub const Y_MAX_ENDSTOP_PIN_NUMBER: u32 = 27;

pub const Z_ENABLE_PIN_NUMBER: u64 = 23;

pub const Z_STEP_PIN_NUMBER: u64 = 12;

pub const Z_DIRECTION_PIN_NUMBER: u64 = 16;

pub const Z_MAX_ENDSTOP_PIN_NUMBER: u32 = 26;

pub const SPINDLE_PIN_NUMBER: u32 = 6;

} // verus!
