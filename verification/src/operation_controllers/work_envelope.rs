//! The axis-aligned box of valid positions, discovered by homing.

use vstd::prelude::*;

use crate::common::{Axis, AxisEnd};
use crate::units::MAX_REPORTED_UIN;

verus! {

/// Six bounds in microinches, one per axis end.  Created with sentinel wide
/// bounds and narrowed by the homing procedure.
#[derive(Copy, Clone, Debug, PartialEq, Eq, Structural)]
pub struct WorkEnvelope {
    pub min_x: i64,
    pub min_y: i64,
    pub min_z: i64,
    pub max_x: i64,
    pub max_y: i64,
    pub max_z: i64,
}

impl WorkEnvelope {
    /// The field named by an (axis, end) pairing.
    pub open spec fn extent_spec(self, axis: Axis, end: AxisEnd) -> i64 {
        match (axis, end) {
            (Axis::X, AxisEnd::Min) => self.min_x,
            (Axis::Y, AxisEnd::Min) => self.min_y,
            (Axis::Z, AxisEnd::Min) => self.min_z,
            (Axis::X, AxisEnd::Max) => self.max_x,
            (Axis::Y, AxisEnd::Max) => self.max_y,
            (Axis::Z, AxisEnd::Max) => self.max_z,
        }
    }

    /// Every bound lies within the reporting limit of the motor loop.
    pub open spec fn bounded(self) -> bool {
        &&& -MAX_REPORTED_UIN <= self.min_x <= MAX_REPORTED_UIN
        &&& -MAX_REPORTED_UIN <= self.min_y <= MAX_REPORTED_UIN
        &&& -MAX_REPORTED_UIN <= self.min_z <= MAX_REPORTED_UIN
        &&& -MAX_REPORTED_UIN <= self.max_x <= MAX_REPORTED_UIN
        &&& -MAX_REPORTED_UIN <= self.max_y <= MAX_REPORTED_UIN
        &&& -MAX_REPORTED_UIN <= self.max_z <= MAX_REPORTED_UIN
    }

    /// Each axis's lower bound is at most its upper bound.
    pub open spec fn ordered(self) -> bool {
        self.min_x <= self.max_x && self.min_y <= self.max_y && self.min_z <= self.max_z
    }

    /// The sentinel envelope: 256 inches out on each side of X and Y, and a
    /// zero-height Z range.
    pub fn new() -> (e: Self)
        ensures
            e.min_x == -256_000_000 && e.max_x == 256_000_000,
            e.min_y == -256_000_000 && e.max_y == 256_000_000,
            e.min_z == 0 && e.max_z == 0,
            e.bounded(),
            e.ordered(),
    {
        WorkEnvelope {
            min_x: -256_000_000,
            min_y: -256_000_000,
            min_z: 0,
            max_x: 256_000_000,
            max_y: 256_000_000,
            max_z: 0,
        }
    }

    /// Returns the bound of the envelope named by the (axis, end) pairing,
    /// exhaustively over the six cases.
    pub fn get_extent(&self, axis: Axis, end: AxisEnd) -> (extent: i64)
        ensures
            extent == self.extent_spec(axis, end),
            axis is X && end is Min ==> extent == self.min_x,
            axis is Y && end is Min ==> extent == self.min_y,
            axis is Z && end is Min ==> extent == self.min_z,
            axis is X && end is Max ==> extent == self.max_x,
            axis is Y && end is Max ==> extent == self.max_y,
            axis is Z && end is Max ==> extent == self.max_z,
    {
        match (axis, end) {
            (Axis::X, AxisEnd::Min) => self.min_x,
            (Axis::Y, AxisEnd::Min) => self.min_y,
            (Axis::Z, AxisEnd::Min) => self.min_z,
            (Axis::X, AxisEnd::Max) => self.max_x,
            (Axis::Y, AxisEnd::Max) => self.max_y,
            (Axis::Z, AxisEnd::Max) => self.max_z,
        }
    }
}

} // verus!
