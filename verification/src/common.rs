//! Axis and endstop identifiers shared by every component.

use vstd::prelude::*;

verus! {

/// One of the three Cartesian motion axes.
#[derive(Copy, Clone, Debug, PartialEq, Eq, Structural)]
pub enum Axis {
    X,
    Y,
    Z,
}

/// One extreme of an axis.
#[derive(Copy, Clone, Debug, PartialEq, Eq, Structural)]
pub enum AxisEnd {
    Min,
    Max,
}

/// Names one limit switch: the axis it bounds and which end of the travel it
/// sits at.  This machine has five: Z has no Min switch.
#[derive(Copy, Clone, Debug, PartialEq, Eq, Structural)]
pub struct EndstopIdentifier {
    pub axis: Axis,
    pub position: AxisEnd,
}

impl EndstopIdentifier {
    pub fn new(axis: Axis, position: AxisEnd) -> (r: Self)
        ensures
            r.axis == axis,
            r.position == position,
    {
        EndstopIdentifier { axis, position }
    }
}

} // verus!
