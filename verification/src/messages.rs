//! The typed event union that connects the control loops.
//!
//! Positions and distances are microinches, speeds are microinches per
//! second.  `wf` of each message states the machine-limit bounds under which
//! the receiving loops operate.

use vstd::prelude::*;

use crate::common::{Axis, EndstopIdentifier};
use crate::operation_controllers::SurfaceGrinderCutParams;
use crate::units::{MAX_COMMAND_UIN, MAX_REPORTED_UIN};

verus! {

/// Position of all three axes, in microinches, as reported by the motor loop.
#[derive(Copy, Clone, Debug, PartialEq, Eq, Structural)]
pub struct CurrentPositionMsg {
    pub x: i64,
    pub y: i64,
    pub z: i64,
}

impl CurrentPositionMsg {
    pub open spec fn wf(self) -> bool {
        &&& -MAX_REPORTED_UIN <= self.x <= MAX_REPORTED_UIN
        &&& -MAX_REPORTED_UIN <= self.y <= MAX_REPORTED_UIN
        &&& -MAX_REPORTED_UIN <= self.z <= MAX_REPORTED_UIN
    }

    pub fn new() -> (m: Self)
        ensures
            m.x == 0 && m.y == 0 && m.z == 0,
            m.wf(),
    {
        CurrentPositionMsg { x: 0, y: 0, z: 0 }
    }
}

/// A limit switch changed level: `value` is true while it is pressed.
#[derive(Copy, Clone, Debug, PartialEq, Eq, Structural)]
pub struct EndstopHitMsg {
    pub endstop: EndstopIdentifier,
    pub value: bool,
}

/// Move an axis to an absolute position at a given speed.
#[derive(Copy, Clone, Debug, PartialEq, Eq, Structural)]
pub struct GoToPositionMsg {
    pub axis: Axis,
    pub position: i64,
    pub speed: u32,
}

impl GoToPositionMsg {
    pub open spec fn wf(self) -> bool {
        -MAX_COMMAND_UIN <= self.position <= MAX_COMMAND_UIN
    }
}

/// Move an axis by a relative distance at a given speed.
#[derive(Copy, Clone, Debug, PartialEq, Eq, Structural)]
pub struct MoveAxisRelMsg {
    pub axis: Axis,
    pub distance: i64,
    pub speed: u32,
}

impl MoveAxisRelMsg {
    pub open spec fn wf(self) -> bool {
        -MAX_COMMAND_UIN <= self.distance <= MAX_COMMAND_UIN
    }
}

/// An axis finished moving: it reached its target, or it was halted because
/// the endstop in its direction of travel was pressed.
#[derive(Copy, Clone, Debug, PartialEq, Eq, Structural)]
pub struct MovementCompleteMsg {
    pub axis: Axis,
    pub endstop_hit: bool,
}

/// Switch the spindle on or off.
#[derive(Copy, Clone, Debug, PartialEq, Eq, Structural)]
pub struct SpindleControlMsg {
    pub on: bool,
}

/// Every event that crosses a channel between the control loops.
#[derive(Copy, Clone, Debug, PartialEq, Eq, Structural)]
pub enum Message {
    CurrentPositionMsgType(CurrentPositionMsg),
    EndstopHitMsgType(EndstopHitMsg),
    GoToPositionMsgType(GoToPositionMsg),
    MoveAxisRelMsgType(MoveAxisRelMsg),
    MovementCompleteMsgType(MovementCompleteMsg),
    SpindleControlMsgType(SpindleControlMsg),
    StartHomingMsgType(),
    StartSurfaceGrinderCutMsgType(SurfaceGrinderCutParams),
    StopMsgType(),
}

impl Message {
    pub open spec fn wf(self) -> bool {
        match self {
            Message::CurrentPositionMsgType(m) => m.wf(),
            Message::GoToPositionMsgType(m) => m.wf(),
            Message::MoveAxisRelMsgType(m) => m.wf(),
            Message::StartSurfaceGrinderCutMsgType(p) => p.wf(),
            _ => true,
        }
    }
}

} // verus!
