//! The multi-pass surface-grinding cut procedure.

use vstd::prelude::*;

use crate::common::{Axis, AxisEnd, EndstopIdentifier};
use crate::messages::{
    GoToPositionMsg, Message, MoveAxisRelMsg, MovementCompleteMsg, SpindleControlMsg,
};
use crate::units::{MAX_COMMAND_UIN, MAX_POSITION_UIN, MAX_REPORTED_UIN};

use super::manual_control_controller::NoOpOperationParams;
use super::operation_controller::{generic_stop, OperationParameters};
use super::operation_controller_data::OperationControllerData;

verus! {

/// Wall-clock milliseconds the spindle is given to come up to speed.
pub const SPINDLE_SPIN_UP_MS: u64 = 3000;

pub open spec fn min_val(a: int, b: int) -> int {
    if a < b {
        a
    } else {
        b
    }
}

/// Parameters of one surface-grinding job, in microinches (speed in
/// microinches per second).
#[derive(Copy, Clone, Debug, PartialEq, Eq, Structural)]
pub struct SurfaceGrinderCutParams {
    /// Z depth removed by each pass.
    pub depth_of_cut: i64,
    /// Y feed between successive X strokes.
    pub feed_per_pass: i64,
    /// Speed of every cut move.
    pub stroke_speed: u32,
    /// Total Z depth to remove.
    pub total_depth: i64,
}

impl SurfaceGrinderCutParams {
    pub open spec fn wf(self) -> bool {
        &&& 0 < self.depth_of_cut <= MAX_POSITION_UIN
        &&& 0 < self.feed_per_pass <= MAX_POSITION_UIN
        &&& 0 < self.total_depth <= MAX_POSITION_UIN
        &&& self.stroke_speed > 0
    }

    /// An all-zero placeholder; not a usable set of parameters.
    pub fn new() -> (p: Self)
        ensures
            p.depth_of_cut == 0,
            p.feed_per_pass == 0,
            p.stroke_speed == 0,
            p.total_depth == 0,
    {
        SurfaceGrinderCutParams { depth_of_cut: 0, feed_per_pass: 0, stroke_speed: 0, total_depth: 0 }
    }
}

/// The states of the cut cycle's raster state machine.
#[derive(Copy, Clone, Debug, PartialEq, Eq, Structural)]
pub enum SurfaceGrinderCutState {
    Idle,
    ToStartingPositionX,
    ToStartingPositionY,
    SpindleSpinUp,
    XCut,
    XReturn,
    YReturn,
    YOut,
    ZDown,
}

/// Whether an axis has reached one of its ends, judged only from the
/// replicated state: the endstop there is pressed, or the reported position
/// has crossed the envelope bound for that end.
pub open spec fn reached_extent_spec(
    data: OperationControllerData,
    axis: Axis,
    end: AxisEnd,
) -> bool {
    ||| data.endstop_status_client.pressed(EndstopIdentifier { axis, position: end })
    ||| (if end is Min {
        data.position_client.axis_position_spec(axis) <= data.work_envelope.extent_spec(axis, end)
    } else {
        data.position_client.axis_position_spec(axis) >= data.work_envelope.extent_spec(axis, end)
    })
}

/// Whether an axis's reported position is within one motor step of a
/// target, comparing after integer-step quantization to tolerate the
/// rounding of the unit conversions.
pub open spec fn close_enough_spec(
    data: OperationControllerData,
    axis: Axis,
    position: int,
) -> bool {
    let cfg = data.config_client.config.motor_configs.axis_config(axis);
    let current = cfg.inches_to_steps_spec(data.position_client.axis_position_spec(axis) as int);
    let target = cfg.inches_to_steps_spec(position);
    -1 <= current - target <= 1
}

/// The distance from an axis's reported position to an envelope bound.
pub open spec fn distance_to_extent_spec(
    data: OperationControllerData,
    axis: Axis,
    end: AxisEnd,
) -> int {
    let d = data.work_envelope.extent_spec(axis, end)
        - data.position_client.axis_position_spec(axis);
    if d < 0 {
        -d
    } else {
        d
    }
}

/// The cut procedure: a multi-pass climb-grind raster over the work
/// envelope, descending `depth_of_cut` per layer until `total_depth` below
/// the starting height.
#[derive(Copy, Clone, Debug, PartialEq, Eq, Structural)]
pub struct SurfaceGrinderCutController {
    pub cut_params: SurfaceGrinderCutParams,
    pub state: SurfaceGrinderCutState,
    /// When the spindle was switched on, from the caller's millisecond
    /// clock.
    pub spindle_started_ms: u64,
    /// The Z position when the cut began; depth is measured from here.
    pub starting_height: i64,
}

impl SurfaceGrinderCutController {
    pub open spec fn wf(self) -> bool {
        &&& self.cut_params.wf()
        &&& -MAX_REPORTED_UIN <= self.starting_height <= MAX_REPORTED_UIN
    }

    /// The Z position the finished cut ends at.
    pub open spec fn depth_target_spec(self) -> int {
        self.starting_height - self.cut_params.total_depth
    }

    /// How much Z travel is left to the finished depth.
    pub open spec fn depth_remaining_spec(self, data: OperationControllerData) -> int {
        let d = self.depth_target_spec() - data.position_client.axis_position_spec(Axis::Z);
        if d < 0 {
            -d
        } else {
            d
        }
    }

    /// The next-state function of the raster, from the replicated state
    /// alone.
    pub open spec fn get_next_state_spec(
        self,
        data: OperationControllerData,
    ) -> SurfaceGrinderCutState {
        match self.state {
            SurfaceGrinderCutState::Idle => SurfaceGrinderCutState::Idle,
            SurfaceGrinderCutState::ToStartingPositionX => SurfaceGrinderCutState::ToStartingPositionY,
            SurfaceGrinderCutState::ToStartingPositionY => SurfaceGrinderCutState::SpindleSpinUp,
            SurfaceGrinderCutState::SpindleSpinUp => SurfaceGrinderCutState::XCut,
            SurfaceGrinderCutState::XCut => SurfaceGrinderCutState::XReturn,
            SurfaceGrinderCutState::XReturn => if reached_extent_spec(
                data,
                Axis::Y,
                AxisEnd::Min,
            ) {
                SurfaceGrinderCutState::YReturn
            } else {
                SurfaceGrinderCutState::YOut
            },
            SurfaceGrinderCutState::YOut => SurfaceGrinderCutState::XCut,
            SurfaceGrinderCutState::YReturn => if close_enough_spec(
                data,
                Axis::Z,
                self.depth_target_spec(),
            ) {
                SurfaceGrinderCutState::Idle
            } else {
                SurfaceGrinderCutState::ZDown
            },
            SurfaceGrinderCutState::ZDown => SurfaceGrinderCutState::XCut,
        }
    }

    /// The one message a state sends on entry.  Idle sends `Stop`; every
    /// moving state sends its move; spin-up switches the spindle on.
    pub open spec fn entry_msg_spec(
        self,
        data: OperationControllerData,
        state: SurfaceGrinderCutState,
    ) -> Message {
        match state {
            SurfaceGrinderCutState::Idle => Message::StopMsgType(),
            SurfaceGrinderCutState::ToStartingPositionX => Message::GoToPositionMsgType(
                GoToPositionMsg {
                    axis: Axis::X,
                    position: data.work_envelope.min_x,
                    speed: self.cut_params.stroke_speed,
                },
            ),
            SurfaceGrinderCutState::ToStartingPositionY => Message::GoToPositionMsgType(
                GoToPositionMsg {
                    axis: Axis::Y,
                    position: data.work_envelope.max_y,
                    speed: self.cut_params.stroke_speed,
                },
            ),
            SurfaceGrinderCutState::SpindleSpinUp => Message::SpindleControlMsgType(
                SpindleControlMsg { on: true },
            ),
            SurfaceGrinderCutState::XCut => Message::GoToPositionMsgType(
                GoToPositionMsg {
                    axis: Axis::X,
                    position: data.work_envelope.max_x,
                    speed: self.cut_params.stroke_speed,
                },
            ),
            SurfaceGrinderCutState::XReturn => Message::GoToPositionMsgType(
                GoToPositionMsg {
                    axis: Axis::X,
                    position: data.work_envelope.min_x,
                    speed: self.cut_params.stroke_speed,
                },
            ),
            SurfaceGrinderCutState::YOut => Message::MoveAxisRelMsgType(
                MoveAxisRelMsg {
                    axis: Axis::Y,
                    distance: (-min_val(
                        self.cut_params.feed_per_pass as int,
                        distance_to_extent_spec(data, Axis::Y, AxisEnd::Min),
                    )) as i64,
                    speed: self.cut_params.stroke_speed,
                },
            ),
            SurfaceGrinderCutState::YReturn => Message::GoToPositionMsgType(
                GoToPositionMsg {
                    axis: Axis::Y,
                    position: data.work_envelope.max_y,
                    speed: self.cut_params.stroke_speed,
                },
            ),
            SurfaceGrinderCutState::ZDown => Message::MoveAxisRelMsgType(
                MoveAxisRelMsg {
                    axis: Axis::Z,
                    distance: (-min_val(
                        self.cut_params.depth_of_cut as int,
                        self.depth_remaining_spec(data),
                    )) as i64,
                    speed: self.cut_params.stroke_speed,
                },
            ),
        }
    }

    /// Construct the procedure and begin the cutting process.
    pub fn new(
        data: &mut OperationControllerData,
        cut_params: SurfaceGrinderCutParams,
        now_ms: u64,
    ) -> (c: Self)
        requires
            old(data).wf(),
            cut_params.wf(),
        ensures
            final(data).wf(),
            c.wf(),
            c.cut_params == cut_params,
            c.state is ToStartingPositionX,
            c.starting_height == old(data).position_client.axis_position_spec(Axis::Z),
            final(data).motor_outbox@ == old(data).motor_outbox@.push(
                Message::GoToPositionMsgType(
                    GoToPositionMsg {
                        axis: Axis::X,
                        position: old(data).work_envelope.min_x,
                        speed: cut_params.stroke_speed,
                    },
                ),
            ),
            final(data).config_client == old(data).config_client,
            final(data).endstop_status_client == old(data).endstop_status_client,
            final(data).position_client == old(data).position_client,
            final(data).work_envelope == old(data).work_envelope,
            final(data).pending_operation_params == old(data).pending_operation_params,
    {
        let mut ret = SurfaceGrinderCutController {
            cut_params,
            state: SurfaceGrinderCutState::Idle,
            spindle_started_ms: now_ms,
            starting_height: 0,
        };
        ret.start_cut(data, cut_params, now_ms);
        ret
    }

    /// Record the parameters and the starting height, and move X to the
    /// starting corner.
    pub fn start_cut(
        &mut self,
        data: &mut OperationControllerData,
        params: SurfaceGrinderCutParams,
        now_ms: u64,
    )
        requires
            old(data).wf(),
            params.wf(),
        ensures
            final(data).wf(),
            final(self).wf(),
            final(self).cut_params == params,
            final(self).state is ToStartingPositionX,
            final(self).starting_height == old(data).position_client.axis_position_spec(Axis::Z),
            final(self).spindle_started_ms == old(self).spindle_started_ms,
            final(data).motor_outbox@ == old(data).motor_outbox@.push(
                Message::GoToPositionMsgType(
                    GoToPositionMsg {
                        axis: Axis::X,
                        position: old(data).work_envelope.min_x,
                        speed: params.stroke_speed,
                    },
                ),
            ),
            final(data).config_client == old(data).config_client,
            final(data).endstop_status_client == old(data).endstop_status_client,
            final(data).position_client == old(data).position_client,
            final(data).work_envelope == old(data).work_envelope,
            final(data).pending_operation_params == old(data).pending_operation_params,
    {
        self.cut_params = params;
        self.starting_height = data.position_client.get_axis_position(Axis::Z);
        self.set_state(data, SurfaceGrinderCutState::ToStartingPositionX, now_ms);
    }

    /// Whether a cut is running: any state but Idle.
    pub fn cutting_in_progress(&self) -> (r: bool)
        ensures
            r == !(self.state is Idle),
    {
        match self.state {
            SurfaceGrinderCutState::Idle => false,
            _ => true,
        }
    }

    /// Switch the spindle and remember when, for the spin-up wait.
    fn set_spindle_on(&mut self, data: &mut OperationControllerData, on: bool, now_ms: u64)
        requires
            old(data).wf(),
        ensures
            final(data).wf(),
            *final(self) == (SurfaceGrinderCutController {
                spindle_started_ms: now_ms,
                ..*old(self)
            }),
            final(data).motor_outbox@ == old(data).motor_outbox@.push(
                Message::SpindleControlMsgType(SpindleControlMsg { on }),
            ),
            final(data).config_client == old(data).config_client,
            final(data).endstop_status_client == old(data).endstop_status_client,
            final(data).position_client == old(data).position_client,
            final(data).work_envelope == old(data).work_envelope,
            final(data).pending_operation_params == old(data).pending_operation_params,
    {
        data.send_to_motor_control(Message::SpindleControlMsgType(SpindleControlMsg { on }));
        self.spindle_started_ms = now_ms;
    }

    /// Send a move of one axis to an envelope bound.
    fn move_axis_to_extent(&self, data: &mut OperationControllerData, axis: Axis, end: AxisEnd)
        requires
            old(data).wf(),
        ensures
            final(data).wf(),
            final(data).motor_outbox@ == old(data).motor_outbox@.push(
                Message::GoToPositionMsgType(
                    GoToPositionMsg {
                        axis,
                        position: old(data).work_envelope.extent_spec(axis, end),
                        speed: self.cut_params.stroke_speed,
                    },
                ),
            ),
            final(data).config_client == old(data).config_client,
            final(data).endstop_status_client == old(data).endstop_status_client,
            final(data).position_client == old(data).position_client,
            final(data).work_envelope == old(data).work_envelope,
            final(data).pending_operation_params == old(data).pending_operation_params,
    {
        let position = data.work_envelope.get_extent(axis, end);
        self.move_to_position(data, axis, position);
    }

    /// Send an absolute move at the stroke speed.
    fn move_to_position(&self, data: &mut OperationControllerData, axis: Axis, position: i64)
        requires
            old(data).wf(),
            -MAX_COMMAND_UIN <= position <= MAX_COMMAND_UIN,
        ensures
            final(data).wf(),
            final(data).motor_outbox@ == old(data).motor_outbox@.push(
                Message::GoToPositionMsgType(
                    GoToPositionMsg { axis, position, speed: self.cut_params.stroke_speed },
                ),
            ),
            final(data).config_client == old(data).config_client,
            final(data).endstop_status_client == old(data).endstop_status_client,
            final(data).position_client == old(data).position_client,
            final(data).work_envelope == old(data).work_envelope,
            final(data).pending_operation_params == old(data).pending_operation_params,
    {
        data.send_to_motor_control(
            Message::GoToPositionMsgType(
                GoToPositionMsg { axis, position, speed: self.cut_params.stroke_speed },
            ),
        );
    }

    /// Send a relative move at the stroke speed.
    fn move_relative(&self, data: &mut OperationControllerData, axis: Axis, distance: i64)
        requires
            old(data).wf(),
            -MAX_COMMAND_UIN <= distance <= MAX_COMMAND_UIN,
        ensures
            final(data).wf(),
            final(data).motor_outbox@ == old(data).motor_outbox@.push(
                Message::MoveAxisRelMsgType(
                    MoveAxisRelMsg { axis, distance, speed: self.cut_params.stroke_speed },
                ),
            ),
            final(data).config_client == old(data).config_client,
            final(data).endstop_status_client == old(data).endstop_status_client,
            final(data).position_client == old(data).position_client,
            final(data).work_envelope == old(data).work_envelope,
            final(data).pending_operation_params == old(data).pending_operation_params,
    {
        data.send_to_motor_control(
            Message::MoveAxisRelMsgType(
                MoveAxisRelMsg { axis, distance, speed: self.cut_params.stroke_speed },
            ),
        );
    }

    /// Whether an axis has reached one of its ends, from the replicas only.
    fn reached_extent(&self, data: &OperationControllerData, axis: Axis, end: AxisEnd) -> (r:
        bool)
        ensures
            r == reached_extent_spec(*data, axis, end),
    {
        let hit = data.endstop_status_client.is_endstop_hit(EndstopIdentifier::new(axis, end));
        let pressed = match hit {
            Some(true) => true,
            _ => false,
        };
        if pressed {
            return true;
        }
        let pos = data.position_client.get_axis_position(axis);
        let extent = data.work_envelope.get_extent(axis, end);
        match end {
            AxisEnd::Min => pos <= extent,
            AxisEnd::Max => pos >= extent,
        }
    }

    /// Whether an axis's reported position is within one motor step of a
    /// target.
    fn close_enough(&self, data: &OperationControllerData, axis: Axis, position: i64) -> (r: bool)
        requires
            data.wf(),
            -2_200_000_000 <= position <= 2_200_000_000,
        ensures
            r == close_enough_spec(*data, axis, position as int),
    {
        let axis_config = data.config_client.config.motor_configs.get(axis);
        let current_step = axis_config.inches_to_steps(data.position_client.get_axis_position(axis));
        let target_step = axis_config.inches_to_steps(position);
        let diff = current_step - target_step;
        -1 <= diff && diff <= 1
    }

    /// How much Z travel is left to the finished depth.
    fn depth_remaining(&self, data: &OperationControllerData) -> (d: i64)
        requires
            self.wf(),
            data.wf(),
        ensures
            d == self.depth_remaining_spec(*data),
            0 <= d <= MAX_COMMAND_UIN,
    {
        let target = self.starting_height - self.cut_params.total_depth;
        let diff = target - data.position_client.get_axis_position(Axis::Z);
        if diff < 0 {
            -diff
        } else {
            diff
        }
    }

    /// The distance from an axis's reported position to an envelope bound.
    fn distance_to_extent(&self, data: &OperationControllerData, axis: Axis, extent: AxisEnd) -> (d:
        i64)
        requires
            data.wf(),
        ensures
            d == distance_to_extent_spec(*data, axis, extent),
            0 <= d <= MAX_COMMAND_UIN,
    {
        let diff = data.work_envelope.get_extent(axis, extent)
            - data.position_client.get_axis_position(axis);
        if diff < 0 {
            -diff
        } else {
            diff
        }
    }

    /// Compute the next state of the raster from the replicated state.
    fn get_next_state(&self, data: &OperationControllerData) -> (s: SurfaceGrinderCutState)
        requires
            self.wf(),
            data.wf(),
        ensures
            s == self.get_next_state_spec(*data),
    {
        match self.state {
            SurfaceGrinderCutState::Idle => SurfaceGrinderCutState::Idle,
            SurfaceGrinderCutState::ToStartingPositionX => SurfaceGrinderCutState::ToStartingPositionY,
            SurfaceGrinderCutState::ToStartingPositionY => SurfaceGrinderCutState::SpindleSpinUp,
            SurfaceGrinderCutState::SpindleSpinUp => SurfaceGrinderCutState::XCut,
            SurfaceGrinderCutState::XCut => SurfaceGrinderCutState::XReturn,
            SurfaceGrinderCutState::XReturn => {
                if self.reached_extent(data, Axis::Y, AxisEnd::Min) {
                    SurfaceGrinderCutState::YReturn
                } else {
                    SurfaceGrinderCutState::YOut
                }
            },
            SurfaceGrinderCutState::YOut => SurfaceGrinderCutState::XCut,
            SurfaceGrinderCutState::YReturn => {
                // Positions move in whole steps, so compare within one step
                // rather than exactly at the target depth.
                let target = self.starting_height - self.cut_params.total_depth;
                if self.close_enough(data, Axis::Z, target) {
                    SurfaceGrinderCutState::Idle
                } else {
                    SurfaceGrinderCutState::ZDown
                }
            },
            SurfaceGrinderCutState::ZDown => SurfaceGrinderCutState::XCut,
        }
    }

    /// Enter a state and perform its entry action.
    fn set_state(
        &mut self,
        data: &mut OperationControllerData,
        state: SurfaceGrinderCutState,
        now_ms: u64,
    )
        requires
            old(self).wf(),
            old(data).wf(),
        ensures
            final(data).wf(),
            final(self).wf(),
            final(self).state == state,
            final(self).cut_params == old(self).cut_params,
            final(self).starting_height == old(self).starting_height,
            final(self).spindle_started_ms == (if state is SpindleSpinUp {
                now_ms
            } else {
                old(self).spindle_started_ms
            }),
            final(data).motor_outbox@ == old(data).motor_outbox@.push(
                old(self).entry_msg_spec(*old(data), state),
            ),
            final(data).pending_operation_params == (if state is Idle {
                Some(OperationParameters::NoOp(NoOpOperationParams {  }))
            } else {
                old(data).pending_operation_params
            }),
            final(data).config_client == old(data).config_client,
            final(data).endstop_status_client == old(data).endstop_status_client,
            final(data).position_client == old(data).position_client,
            final(data).work_envelope == old(data).work_envelope,
    {
        self.state = state;
        match state {
            SurfaceGrinderCutState::Idle => generic_stop(data),
            SurfaceGrinderCutState::ToStartingPositionX => self.move_axis_to_extent(
                data,
                Axis::X,
                AxisEnd::Min,
            ),
            SurfaceGrinderCutState::ToStartingPositionY => self.move_axis_to_extent(
                data,
                Axis::Y,
                AxisEnd::Max,
            ),
            SurfaceGrinderCutState::SpindleSpinUp => self.set_spindle_on(data, true, now_ms),
            SurfaceGrinderCutState::XCut => self.move_axis_to_extent(data, Axis::X, AxisEnd::Max),
            SurfaceGrinderCutState::XReturn => self.move_axis_to_extent(
                data,
                Axis::X,
                AxisEnd::Min,
            ),
            SurfaceGrinderCutState::YOut => {
                let dist = self.distance_to_extent(data, Axis::Y, AxisEnd::Min);
                let feed = self.cut_params.feed_per_pass;
                let step = if feed < dist {
                    feed
                } else {
                    dist
                };
                self.move_relative(data, Axis::Y, -step);
            },
            SurfaceGrinderCutState::YReturn => self.move_axis_to_extent(
                data,
                Axis::Y,
                AxisEnd::Max,
            ),
            SurfaceGrinderCutState::ZDown => {
                let remaining = self.depth_remaining(data);
                let depth = self.cut_params.depth_of_cut;
                let step = if depth < remaining {
                    depth
                } else {
                    remaining
                };
                self.move_relative(data, Axis::Z, -step);
            },
        }
    }

    /// Enter the next state of the raster.
    fn advance_state(&mut self, data: &mut OperationControllerData, now_ms: u64)
        requires
            old(self).wf(),
            old(data).wf(),
        ensures
            final(data).wf(),
            final(self).wf(),
            advanced(*old(self), *old(data), *final(self), *final(data), now_ms),
    {
        let next = self.get_next_state(data);
        self.set_state(data, next, now_ms);
    }

    /// A completed move advances the raster; completions are ignored when
    /// no cut is running.
    pub fn handle_movement_complete(
        &mut self,
        data: &mut OperationControllerData,
        msg: MovementCompleteMsg,
        now_ms: u64,
    )
        requires
            old(self).wf(),
            old(data).wf(),
        ensures
            final(data).wf(),
            final(self).wf(),
            old(self).state is Idle ==> *final(self) == *old(self) && *final(data) == *old(data),
            !(old(self).state is Idle) ==> advanced(
                *old(self),
                *old(data),
                *final(self),
                *final(data),
                now_ms,
            ),
    {
        if self.cutting_in_progress() {
            self.advance_state(data, now_ms);
        }
    }

    /// After three seconds of spindle spin-up, begin the first stroke.
    pub fn update(&mut self, data: &mut OperationControllerData, now_ms: u64)
        requires
            old(self).wf(),
            old(data).wf(),
        ensures
            final(data).wf(),
            final(self).wf(),
            (old(self).state is SpindleSpinUp && now_ms >= old(self).spindle_started_ms
                + SPINDLE_SPIN_UP_MS) ==> advanced(
                *old(self),
                *old(data),
                *final(self),
                *final(data),
                now_ms,
            ),
            !(old(self).state is SpindleSpinUp && now_ms >= old(self).spindle_started_ms
                + SPINDLE_SPIN_UP_MS) ==> *final(self) == *old(self) && *final(data) == *old(
                data,
            ),
    {
        let in_spin_up = match self.state {
            SurfaceGrinderCutState::SpindleSpinUp => true,
            _ => false,
        };
        if in_spin_up && now_ms >= self.spindle_started_ms && now_ms - self.spindle_started_ms
            >= SPINDLE_SPIN_UP_MS {
            self.advance_state(data, now_ms);
        }
    }

    /// Process one inbound message.
    pub fn handle_message(
        &mut self,
        data: &mut OperationControllerData,
        msg: Message,
        now_ms: u64,
    )
        requires
            old(self).wf(),
            old(data).wf(),
            msg.wf(),
        ensures
            final(data).wf(),
            final(self).wf(),
            final(data).config_client == old(data).config_client,
            msg matches Message::CurrentPositionMsgType(m) ==> {
                &&& *final(self) == *old(self)
                &&& final(data).position_client.last_msg == m
                &&& final(data).endstop_status_client == old(data).endstop_status_client
                &&& final(data).motor_outbox@ == old(data).motor_outbox@
                &&& final(data).work_envelope == old(data).work_envelope
                &&& final(data).pending_operation_params == old(data).pending_operation_params
            },
            msg matches Message::EndstopHitMsgType(m) ==> {
                &&& *final(self) == *old(self)
                &&& final(data).endstop_status_client.status(m.endstop) == Some(m.value)
                &&& forall|id: EndstopIdentifier|
                    id != m.endstop ==> final(data).endstop_status_client.status(id) == old(
                        data,
                    ).endstop_status_client.status(id)
                &&& final(data).position_client == old(data).position_client
                &&& final(data).motor_outbox@ == old(data).motor_outbox@
                &&& final(data).work_envelope == old(data).work_envelope
                &&& final(data).pending_operation_params == old(data).pending_operation_params
            },
            msg is MovementCompleteMsgType ==> {
                &&& (old(self).state is Idle ==> *final(self) == *old(self) && *final(data)
                    == *old(data))
                &&& (!(old(self).state is Idle) ==> advanced(
                    *old(self),
                    *old(data),
                    *final(self),
                    *final(data),
                    now_ms,
                ))
            },
            msg is StopMsgType ==> {
                &&& *final(self) == *old(self)
                &&& final(data).motor_outbox@ == old(data).motor_outbox@.push(
                    Message::StopMsgType(),
                )
                &&& final(data).pending_operation_params == Some(
                    OperationParameters::NoOp(NoOpOperationParams {  }),
                )
                &&& final(data).endstop_status_client == old(data).endstop_status_client
                &&& final(data).position_client == old(data).position_client
                &&& final(data).work_envelope == old(data).work_envelope
            },
            (msg is GoToPositionMsgType || msg is MoveAxisRelMsgType || msg
                is SpindleControlMsgType || msg is StartHomingMsgType || msg
                is StartSurfaceGrinderCutMsgType) ==> {
                &&& *final(self) == *old(self)
                &&& *final(data) == *old(data)
            },
    {
        match msg {
            Message::CurrentPositionMsgType(cp_msg) => data.position_client.handle_message(cp_msg),
            Message::EndstopHitMsgType(eh_msg) => data.endstop_status_client.process_message(
                eh_msg,
            ),
            Message::MovementCompleteMsgType(mc_msg) => self.handle_movement_complete(
                data,
                mc_msg,
                now_ms,
            ),
            Message::StopMsgType() => generic_stop(data),
            _ => {},
        }
    }
}

/// A step-aligned position at least one quantized step above a target lies
/// strictly above it.
proof fn lemma_aligned_above(cfg: crate::config::MotorConfig, pos: int, target: int)
    requires
        cfg.wf(),
        cfg.step_aligned(pos),
        cfg.inches_to_steps_spec(pos) - cfg.inches_to_steps_spec(target) >= 1,
    ensures
        pos > target,
{
    let m = cfg.steps_per_inch_milli();
    let b = crate::units::STEP_SCALE as int;
    let sp = cfg.inches_to_steps_spec(pos);
    let st = cfg.inches_to_steps_spec(target);
    crate::units::lemma_round_div_error(sp * b, m);
    crate::units::lemma_round_div_error(target * m, b);
    assert(pos > target) by (nonlinear_arith)
        requires
            0 < m,
            2 * m <= b,
            -m < 2 * (pos * m - sp * b) <= m,
            -b < 2 * (st * b - target * m) <= b,
            sp - st >= 1,
    ;
}

/// One commanded move of `-delta` from a step-aligned position takes at
/// least one whole motor step, and no more than one step past the target's
/// step count, whenever `delta` is above the rounding floor of half a step
/// and at most the remaining distance.
proof fn lemma_downward_move_steps(
    cfg: crate::config::MotorConfig,
    pos: int,
    target: int,
    delta: int,
)
    requires
        cfg.wf(),
        cfg.step_aligned(pos),
        cfg.inches_to_steps_spec(pos) - cfg.inches_to_steps_spec(target) >= 1,
        0 < delta <= pos - target,
        2 * delta * cfg.steps_per_inch_milli() > crate::units::STEP_SCALE,
    ensures
        ({
            let gap = cfg.inches_to_steps_spec(pos) - cfg.inches_to_steps_spec(target);
            -(gap + 1) <= cfg.inches_to_steps_spec(-delta) <= -1
        }),
{
    let m = cfg.steps_per_inch_milli();
    let b = crate::units::STEP_SCALE as int;
    let sp = cfg.inches_to_steps_spec(pos);
    let st = cfg.inches_to_steps_spec(target);
    let gap = sp - st;
    let q = crate::units::round_div(delta * m, b);
    let k = cfg.inches_to_steps_spec(-delta);
    assert((-delta) * m == -(delta * m)) by (nonlinear_arith);
    assert(2 * ((-delta) * m) + b <= -1) by (nonlinear_arith)
        requires
            2 * delta * m > b,
    ;
    // At least one step: the rounded quotient of a numerator below minus
    // half the divisor is at most minus one.
    vstd::arithmetic::div_mod::lemma_div_is_ordered(
        2 * ((-delta) * m) + b,
        -1,
        2 * b,
    );
    vstd::arithmetic::div_mod::lemma_fundamental_div_mod_converse_div(-1, 2 * b, -1, 2 * b - 1);
    assert(k <= -1);
    // At most one step past the target's count.
    crate::units::lemma_round_div_neg(delta * m, b);
    crate::units::lemma_round_div_error(delta * m, b);
    crate::units::lemma_round_div_error(sp * b, m);
    crate::units::lemma_round_div_error(target * m, b);
    assert(q <= gap + 1) by (nonlinear_arith)
        requires
            0 < m,
            2 * m <= b,
            -b < 2 * (q * b - delta * m) <= b,
            -m < 2 * (pos * m - sp * b) <= m,
            -b < 2 * (st * b - target * m) <= b,
            delta <= pos - target,
            gap == sp - st,
    ;
    assert(k >= -q);
}

/// Progress facts of the cut cycle, the arithmetic core of its
/// termination (composed per transition by
/// [`lemma_cut_transition_decreases`]).  Under the stated conditions:
///
/// * entering `ZDown` commands a move of at least one whole Z step and at
///   most one step past the final depth's step count, so the Z step gap
///   strictly shrinks with every layer and never leaves the one-step band
///   that ends the cycle;
/// * entering `YOut` commands a move of at least one whole Y step and at
///   most one step past the Y Min bound, so each layer holds finitely many
///   strokes;
/// * once Y is at or past its Min bound, `XReturn` leaves the stroke loop
///   for `YReturn`;
/// * once Z is within one step of the final depth, `YReturn` ends the
///   cycle.
///
/// The conditions: positions and recorded bounds are step-aligned (they
/// are quantized replicas of motor step counts), `depth_of_cut` and
/// `feed_per_pass` are above the rounding floor of half a motor step (a
/// smaller feed rounds to a zero-step move and stalls), and the Y gearing
/// is strictly finer than half a step per microinch.
pub proof fn lemma_cut_cycle_bounded(
    c: SurfaceGrinderCutController,
    data: OperationControllerData,
)
    requires
        c.wf(),
        data.config_client.config.wf(),
        ({
            let cfg_z = data.config_client.config.motor_configs.z;
            let z = data.position_client.axis_position_spec(Axis::Z) as int;
            &&& cfg_z.step_aligned(z)
            &&& 2 * c.cut_params.depth_of_cut * cfg_z.steps_per_inch_milli()
                > crate::units::STEP_SCALE
        }),
        ({
            let cfg_y = data.config_client.config.motor_configs.y;
            let y = data.position_client.axis_position_spec(Axis::Y) as int;
            &&& cfg_y.step_aligned(y)
            &&& cfg_y.step_aligned(data.work_envelope.min_y as int)
            &&& 2 * c.cut_params.feed_per_pass * cfg_y.steps_per_inch_milli()
                > crate::units::STEP_SCALE
            &&& 2 * cfg_y.steps_per_inch_milli() < crate::units::STEP_SCALE
        }),
    ensures
        ({
            let cfg_z = data.config_client.config.motor_configs.z;
            let z = data.position_client.axis_position_spec(Axis::Z) as int;
            let zgap = cfg_z.inches_to_steps_spec(z) - cfg_z.inches_to_steps_spec(
                c.depth_target_spec(),
            );
            let zmove = -min_val(
                c.cut_params.depth_of_cut as int,
                c.depth_remaining_spec(data),
            );
            &&& (c.state is ZDown && zgap >= 2 ==> -(zgap + 1) <= cfg_z.inches_to_steps_spec(
                zmove,
            ) <= -1)
            &&& (c.state is YReturn && -1 <= zgap <= 1 ==> c.get_next_state_spec(data) is Idle)
        }),
        ({
            let cfg_y = data.config_client.config.motor_configs.y;
            let y = data.position_client.axis_position_spec(Axis::Y) as int;
            let min_y = data.work_envelope.min_y as int;
            let ygap = cfg_y.inches_to_steps_spec(y) - cfg_y.inches_to_steps_spec(min_y);
            let ymove = -min_val(
                c.cut_params.feed_per_pass as int,
                distance_to_extent_spec(data, Axis::Y, AxisEnd::Min),
            );
            &&& (c.state is YOut && y > min_y ==> ygap >= 1 && -(ygap + 1)
                <= cfg_y.inches_to_steps_spec(ymove) <= -1)
            &&& (c.state is XReturn && cfg_y.inches_to_steps_spec(y)
                <= cfg_y.inches_to_steps_spec(min_y) ==> c.get_next_state_spec(data) is YReturn)
        }),
{
    let cfg_z = data.config_client.config.motor_configs.z;
    let cfg_y = data.config_client.config.motor_configs.y;
    let z = data.position_client.axis_position_spec(Axis::Z) as int;
    let y = data.position_client.axis_position_spec(Axis::Y) as int;
    let min_y = data.work_envelope.min_y as int;
    let t = c.depth_target_spec();
    let zgap = cfg_z.inches_to_steps_spec(z) - cfg_z.inches_to_steps_spec(t);
    let ygap = cfg_y.inches_to_steps_spec(y) - cfg_y.inches_to_steps_spec(min_y);
    let doc = c.cut_params.depth_of_cut as int;
    let feed = c.cut_params.feed_per_pass as int;
    let mz = cfg_z.steps_per_inch_milli();
    let my = cfg_y.steps_per_inch_milli();
    let b = crate::units::STEP_SCALE as int;
    if c.state is ZDown && zgap >= 2 {
        lemma_aligned_above(cfg_z, z, t);
        let remaining = c.depth_remaining_spec(data);
        assert(remaining == z - t);
        let delta = min_val(doc, remaining);
        if delta == remaining {
            let sp = cfg_z.inches_to_steps_spec(z);
            let st = cfg_z.inches_to_steps_spec(t);
            crate::units::lemma_round_div_error(sp * b, mz);
            crate::units::lemma_round_div_error(t * mz, b);
            assert(2 * remaining * mz > b) by (nonlinear_arith)
                requires
                    0 < mz,
                    2 * mz <= b,
                    remaining == z - t,
                    -mz < 2 * (z * mz - sp * b) <= mz,
                    -b < 2 * (st * b - t * mz) <= b,
                    sp - st >= 2,
            ;
        }
        assert(2 * delta * mz > b) by (nonlinear_arith)
            requires
                delta == min_val(doc, remaining),
                2 * doc * mz > b,
                delta == doc || 2 * remaining * mz > b,
                delta == doc || delta == remaining,
        ;
        lemma_downward_move_steps(cfg_z, z, t, delta);
    }
    if c.state is YOut && y > min_y {
        cfg_y.lemma_inches_to_steps_ordered(min_y, y);
        if cfg_y.inches_to_steps_spec(y) == cfg_y.inches_to_steps_spec(min_y) {
            // Both are aligned, so equal step counts would mean equal
            // positions.
            assert(y == min_y);
        }
        assert(ygap >= 1);
        let dist = distance_to_extent_spec(data, Axis::Y, AxisEnd::Min);
        assert(dist == y - min_y);
        let delta = min_val(feed, dist);
        if delta == dist {
            let sy = cfg_y.inches_to_steps_spec(y);
            let sm = cfg_y.inches_to_steps_spec(min_y);
            crate::units::lemma_round_div_error(sy * b, my);
            crate::units::lemma_round_div_error(sm * b, my);
            assert(2 * dist * my > b) by (nonlinear_arith)
                requires
                    0 < my,
                    2 * my < b,
                    dist == y - min_y,
                    -my < 2 * (y * my - sy * b) <= my,
                    -my < 2 * (min_y * my - sm * b) <= my,
                    sy - sm >= 1,
            ;
        }
        assert(2 * delta * my > b) by (nonlinear_arith)
            requires
                delta == min_val(feed, dist),
                2 * feed * my > b,
                delta == feed || 2 * dist * my > b,
                delta == feed || delta == dist,
        ;
        lemma_downward_move_steps(cfg_y, y, min_y, delta);
    }
    if c.state is XReturn && cfg_y.inches_to_steps_spec(y) <= cfg_y.inches_to_steps_spec(min_y) {
        cfg_y.lemma_steps_to_inches_ordered(
            cfg_y.inches_to_steps_spec(y),
            cfg_y.inches_to_steps_spec(min_y),
        );
        assert(y <= min_y);
        assert(reached_extent_spec(data, Axis::Y, AxisEnd::Min));
    }
}

/// Where an absolute move to `position` settles: on the nearest whole
/// step, converted back to microinches.
pub open spec fn quantized_goto(cfg: crate::config::MotorConfig, position: int) -> int {
    cfg.steps_to_inches_spec(cfg.inches_to_steps_spec(position))
}

/// Where a relative move of `distance` from `pos` settles: the current
/// step count plus the distance's step count, converted back.
pub open spec fn quantized_rel(cfg: crate::config::MotorConfig, pos: int, distance: int) -> int {
    cfg.steps_to_inches_spec(cfg.inches_to_steps_spec(pos) + cfg.inches_to_steps_spec(distance))
}

/// The phase of a cut state: positioning and spin-up (2), the stroke loop
/// (1), the layer tail (0).
pub open spec fn cut_phase(s: SurfaceGrinderCutState) -> int {
    match s {
        SurfaceGrinderCutState::ToStartingPositionX => 2,
        SurfaceGrinderCutState::ToStartingPositionY => 2,
        SurfaceGrinderCutState::SpindleSpinUp => 2,
        SurfaceGrinderCutState::XCut => 1,
        SurfaceGrinderCutState::XReturn => 1,
        SurfaceGrinderCutState::YOut => 1,
        SurfaceGrinderCutState::YReturn => 0,
        SurfaceGrinderCutState::ZDown => 0,
        SurfaceGrinderCutState::Idle => 0,
    }
}

/// Rank of a cut state within its phase, decreasing along every in-phase
/// transition.
pub open spec fn cut_rank(s: SurfaceGrinderCutState) -> int {
    match s {
        SurfaceGrinderCutState::ToStartingPositionX => 2,
        SurfaceGrinderCutState::ToStartingPositionY => 1,
        SurfaceGrinderCutState::SpindleSpinUp => 0,
        SurfaceGrinderCutState::XCut => 2,
        SurfaceGrinderCutState::XReturn => 1,
        SurfaceGrinderCutState::YOut => 0,
        SurfaceGrinderCutState::YReturn => 1,
        SurfaceGrinderCutState::ZDown => 0,
        SurfaceGrinderCutState::Idle => 0,
    }
}

/// The Z step gap still to descend: the step count of the reported Z
/// position minus the step count of the finished depth.
pub open spec fn cut_z_gap(c: SurfaceGrinderCutController, data: OperationControllerData) -> int {
    let cfg = data.config_client.config.motor_configs.z;
    cfg.inches_to_steps_spec(data.position_client.axis_position_spec(Axis::Z) as int)
        - cfg.inches_to_steps_spec(c.depth_target_spec())
}

/// The Y step gap from the reported Y position down to the Y Min bound.
pub open spec fn cut_y_gap(data: OperationControllerData) -> int {
    let cfg = data.config_client.config.motor_configs.y;
    cfg.inches_to_steps_spec(data.position_client.axis_position_spec(Axis::Y) as int)
        - cfg.inches_to_steps_spec(data.work_envelope.min_y as int)
}

/// Z component of the termination measure: the step gap, floored at zero.
pub open spec fn cut_z_measure(
    c: SurfaceGrinderCutController,
    data: OperationControllerData,
) -> int {
    let g = cut_z_gap(c, data);
    if g < 0 {
        0
    } else {
        g
    }
}

/// Y component of the termination measure: the step gap to the Y Min
/// bound during the stroke loop, floored at zero; zero elsewhere.
pub open spec fn cut_y_measure(
    c: SurfaceGrinderCutController,
    data: OperationControllerData,
) -> int {
    if cut_phase(c.state) == 1 {
        let g = cut_y_gap(data);
        if g < 0 {
            0
        } else {
            g
        }
    } else {
        0
    }
}

/// Strict lexicographic order on four integer components.
pub open spec fn lex4_lt(
    a0: int,
    a1: int,
    a2: int,
    a3: int,
    b0: int,
    b1: int,
    b2: int,
    b3: int,
) -> bool {
    ||| a0 < b0
    ||| (a0 == b0 && a1 < b1)
    ||| (a0 == b0 && a1 == b1 && a2 < b2)
    ||| (a0 == b0 && a1 == b1 && a2 == b2 && a3 < b3)
}

/// The relation between the cut procedure and its data before and after
/// one raster transition: the state becomes the next-state function's
/// value, entering spin-up records the clock, entering Idle stops and hands
/// control back, and any other state sends exactly its entry move.
pub open spec fn advanced(
    pre_self: SurfaceGrinderCutController,
    pre_data: OperationControllerData,
    post_self: SurfaceGrinderCutController,
    post_data: OperationControllerData,
    now_ms: u64,
) -> bool {
    let ns = pre_self.get_next_state_spec(pre_data);
    &&& post_self.cut_params == pre_self.cut_params
    &&& post_self.starting_height == pre_self.starting_height
    &&& post_self.state == ns
    &&& post_self.spindle_started_ms == (if ns is SpindleSpinUp {
        now_ms
    } else {
        pre_self.spindle_started_ms
    })
    &&& post_data.config_client == pre_data.config_client
    &&& post_data.endstop_status_client == pre_data.endstop_status_client
    &&& post_data.position_client == pre_data.position_client
    &&& post_data.work_envelope == pre_data.work_envelope
    &&& post_data.motor_outbox@ == pre_data.motor_outbox@.push(
        pre_self.entry_msg_spec(pre_data, ns),
    )
    &&& post_data.pending_operation_params == (if ns is Idle {
        Some(OperationParameters::NoOp(NoOpOperationParams {  }))
    } else {
        pre_data.pending_operation_params
    })
}


/// **One raster transition drives the cut toward Idle.**  `advanced`
/// relates the procedure across one transition (a completed move answered
/// by the motor loop, or the spin-up timeout); `z2` and `y2` are where the
/// completed entry move of the pre-state settles those axes, per
/// [`quantized_goto`] and [`quantized_rel`] (a state that moves neither
/// axis leaves them in place).  The decision functions never read the
/// axis whose move just completed, so taking them over the pre-transition
/// replicas models the motor loop's reporting order exactly.
///
/// Every such transition either reaches Idle or strictly decreases the
/// lexicographic measure (`cut_z_measure`, `cut_phase`, `cut_y_measure`,
/// `cut_rank`) re-evaluated at the settled positions, and every condition
/// this lemma assumes holds again afterwards.  All four components are
/// nonnegative, the phase and rank are at most 2, and the first and third
/// start at the initial Z and Y step gaps, so a cut whose parameters are
/// above the rounding floors reaches Idle after a bounded number of
/// transitions, on the order of (initial Z step gap) times (initial Y
/// step gap): the machine never cycles forever among non-Idle states.
pub proof fn lemma_cut_transition_decreases(
    c: SurfaceGrinderCutController,
    data: OperationControllerData,
    c2: SurfaceGrinderCutController,
    data2: OperationControllerData,
    z2: int,
    y2: int,
    now_ms: u64,
)
    requires
        c.wf(),
        data.config_client.config.wf(),
        !(c.state is Idle),
        ({
            let cfg_z = data.config_client.config.motor_configs.z;
            let z = data.position_client.axis_position_spec(Axis::Z) as int;
            &&& cfg_z.step_aligned(z)
            &&& 2 * c.cut_params.depth_of_cut * cfg_z.steps_per_inch_milli()
                > crate::units::STEP_SCALE
        }),
        ({
            let cfg_y = data.config_client.config.motor_configs.y;
            let y = data.position_client.axis_position_spec(Axis::Y) as int;
            &&& cfg_y.step_aligned(y)
            &&& cfg_y.step_aligned(data.work_envelope.min_y as int)
            &&& 2 * c.cut_params.feed_per_pass * cfg_y.steps_per_inch_milli()
                > crate::units::STEP_SCALE
            &&& 2 * cfg_y.steps_per_inch_milli() < crate::units::STEP_SCALE
        }),
        cut_z_gap(c, data) >= -1,
        c.state is ZDown ==> cut_z_gap(c, data) >= 2,
        c.state is YOut ==> data.position_client.axis_position_spec(Axis::Y)
            > data.work_envelope.min_y,
        advanced(c, data, c2, data2, now_ms),
        z2 == (if c.state is ZDown {
            quantized_rel(
                data.config_client.config.motor_configs.z,
                data.position_client.axis_position_spec(Axis::Z) as int,
                -min_val(c.cut_params.depth_of_cut as int, c.depth_remaining_spec(data)),
            )
        } else {
            data.position_client.axis_position_spec(Axis::Z) as int
        }),
        y2 == (if c.state is YOut {
            quantized_rel(
                data.config_client.config.motor_configs.y,
                data.position_client.axis_position_spec(Axis::Y) as int,
                -min_val(
                    c.cut_params.feed_per_pass as int,
                    distance_to_extent_spec(data, Axis::Y, AxisEnd::Min),
                ),
            )
        } else if c.state is ToStartingPositionY || c.state is YReturn {
            quantized_goto(
                data.config_client.config.motor_configs.y,
                data.work_envelope.max_y as int,
            )
        } else {
            data.position_client.axis_position_spec(Axis::Y) as int
        }),
    ensures
        ({
            let cfg_z = data.config_client.config.motor_configs.z;
            let cfg_y = data.config_client.config.motor_configs.y;
            let g_z2 = cfg_z.inches_to_steps_spec(z2) - cfg_z.inches_to_steps_spec(
                c.depth_target_spec(),
            );
            let g_y2 = cfg_y.inches_to_steps_spec(y2) - cfg_y.inches_to_steps_spec(
                data.work_envelope.min_y as int,
            );
            let mz2 = if g_z2 < 0 {
                0int
            } else {
                g_z2
            };
            let my2 = if cut_phase(c2.state) == 1 {
                if g_y2 < 0 {
                    0int
                } else {
                    g_y2
                }
            } else {
                0int
            };
            &&& (c2.state is Idle || lex4_lt(
                mz2,
                cut_phase(c2.state),
                my2,
                cut_rank(c2.state),
                cut_z_measure(c, data),
                cut_phase(c.state),
                cut_y_measure(c, data),
                cut_rank(c.state),
            ))
            &&& (!(c2.state is Idle) ==> {
                &&& c2.wf()
                &&& c2.cut_params == c.cut_params
                &&& c2.depth_target_spec() == c.depth_target_spec()
                &&& data2.config_client == data.config_client
                &&& data2.work_envelope == data.work_envelope
                &&& cfg_z.step_aligned(z2)
                &&& cfg_y.step_aligned(y2)
                &&& g_z2 >= -1
                &&& (c2.state is ZDown ==> g_z2 >= 2)
                &&& (c2.state is YOut ==> y2 > data.work_envelope.min_y)
            })
        }),
{
    let cfg_z = data.config_client.config.motor_configs.z;
    let cfg_y = data.config_client.config.motor_configs.y;
    let z = data.position_client.axis_position_spec(Axis::Z) as int;
    let y = data.position_client.axis_position_spec(Axis::Y) as int;
    let min_y = data.work_envelope.min_y as int;
    let max_y = data.work_envelope.max_y as int;
    lemma_cut_cycle_bounded(c, data);
    if c.state is ToStartingPositionY || c.state is YReturn {
        // The settled Y position is aligned: converting it back to steps
        // returns the target's step count exactly.
        cfg_y.lemma_steps_round_trip(cfg_y.inches_to_steps_spec(max_y));
    }
    if c.state is YOut {
        let ymove = -min_val(
            c.cut_params.feed_per_pass as int,
            distance_to_extent_spec(data, Axis::Y, AxisEnd::Min),
        );
        cfg_y.lemma_steps_round_trip(
            cfg_y.inches_to_steps_spec(y) + cfg_y.inches_to_steps_spec(ymove),
        );
    }
    if c.state is ZDown {
        let zmove = -min_val(c.cut_params.depth_of_cut as int, c.depth_remaining_spec(data));
        cfg_z.lemma_steps_round_trip(
            cfg_z.inches_to_steps_spec(z) + cfg_z.inches_to_steps_spec(zmove),
        );
    }
}

} // verus!
