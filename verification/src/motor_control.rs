//! The motor driver loop: per-axis step generation with endstop-guarded
//! stops and position reporting.
//!
//! A [`StepperMotorController`] owns the step bookkeeping of one axis: the
//! current and target step counts, the commanded direction, and whether a
//! movement is in progress.  Each `update` advances the step count one step
//! toward the target; commanding a move to the current position is a no-op,
//! so a stopped axis never creeps.  The process that owns the real hardware
//! emits one step pulse per step taken here and drives the direction pin at
//! the level [`crate::config::MotorConfig::direction_pin_level`] gives.
//!
//! [`MotorsControl`] combines the three axis controllers with the endstop
//! replica and the spindle flag.  It consumes bus messages and appends its
//! own reports to an outbox instead of touching a channel, so all of its
//! decisions are verified here and the channel plumbing stays outside.

use vstd::prelude::*;

use crate::common::{Axis, AxisEnd, EndstopIdentifier};
use crate::config::{MotorConfig, RustGrindConfig};
use crate::endstop_checker::EndstopStatusClient;
use crate::messages::{
    CurrentPositionMsg, Message, MovementCompleteMsg,
};
use crate::units::{MAX_COMMAND_UIN, MAX_POSITION_UIN, MAX_REPORTED_UIN, round_div};

verus! {

/// Replica of the last position report, kept by message consumers.
#[derive(Copy, Clone, Debug, PartialEq, Eq, Structural)]
pub struct CurrentPositionClient {
    pub last_msg: CurrentPositionMsg,
}

impl CurrentPositionClient {
    pub open spec fn wf(self) -> bool {
        self.last_msg.wf()
    }

    pub open spec fn axis_position_spec(self, axis: Axis) -> i64 {
        match axis {
            Axis::X => self.last_msg.x,
            Axis::Y => self.last_msg.y,
            Axis::Z => self.last_msg.z,
        }
    }

    pub fn new() -> (c: Self)
        ensures
            c.last_msg.x == 0 && c.last_msg.y == 0 && c.last_msg.z == 0,
            c.wf(),
    {
        CurrentPositionClient { last_msg: CurrentPositionMsg::new() }
    }

    pub fn get_position(&self) -> (m: CurrentPositionMsg)
        ensures
            m == self.last_msg,
    {
        self.last_msg
    }

    pub fn get_axis_position(&self, axis: Axis) -> (p: i64)
        ensures
            p == self.axis_position_spec(axis),
    {
        match axis {
            Axis::X => self.last_msg.x,
            Axis::Y => self.last_msg.y,
            Axis::Z => self.last_msg.z,
        }
    }

    pub fn handle_message(&mut self, msg: CurrentPositionMsg)
        requires
            msg.wf(),
        ensures
            final(self).last_msg == msg,
            final(self).wf(),
    {
        self.last_msg = msg;
    }
}

/// Clamp a step count into `[-max_step, max_step]`, the step range of the
/// machine-travel limit [`MAX_POSITION_UIN`].
pub open spec fn clamp_step(steps: int, max_step: int) -> int {
    if steps > max_step {
        max_step
    } else if steps < -max_step {
        -max_step
    } else {
        steps
    }
}

/// Step bookkeeping of one axis.
///
/// `current_step` and `target_step` count whole steps in user coordinates
/// (positive toward the Max end, whatever the motor's `reversed` flag says
/// about the pin level).  Both stay within `max_step`, the step count of
/// the machine-travel limit [`MAX_POSITION_UIN`]: commands are otherwise
/// not validated (the loop drives toward the target and relies on the
/// endstops), but a target must stay representable in 64-bit microinches
/// after every conversion, so targets beyond the machine travel are
/// clamped to it.
#[derive(Copy, Clone, Debug, PartialEq, Eq, Structural)]
pub struct StepperMotorController {
    pub config: MotorConfig,
    pub max_step: i64,
    pub current_step: i64,
    pub target_step: i64,
    pub commanded_speed: u32,
    pub direction: AxisEnd,
    pub movement_in_progress: bool,
}

/// One axis controller after a halt: the target is pulled back to the
/// current position, so the later updates take no step.  As with any
/// command whose target does not exceed the current step, the direction is
/// Min.
pub open spec fn halted(c: StepperMotorController) -> StepperMotorController {
    StepperMotorController {
        target_step: c.current_step,
        direction: AxisEnd::Min,
        movement_in_progress: false,
        ..c
    }
}

/// One axis controller after one step-generator update: while a movement is
/// in progress the step count moves one step toward the target, and the
/// movement ends when the target is reached.
pub open spec fn stepped(c: StepperMotorController) -> StepperMotorController {
    if !c.movement_in_progress {
        c
    } else {
        let cur = if c.current_step < c.target_step {
            (c.current_step + 1) as i64
        } else if c.current_step > c.target_step {
            (c.current_step - 1) as i64
        } else {
            c.current_step
        };
        StepperMotorController {
            current_step: cur,
            movement_in_progress: cur != c.target_step,
            ..c
        }
    }
}

/// One axis controller after `n` step-generator updates in a row: `update`
/// ensures each call is exactly one application of [`stepped`].
pub open spec fn stepped_n(c: StepperMotorController, n: nat) -> StepperMotorController
    decreases n,
{
    if n == 0 {
        c
    } else {
        stepped_n(stepped(c), (n - 1) as nat)
    }
}

/// An axis with no movement in progress is unchanged by any number of
/// updates: it takes no step and reports nothing.
pub proof fn lemma_stepped_n_idle(c: StepperMotorController, n: nat)
    requires
        !c.movement_in_progress,
    ensures
        stepped_n(c, n) == c,
    decreases n,
{
    if n > 0 {
        lemma_stepped_n_idle(c, (n - 1) as nat);
    }
}

/// Enough updates finish any armed movement: after more updates than the
/// step distance to the target, a moving axis sits exactly on its target
/// step and the movement is no longer in progress.  No endstop enters
/// here: a halt is a separate `stop_move`, which retargets the axis.
pub proof fn lemma_update_terminates(c: StepperMotorController, n: nat)
    requires
        n > (if c.target_step >= c.current_step {
            c.target_step - c.current_step
        } else {
            c.current_step - c.target_step
        }),
    ensures
        stepped_n(c, n).config == c.config,
        stepped_n(c, n).max_step == c.max_step,
        stepped_n(c, n).target_step == c.target_step,
        stepped_n(c, n).commanded_speed == c.commanded_speed,
        stepped_n(c, n).direction == c.direction,
        !stepped_n(c, n).movement_in_progress,
        c.movement_in_progress ==> stepped_n(c, n).current_step == c.target_step,
        !c.movement_in_progress ==> stepped_n(c, n) == c,
    decreases n,
{
    if !c.movement_in_progress {
        lemma_stepped_n_idle(c, n);
    } else {
        let c1 = stepped(c);
        if c1.movement_in_progress {
            lemma_update_terminates(c1, (n - 1) as nat);
        } else {
            lemma_stepped_n_idle(c1, (n - 1) as nat);
        }
    }
}

/// The relation between an axis controller before and after an absolute
/// move command: the target becomes the commanded position's step count
/// (clamped to the machine travel), the direction is Max exactly when the
/// target step exceeds the current one, and a movement is in progress.
pub open spec fn moved_to(
    pre: StepperMotorController,
    post: StepperMotorController,
    position_uin: int,
    speed_uin_s: u32,
) -> bool {
    &&& post.config == pre.config
    &&& post.max_step == pre.max_step
    &&& post.current_step == pre.current_step
    &&& post.target_step == clamp_step(
        pre.config.inches_to_steps_spec(position_uin),
        pre.max_step as int,
    )
    &&& post.commanded_speed == speed_uin_s
    &&& post.direction == (if post.target_step > pre.current_step {
        AxisEnd::Max
    } else {
        AxisEnd::Min
    })
    &&& post.movement_in_progress
}

/// The same relation for a relative move: the target is the current step
/// count plus the commanded distance's step count, clamped.
pub open spec fn moved_rel(
    pre: StepperMotorController,
    post: StepperMotorController,
    distance_uin: int,
    speed_uin_s: u32,
) -> bool {
    &&& post.config == pre.config
    &&& post.max_step == pre.max_step
    &&& post.current_step == pre.current_step
    &&& post.target_step == clamp_step(
        pre.current_step + pre.config.inches_to_steps_spec(distance_uin),
        pre.max_step as int,
    )
    &&& post.commanded_speed == speed_uin_s
    &&& post.direction == (if post.target_step > pre.current_step {
        AxisEnd::Max
    } else {
        AxisEnd::Min
    })
    &&& post.movement_in_progress
}

impl StepperMotorController {
    pub open spec fn wf(self) -> bool {
        &&& self.config.wf()
        &&& self.max_step == self.config.inches_to_steps_spec(MAX_POSITION_UIN as int)
        &&& 0 <= self.max_step <= MAX_POSITION_UIN
        &&& -self.max_step <= self.current_step <= self.max_step
        &&& -self.max_step <= self.target_step <= self.max_step
    }

    /// The position this axis reports, in microinches.
    pub open spec fn position_spec(self) -> int {
        self.config.steps_to_inches_spec(self.current_step as int)
    }

    pub fn new(config: MotorConfig) -> (c: Self)
        requires
            config.wf(),
        ensures
            c.wf(),
            c.config == config,
            c.current_step == 0,
            c.target_step == 0,
            c.direction is Min,
            !c.movement_in_progress,
    {
        let max_step = config.inches_to_steps(MAX_POSITION_UIN);
        StepperMotorController {
            config,
            max_step,
            current_step: 0,
            target_step: 0,
            commanded_speed: 0,
            direction: AxisEnd::Min,
            movement_in_progress: false,
        }
    }

    /// Arm a move to an absolute position, superseding any prior command
    /// on this axis.  The target is not validated against the work
    /// envelope (the endstops guard the travel); a target inside the
    /// machine-travel limit is taken exactly, and one beyond it is clamped
    /// to that limit.
    pub fn start_move_to(&mut self, position_uin: i64, speed_uin_s: u32)
        requires
            old(self).wf(),
            -MAX_COMMAND_UIN <= position_uin <= MAX_COMMAND_UIN,
        ensures
            final(self).wf(),
            moved_to(*old(self), *final(self), position_uin as int, speed_uin_s),
            -MAX_POSITION_UIN <= position_uin <= MAX_POSITION_UIN ==> final(self).target_step
                == old(self).config.inches_to_steps_spec(position_uin as int),
    {
        let target_raw = self.config.inches_to_steps(position_uin);
        let target = clamp_to(target_raw, self.max_step);
        proof {
            if -MAX_POSITION_UIN <= position_uin <= MAX_POSITION_UIN {
                self.config.lemma_inches_to_steps_ordered(
                    position_uin as int,
                    MAX_POSITION_UIN as int,
                );
                self.config.lemma_inches_to_steps_ordered(
                    -MAX_POSITION_UIN as int,
                    position_uin as int,
                );
                crate::units::lemma_round_div_neg(
                    (MAX_POSITION_UIN as int) * self.config.steps_per_inch_milli(),
                    crate::units::STEP_SCALE as int,
                );
                assert((-MAX_POSITION_UIN as int) * self.config.steps_per_inch_milli()
                    == -((MAX_POSITION_UIN as int) * self.config.steps_per_inch_milli()))
                    by (nonlinear_arith);
            }
        }
        self.target_step = target;
        if target > self.current_step {
            self.direction = AxisEnd::Max;
        } else {
            self.direction = AxisEnd::Min;
        }
        self.commanded_speed = speed_uin_s;
        self.movement_in_progress = true;
    }

    /// Arm a move by a relative distance from the current position,
    /// superseding any prior command on this axis.  The distance is not
    /// validated against the work envelope; a resulting target inside the
    /// machine-travel limit is taken exactly, and one beyond it is clamped
    /// to that limit.
    pub fn start_move_rel(&mut self, distance_uin: i64, speed_uin_s: u32)
        requires
            old(self).wf(),
            -MAX_COMMAND_UIN <= distance_uin <= MAX_COMMAND_UIN,
        ensures
            final(self).wf(),
            moved_rel(*old(self), *final(self), distance_uin as int, speed_uin_s),
            -old(self).max_step <= old(self).current_step
                + old(self).config.inches_to_steps_spec(distance_uin as int) <= old(
                self,
            ).max_step ==> final(self).target_step == old(self).current_step + old(
                self,
            ).config.inches_to_steps_spec(distance_uin as int),
    {
        let delta = self.config.inches_to_steps(distance_uin);
        let target = clamp_to(self.current_step + delta, self.max_step);
        self.target_step = target;
        if target > self.current_step {
            self.direction = AxisEnd::Max;
        } else {
            self.direction = AxisEnd::Min;
        }
        self.commanded_speed = speed_uin_s;
        self.movement_in_progress = true;
    }

    /// Halt this axis.  The target is pulled back to the current position,
    /// so a later `update` takes no step and reports no movement.
    pub fn stop_move(&mut self)
        requires
            old(self).wf(),
        ensures
            final(self).wf(),
            *final(self) == (if old(self).movement_in_progress {
                halted(*old(self))
            } else {
                *old(self)
            }),
            !final(self).movement_in_progress,
    {
        if self.movement_in_progress {
            self.target_step = self.current_step;
            self.direction = AxisEnd::Min;
            self.movement_in_progress = false;
        }
    }

    /// Advance the step generator one iteration and report whether the
    /// movement is still in progress.
    pub fn update(&mut self) -> (moving: bool)
        requires
            old(self).wf(),
        ensures
            final(self).wf(),
            *final(self) == stepped(*old(self)),
            moving == final(self).movement_in_progress,
    {
        if self.movement_in_progress {
            if self.current_step < self.target_step {
                self.current_step = self.current_step + 1;
            } else if self.current_step > self.target_step {
                self.current_step = self.current_step - 1;
            }
            self.movement_in_progress = self.current_step != self.target_step;
        }
        self.movement_in_progress
    }

    /// Run the step generator until the armed movement finishes.  A moving
    /// axis lands exactly on its target step.
    pub fn run_to_target(&mut self)
        requires
            old(self).wf(),
        ensures
            final(self).wf(),
            !final(self).movement_in_progress,
            final(self).config == old(self).config,
            final(self).max_step == old(self).max_step,
            final(self).target_step == old(self).target_step,
            final(self).commanded_speed == old(self).commanded_speed,
            final(self).direction == old(self).direction,
            old(self).movement_in_progress ==> final(self).current_step == old(
                self,
            ).target_step,
            !old(self).movement_in_progress ==> *final(self) == *old(self),
    {
        if !self.is_movement_in_progress() {
            return ;
        }
        while self.is_movement_in_progress()
            invariant
                self.wf(),
                self.config == old(self).config,
                self.max_step == old(self).max_step,
                self.target_step == old(self).target_step,
                self.commanded_speed == old(self).commanded_speed,
                self.direction == old(self).direction,
                !self.movement_in_progress ==> self.current_step == self.target_step,
            decreases
                    (if self.target_step >= self.current_step {
                        self.target_step - self.current_step
                    } else {
                        self.current_step - self.target_step
                    }) + (if self.movement_in_progress {
                        1int
                    } else {
                        0int
                    }),
        {
            self.update();
        }
    }

    pub fn get_direction(&self) -> (d: AxisEnd)
        ensures
            d == self.direction,
    {
        self.direction
    }

    /// The current position in microinches.
    pub fn get_position(&self) -> (p: i64)
        requires
            self.wf(),
        ensures
            p == self.position_spec(),
            -MAX_REPORTED_UIN <= p <= MAX_REPORTED_UIN,
    {
        proof {
            self.config.lemma_position_report_bound(self.current_step as int);
        }
        self.config.steps_to_inches(self.current_step)
    }

    pub fn is_movement_in_progress(&self) -> (m: bool)
        ensures
            m == self.movement_in_progress,
    {
        self.movement_in_progress
    }

    /// Step rate of the default speed, as milli-steps per millisecond.
    pub fn get_steps_per_millisecond(&self) -> (rate: u64)
        requires
            self.wf(),
        ensures
            rate == round_div(
                self.config.default_speed_uin_s * self.config.steps_per_inch_milli(),
                crate::units::STEP_SCALE as int,
            ),
    {
        self.ips_to_steps_per_millisecond(self.config.default_speed_uin_s)
    }

    /// Step rate of a speed in microinches per second, as milli-steps per
    /// millisecond.
    pub fn ips_to_steps_per_millisecond(&self, speed_uin_s: u32) -> (rate: u64)
        requires
            self.wf(),
        ensures
            rate == round_div(
                speed_uin_s * self.config.steps_per_inch_milli(),
                crate::units::STEP_SCALE as int,
            ),
    {
        self.config.steps_per_millisecond_milli(speed_uin_s)
    }
}

/// Clamp a step count into `[-limit, limit]`.
fn clamp_to(v: i64, limit: i64) -> (r: i64)
    requires
        limit >= 0,
    ensures
        r == clamp_step(v as int, limit as int),
{
    if v > limit {
        limit
    } else if v < -limit {
        -limit
    } else {
        v
    }
}

/// One axis controller after the endstop check of a motor-loop iteration:
/// halted when the switch in its direction of travel is pressed while it is
/// moving, untouched otherwise.
pub open spec fn after_endstop_check(c: StepperMotorController, hit: bool) -> StepperMotorController {
    if hit && c.movement_in_progress {
        halted(c)
    } else {
        c
    }
}

/// The messages the endstop check of a motor-loop iteration emits for one
/// axis: exactly one endstop-hit completion when it halts the axis, nothing
/// otherwise.
pub open spec fn endstop_events(c: StepperMotorController, hit: bool, axis: Axis) -> Seq<Message> {
    if hit && c.movement_in_progress {
        seq![Message::MovementCompleteMsgType(MovementCompleteMsg { axis, endstop_hit: true })]
    } else {
        Seq::<Message>::empty()
    }
}

/// The messages the step-generator update of a motor-loop iteration emits
/// for one axis: exactly one completion when a movement just finished.
pub open spec fn update_events(c: StepperMotorController, axis: Axis) -> Seq<Message> {
    if c.movement_in_progress && !stepped(c).movement_in_progress {
        seq![Message::MovementCompleteMsgType(MovementCompleteMsg { axis, endstop_hit: false })]
    } else {
        Seq::<Message>::empty()
    }
}

/// The motor loop's whole state: the three axis controllers, the spindle
/// flag, the endstop replica, the last position report, and the outbox of
/// messages it has emitted.
pub struct MotorsControl {
    pub x_controller: StepperMotorController,
    pub y_controller: StepperMotorController,
    pub z_controller: StepperMotorController,
    pub endstop_status_client: EndstopStatusClient,
    pub last_position_msg: CurrentPositionMsg,
    pub spindle_on: bool,
    pub outbox: Vec<Message>,
}

impl MotorsControl {
    pub open spec fn controller_of(self, axis: Axis) -> StepperMotorController {
        match axis {
            Axis::X => self.x_controller,
            Axis::Y => self.y_controller,
            Axis::Z => self.z_controller,
        }
    }

    /// Whether the endstop in an axis's current direction of travel is
    /// pressed, by the replica.
    pub open spec fn hit_for(self, axis: Axis) -> bool {
        self.endstop_status_client.pressed(
            EndstopIdentifier { axis, position: self.controller_of(axis).direction },
        )
    }

    pub open spec fn outbox_wf(self) -> bool {
        forall|i: int| 0 <= i < self.outbox@.len() ==> #[trigger] self.outbox@[i].wf()
    }

    pub open spec fn wf(self) -> bool {
        &&& self.x_controller.wf()
        &&& self.y_controller.wf()
        &&& self.z_controller.wf()
        &&& self.last_position_msg.wf()
        &&& self.outbox_wf()
    }

    /// The position report the three controllers currently stand at.
    pub open spec fn position_msg_spec(self) -> CurrentPositionMsg {
        CurrentPositionMsg {
            x: self.x_controller.position_spec() as i64,
            y: self.y_controller.position_spec() as i64,
            z: self.z_controller.position_spec() as i64,
        }
    }

    pub fn new(initial_config: &RustGrindConfig) -> (m: Self)
        requires
            initial_config.wf(),
        ensures
            m.wf(),
            m.x_controller.config == initial_config.motor_configs.x,
            m.y_controller.config == initial_config.motor_configs.y,
            m.z_controller.config == initial_config.motor_configs.z,
            m.x_controller.current_step == 0 && m.x_controller.target_step == 0
                && !m.x_controller.movement_in_progress,
            m.y_controller.current_step == 0 && m.y_controller.target_step == 0
                && !m.y_controller.movement_in_progress,
            m.z_controller.current_step == 0 && m.z_controller.target_step == 0
                && !m.z_controller.movement_in_progress,
            forall|id: EndstopIdentifier| m.endstop_status_client.status(id) is None,
            !m.spindle_on,
            m.outbox@.len() == 0,
            m.last_position_msg == (CurrentPositionMsg { x: 0i64, y: 0i64, z: 0i64 }),
    {
        MotorsControl {
            x_controller: StepperMotorController::new(initial_config.motor_configs.x),
            y_controller: StepperMotorController::new(initial_config.motor_configs.y),
            z_controller: StepperMotorController::new(initial_config.motor_configs.z),
            endstop_status_client: EndstopStatusClient::new(),
            last_position_msg: CurrentPositionMsg::new(),
            spindle_on: false,
            outbox: Vec::new(),
        }
    }

    /// Arm one axis with an absolute move, superseding any prior command on
    /// that axis.
    pub fn go_to_position(&mut self, axis: Axis, position_uin: i64, speed_uin_s: u32)
        requires
            old(self).wf(),
            -MAX_COMMAND_UIN <= position_uin <= MAX_COMMAND_UIN,
        ensures
            final(self).wf(),
            moved_to(
                old(self).controller_of(axis),
                final(self).controller_of(axis),
                position_uin as int,
                speed_uin_s,
            ),
            axis != Axis::X ==> final(self).x_controller == old(self).x_controller,
            axis != Axis::Y ==> final(self).y_controller == old(self).y_controller,
            axis != Axis::Z ==> final(self).z_controller == old(self).z_controller,
            final(self).endstop_status_client == old(self).endstop_status_client,
            final(self).last_position_msg == old(self).last_position_msg,
            final(self).spindle_on == old(self).spindle_on,
            final(self).outbox == old(self).outbox,
    {
        match axis {
            Axis::X => self.x_controller.start_move_to(position_uin, speed_uin_s),
            Axis::Y => self.y_controller.start_move_to(position_uin, speed_uin_s),
            Axis::Z => self.z_controller.start_move_to(position_uin, speed_uin_s),
        }
    }

    /// Arm one axis with a relative move, superseding any prior command on
    /// that axis.
    pub fn move_relative(&mut self, axis: Axis, distance_uin: i64, speed_uin_s: u32)
        requires
            old(self).wf(),
            -MAX_COMMAND_UIN <= distance_uin <= MAX_COMMAND_UIN,
        ensures
            final(self).wf(),
            moved_rel(
                old(self).controller_of(axis),
                final(self).controller_of(axis),
                distance_uin as int,
                speed_uin_s,
            ),
            axis != Axis::X ==> final(self).x_controller == old(self).x_controller,
            axis != Axis::Y ==> final(self).y_controller == old(self).y_controller,
            axis != Axis::Z ==> final(self).z_controller == old(self).z_controller,
            final(self).endstop_status_client == old(self).endstop_status_client,
            final(self).last_position_msg == old(self).last_position_msg,
            final(self).spindle_on == old(self).spindle_on,
            final(self).outbox == old(self).outbox,
    {
        match axis {
            Axis::X => self.x_controller.start_move_rel(distance_uin, speed_uin_s),
            Axis::Y => self.y_controller.start_move_rel(distance_uin, speed_uin_s),
            Axis::Z => self.z_controller.start_move_rel(distance_uin, speed_uin_s),
        }
    }

    /// Halt every axis and switch the spindle off.
    pub fn stop_all(&mut self)
        requires
            old(self).wf(),
        ensures
            final(self).wf(),
            final(self).x_controller == (if old(self).x_controller.movement_in_progress {
                halted(old(self).x_controller)
            } else {
                old(self).x_controller
            }),
            final(self).y_controller == (if old(self).y_controller.movement_in_progress {
                halted(old(self).y_controller)
            } else {
                old(self).y_controller
            }),
            final(self).z_controller == (if old(self).z_controller.movement_in_progress {
                halted(old(self).z_controller)
            } else {
                old(self).z_controller
            }),
            !final(self).x_controller.movement_in_progress,
            !final(self).y_controller.movement_in_progress,
            !final(self).z_controller.movement_in_progress,
            !final(self).spindle_on,
            final(self).endstop_status_client == old(self).endstop_status_client,
            final(self).last_position_msg == old(self).last_position_msg,
            final(self).outbox == old(self).outbox,
    {
        self.x_controller.stop_move();
        self.y_controller.stop_move();
        self.z_controller.stop_move();
        self.set_spindle_on(false);
    }

    /// Drive the spindle flag; the owning process mirrors it on the spindle
    /// enable line.
    pub fn set_spindle_on(&mut self, on: bool)
        requires
            old(self).wf(),
        ensures
            final(self).wf(),
            *final(self) == (MotorsControl { spindle_on: on, ..*old(self) }),
    {
        self.spindle_on = on;
    }

    /// Orderly shutdown on a dead command channel: all motion halted, the
    /// spindle deenergized.  The owning process exits afterwards.
    pub fn shutdown(&mut self)
        requires
            old(self).wf(),
        ensures
            final(self).wf(),
            !final(self).x_controller.movement_in_progress,
            !final(self).y_controller.movement_in_progress,
            !final(self).z_controller.movement_in_progress,
            !final(self).spindle_on,
            final(self).endstop_status_client == old(self).endstop_status_client,
            final(self).last_position_msg == old(self).last_position_msg,
            final(self).outbox == old(self).outbox,
    {
        self.stop_all();
    }

    /// Process one inbound bus message.
    pub fn handle_message(&mut self, msg: Message)
        requires
            old(self).wf(),
            msg.wf(),
        ensures
            final(self).wf(),
            msg matches Message::EndstopHitMsgType(m) ==> {
                &&& final(self).endstop_status_client.status(m.endstop) == Some(m.value)
                &&& forall|id: EndstopIdentifier|
                    id != m.endstop ==> final(self).endstop_status_client.status(id) == old(
                        self,
                    ).endstop_status_client.status(id)
                &&& final(self).x_controller == old(self).x_controller
                &&& final(self).y_controller == old(self).y_controller
                &&& final(self).z_controller == old(self).z_controller
                &&& final(self).spindle_on == old(self).spindle_on
                &&& final(self).last_position_msg == old(self).last_position_msg
                &&& final(self).outbox == old(self).outbox
            },
            msg matches Message::GoToPositionMsgType(m) ==> {
                &&& moved_to(
                    old(self).controller_of(m.axis),
                    final(self).controller_of(m.axis),
                    m.position as int,
                    m.speed,
                )
                &&& m.axis != Axis::X ==> final(self).x_controller == old(self).x_controller
                &&& m.axis != Axis::Y ==> final(self).y_controller == old(self).y_controller
                &&& m.axis != Axis::Z ==> final(self).z_controller == old(self).z_controller
                &&& final(self).endstop_status_client == old(self).endstop_status_client
                &&& final(self).spindle_on == old(self).spindle_on
                &&& final(self).last_position_msg == old(self).last_position_msg
                &&& final(self).outbox == old(self).outbox
            },
            msg matches Message::MoveAxisRelMsgType(m) ==> {
                &&& moved_rel(
                    old(self).controller_of(m.axis),
                    final(self).controller_of(m.axis),
                    m.distance as int,
                    m.speed,
                )
                &&& m.axis != Axis::X ==> final(self).x_controller == old(self).x_controller
                &&& m.axis != Axis::Y ==> final(self).y_controller == old(self).y_controller
                &&& m.axis != Axis::Z ==> final(self).z_controller == old(self).z_controller
                &&& final(self).endstop_status_client == old(self).endstop_status_client
                &&& final(self).spindle_on == old(self).spindle_on
                &&& final(self).last_position_msg == old(self).last_position_msg
                &&& final(self).outbox == old(self).outbox
            },
            msg matches Message::SpindleControlMsgType(m) ==> *final(self) == (MotorsControl {
                spindle_on: m.on,
                ..*old(self)
            }),
            msg is StopMsgType ==> {
                &&& !final(self).x_controller.movement_in_progress
                &&& !final(self).y_controller.movement_in_progress
                &&& !final(self).z_controller.movement_in_progress
                &&& !final(self).spindle_on
                &&& final(self).endstop_status_client == old(self).endstop_status_client
                &&& final(self).last_position_msg == old(self).last_position_msg
                &&& final(self).outbox == old(self).outbox
            },
            (msg is CurrentPositionMsgType || msg is MovementCompleteMsgType || msg
                is StartHomingMsgType || msg is StartSurfaceGrinderCutMsgType) ==> *final(self)
                == *old(self),
    {
        match msg {
            Message::EndstopHitMsgType(eh_msg) => self.endstop_status_client.process_message(
                eh_msg,
            ),
            Message::GoToPositionMsgType(gtp_msg) => self.go_to_position(
                gtp_msg.axis,
                gtp_msg.position,
                gtp_msg.speed,
            ),
            Message::MoveAxisRelMsgType(mar_msg) => self.move_relative(
                mar_msg.axis,
                mar_msg.distance,
                mar_msg.speed,
            ),
            Message::SpindleControlMsgType(sc_msg) => self.set_spindle_on(sc_msg.on),
            Message::StopMsgType() => self.stop_all(),
            Message::CurrentPositionMsgType(_) => {},
            Message::MovementCompleteMsgType(_) => {},
            Message::StartHomingMsgType() => {},
            Message::StartSurfaceGrinderCutMsgType(_) => {},
        }
    }

    /// Halt one axis if the endstop in its direction of travel is pressed
    /// while it is moving, and report the halt.
    pub fn check_endstops_for_axis(&mut self, axis: Axis)
        requires
            old(self).wf(),
        ensures
            final(self).wf(),
            final(self).endstop_status_client == old(self).endstop_status_client,
            final(self).spindle_on == old(self).spindle_on,
            final(self).last_position_msg == old(self).last_position_msg,
            axis != Axis::X ==> final(self).x_controller == old(self).x_controller,
            axis != Axis::Y ==> final(self).y_controller == old(self).y_controller,
            axis != Axis::Z ==> final(self).z_controller == old(self).z_controller,
            final(self).controller_of(axis) == after_endstop_check(
                old(self).controller_of(axis),
                old(self).hit_for(axis),
            ),
            final(self).outbox@ == old(self).outbox@ + endstop_events(
                old(self).controller_of(axis),
                old(self).hit_for(axis),
                axis,
            ),
    {
        let dir = match axis {
            Axis::X => self.x_controller.get_direction(),
            Axis::Y => self.y_controller.get_direction(),
            Axis::Z => self.z_controller.get_direction(),
        };
        let hit_status = self.endstop_status_client.is_endstop_hit(
            EndstopIdentifier::new(axis, dir),
        );
        let hit = match hit_status {
            Some(true) => true,
            _ => false,
        };
        let moving = match axis {
            Axis::X => self.x_controller.is_movement_in_progress(),
            Axis::Y => self.y_controller.is_movement_in_progress(),
            Axis::Z => self.z_controller.is_movement_in_progress(),
        };
        if hit && moving {
            match axis {
                Axis::X => self.x_controller.stop_move(),
                Axis::Y => self.y_controller.stop_move(),
                Axis::Z => self.z_controller.stop_move(),
            }
            self.outbox.push(
                Message::MovementCompleteMsgType(MovementCompleteMsg { axis, endstop_hit: true }),
            );
            proof {
                assert(self.outbox@ =~= old(self).outbox@ + endstop_events(
                    old(self).controller_of(axis),
                    old(self).hit_for(axis),
                    axis,
                ));
            }
        } else {
            proof {
                assert(self.outbox@ =~= old(self).outbox@ + endstop_events(
                    old(self).controller_of(axis),
                    old(self).hit_for(axis),
                    axis,
                ));
            }
        }
    }

    /// Run the endstop check over all three axes.
    pub fn check_endstops(&mut self)
        requires
            old(self).wf(),
        ensures
            final(self).wf(),
            final(self).endstop_status_client == old(self).endstop_status_client,
            final(self).spindle_on == old(self).spindle_on,
            final(self).last_position_msg == old(self).last_position_msg,
            final(self).x_controller == after_endstop_check(
                old(self).x_controller,
                old(self).hit_for(Axis::X),
            ),
            final(self).y_controller == after_endstop_check(
                old(self).y_controller,
                old(self).hit_for(Axis::Y),
            ),
            final(self).z_controller == after_endstop_check(
                old(self).z_controller,
                old(self).hit_for(Axis::Z),
            ),
            final(self).outbox@ == old(self).outbox@ + endstop_events(
                old(self).x_controller,
                old(self).hit_for(Axis::X),
                Axis::X,
            ) + endstop_events(old(self).y_controller, old(self).hit_for(Axis::Y), Axis::Y)
                + endstop_events(old(self).z_controller, old(self).hit_for(Axis::Z), Axis::Z),
    {
        self.check_endstops_for_axis(Axis::X);
        self.check_endstops_for_axis(Axis::Y);
        self.check_endstops_for_axis(Axis::Z);
        proof {
            assert(self.outbox@ =~= old(self).outbox@ + endstop_events(
                old(self).x_controller,
                old(self).hit_for(Axis::X),
                Axis::X,
            ) + endstop_events(old(self).y_controller, old(self).hit_for(Axis::Y), Axis::Y)
                + endstop_events(old(self).z_controller, old(self).hit_for(Axis::Z), Axis::Z));
        }
    }

    /// Advance one axis's step generator and report a movement that just
    /// finished.
    pub fn update_motor(&mut self, axis: Axis)
        requires
            old(self).wf(),
        ensures
            final(self).wf(),
            final(self).endstop_status_client == old(self).endstop_status_client,
            final(self).spindle_on == old(self).spindle_on,
            final(self).last_position_msg == old(self).last_position_msg,
            axis != Axis::X ==> final(self).x_controller == old(self).x_controller,
            axis != Axis::Y ==> final(self).y_controller == old(self).y_controller,
            axis != Axis::Z ==> final(self).z_controller == old(self).z_controller,
            final(self).controller_of(axis) == stepped(old(self).controller_of(axis)),
            final(self).outbox@ == old(self).outbox@ + update_events(
                old(self).controller_of(axis),
                axis,
            ),
    {
        let prev_movement_in_progress = match axis {
            Axis::X => self.x_controller.is_movement_in_progress(),
            Axis::Y => self.y_controller.is_movement_in_progress(),
            Axis::Z => self.z_controller.is_movement_in_progress(),
        };
        let ongoing = match axis {
            Axis::X => self.x_controller.update(),
            Axis::Y => self.y_controller.update(),
            Axis::Z => self.z_controller.update(),
        };
        if prev_movement_in_progress && !ongoing {
            self.outbox.push(
                Message::MovementCompleteMsgType(MovementCompleteMsg { axis, endstop_hit: false }),
            );
        }
        proof {
            assert(self.outbox@ =~= old(self).outbox@ + update_events(
                old(self).controller_of(axis),
                axis,
            ));
        }
    }

    /// Advance all three step generators.
    pub fn update_controllers(&mut self)
        requires
            old(self).wf(),
        ensures
            final(self).wf(),
            final(self).endstop_status_client == old(self).endstop_status_client,
            final(self).spindle_on == old(self).spindle_on,
            final(self).last_position_msg == old(self).last_position_msg,
            final(self).x_controller == stepped(old(self).x_controller),
            final(self).y_controller == stepped(old(self).y_controller),
            final(self).z_controller == stepped(old(self).z_controller),
            final(self).outbox@ == old(self).outbox@ + update_events(
                old(self).x_controller,
                Axis::X,
            ) + update_events(old(self).y_controller, Axis::Y) + update_events(
                old(self).z_controller,
                Axis::Z,
            ),
    {
        self.update_motor(Axis::X);
        self.update_motor(Axis::Y);
        self.update_motor(Axis::Z);
        proof {
            assert(self.outbox@ =~= old(self).outbox@ + update_events(
                old(self).x_controller,
                Axis::X,
            ) + update_events(old(self).y_controller, Axis::Y) + update_events(
                old(self).z_controller,
                Axis::Z,
            ));
        }
    }

    /// Broadcast one position report when any axis's position changed.
    pub fn send_position_update(&mut self)
        requires
            old(self).wf(),
        ensures
            final(self).wf(),
            final(self).endstop_status_client == old(self).endstop_status_client,
            final(self).spindle_on == old(self).spindle_on,
            final(self).x_controller == old(self).x_controller,
            final(self).y_controller == old(self).y_controller,
            final(self).z_controller == old(self).z_controller,
            ({
                let m = old(self).position_msg_spec();
                if m == old(self).last_position_msg {
                    &&& final(self).outbox@ == old(self).outbox@
                    &&& final(self).last_position_msg == old(self).last_position_msg
                } else {
                    &&& final(self).outbox@ == old(self).outbox@.push(
                        Message::CurrentPositionMsgType(m),
                    )
                    &&& final(self).last_position_msg == m
                }
            }),
    {
        let x = self.x_controller.get_position();
        let y = self.y_controller.get_position();
        let z = self.z_controller.get_position();
        let msg = CurrentPositionMsg { x, y, z };
        proof {
            assert(msg == self.position_msg_spec());
        }
        if msg != self.last_position_msg {
            self.outbox.push(Message::CurrentPositionMsgType(msg));
            self.last_position_msg = msg;
        }
    }

    /// One motor-loop iteration after the inbound drain: endstop-guarded
    /// stops, one step-generator update per axis, then a position report
    /// when anything moved.
    #[verifier::rlimit(60)]
    pub fn tick(&mut self)
        requires
            old(self).wf(),
        ensures
            final(self).wf(),
            final(self).endstop_status_client == old(self).endstop_status_client,
            final(self).spindle_on == old(self).spindle_on,
            ({
                let cx1 = after_endstop_check(old(self).x_controller, old(self).hit_for(Axis::X));
                let cy1 = after_endstop_check(old(self).y_controller, old(self).hit_for(Axis::Y));
                let cz1 = after_endstop_check(old(self).z_controller, old(self).hit_for(Axis::Z));
                let evs = endstop_events(
                    old(self).x_controller,
                    old(self).hit_for(Axis::X),
                    Axis::X,
                ) + endstop_events(old(self).y_controller, old(self).hit_for(Axis::Y), Axis::Y)
                    + endstop_events(old(self).z_controller, old(self).hit_for(Axis::Z), Axis::Z)
                    + update_events(cx1, Axis::X) + update_events(cy1, Axis::Y) + update_events(
                    cz1,
                    Axis::Z,
                );
                let m = final(self).position_msg_spec();
                &&& final(self).x_controller == stepped(cx1)
                &&& final(self).y_controller == stepped(cy1)
                &&& final(self).z_controller == stepped(cz1)
                &&& if m == old(self).last_position_msg {
                    &&& final(self).outbox@ == old(self).outbox@ + evs
                    &&& final(self).last_position_msg == old(self).last_position_msg
                } else {
                    &&& final(self).outbox@ == old(self).outbox@ + evs + seq![
                        Message::CurrentPositionMsgType(m),
                    ]
                    &&& final(self).last_position_msg == m
                }
            }),
    {
        self.check_endstops();
        self.update_controllers();
        self.send_position_update();
        proof {
            let cx1 = after_endstop_check(old(self).x_controller, old(self).hit_for(Axis::X));
            let cy1 = after_endstop_check(old(self).y_controller, old(self).hit_for(Axis::Y));
            let cz1 = after_endstop_check(old(self).z_controller, old(self).hit_for(Axis::Z));
            let evs = endstop_events(old(self).x_controller, old(self).hit_for(Axis::X), Axis::X)
                + endstop_events(old(self).y_controller, old(self).hit_for(Axis::Y), Axis::Y)
                + endstop_events(old(self).z_controller, old(self).hit_for(Axis::Z), Axis::Z)
                + update_events(cx1, Axis::X) + update_events(cy1, Axis::Y) + update_events(
                cz1,
                Axis::Z,
            );
            let m = self.position_msg_spec();
            if m == old(self).last_position_msg {
                assert(self.outbox@ =~= old(self).outbox@ + evs);
            } else {
                assert(self.outbox@ =~= old(self).outbox@ + evs + seq![
                    Message::CurrentPositionMsgType(m),
                ]);
            }
        }
    }
}

/// A pressed endstop in an axis's direction of travel halts that axis in
/// one motor-loop iteration with exactly one endstop-hit completion report,
/// and a halted axis neither steps nor reports again until a new motion
/// command arrives.
pub proof fn lemma_endstop_halts_axis(c: StepperMotorController, axis: Axis)
    ensures
        c.movement_in_progress ==> after_endstop_check(c, true) == halted(c),
        c.movement_in_progress ==> endstop_events(c, true, axis) == seq![
            Message::MovementCompleteMsgType(MovementCompleteMsg { axis, endstop_hit: true }),
        ],
        stepped(halted(c)) == halted(c),
        halted(c).current_step == c.current_step,
        update_events(halted(c), axis) == Seq::<Message>::empty(),
        !c.movement_in_progress ==> after_endstop_check(c, true) == c,
        !c.movement_in_progress ==> endstop_events(c, true, axis) == Seq::<Message>::empty(),
{
}

/// After `start_move_to(position_uin)` and enough `update` calls for the
/// movement to finish (`run_to_target`), with no endstop interfering, the
/// reported position converges to the commanded one within one step: the
/// settled axis sits on the commanded position's step count, and the
/// position it reports differs from the command by at most one step width
/// (`STEP_SCALE / steps_per_inch_milli` microinches).
///
/// `pre` is the axis before the command, `armed` the axis `start_move_to`
/// leaves behind, and `settled` any axis that has since reached that
/// target, as `run_to_target` guarantees.
pub proof fn lemma_move_converges(
    pre: StepperMotorController,
    armed: StepperMotorController,
    settled: StepperMotorController,
    position_uin: int,
    speed_uin_s: u32,
)
    requires
        pre.wf(),
        -MAX_POSITION_UIN <= position_uin <= MAX_POSITION_UIN,
        moved_to(pre, armed, position_uin, speed_uin_s),
        settled.config == armed.config,
        settled.current_step == armed.target_step,
    ensures
        settled.current_step == pre.config.inches_to_steps_spec(position_uin),
        -crate::units::STEP_SCALE <= (settled.position_spec() - position_uin)
            * pre.config.steps_per_inch_milli() <= crate::units::STEP_SCALE,
{
    let cfg = pre.config;
    // A command within the machine range is not clamped.
    cfg.lemma_inches_to_steps_ordered(position_uin, MAX_POSITION_UIN as int);
    cfg.lemma_inches_to_steps_ordered(-MAX_POSITION_UIN as int, position_uin);
    crate::units::lemma_round_div_neg(
        (MAX_POSITION_UIN as int) * cfg.steps_per_inch_milli(),
        crate::units::STEP_SCALE as int,
    );
    assert((-MAX_POSITION_UIN as int) * cfg.steps_per_inch_milli() == -((MAX_POSITION_UIN as int)
        * cfg.steps_per_inch_milli())) by (nonlinear_arith);
    cfg.lemma_inches_round_trip(position_uin);
}

/// The full convergence law for one commanded move: after
/// `start_move_to(position_uin)` (which leaves the axis in the `moved_to`
/// relation) and more `update` calls than the step distance to the target,
/// with no endstop halt in between, the movement has ended and the
/// reported position lies within one step width of the commanded one.
pub proof fn lemma_update_converges(
    pre: StepperMotorController,
    armed: StepperMotorController,
    position_uin: int,
    speed_uin_s: u32,
    n: nat,
)
    requires
        pre.wf(),
        -MAX_POSITION_UIN <= position_uin <= MAX_POSITION_UIN,
        moved_to(pre, armed, position_uin, speed_uin_s),
        n > (if armed.target_step >= armed.current_step {
            armed.target_step - armed.current_step
        } else {
            armed.current_step - armed.target_step
        }),
    ensures
        !stepped_n(armed, n).movement_in_progress,
        stepped_n(armed, n).current_step == pre.config.inches_to_steps_spec(position_uin),
        -crate::units::STEP_SCALE <= (stepped_n(armed, n).position_spec() - position_uin)
            * pre.config.steps_per_inch_milli() <= crate::units::STEP_SCALE,
{
    lemma_update_terminates(armed, n);
    lemma_move_converges(pre, armed, stepped_n(armed, n), position_uin, speed_uin_s);
}

} // verus!
