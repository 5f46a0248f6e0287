//! The homing procedure: discover the X and Y extents by driving into each
//! limit switch in turn.
//!
//! Z is deliberately not homed: this machine has no Z Min endstop.

use vstd::prelude::*;

use crate::common::{Axis, AxisEnd};
use crate::messages::{Message, MoveAxisRelMsg, MovementCompleteMsg};

use super::operation_controller::generic_stop;
use super::operation_controller::OperationParameters;
use super::manual_control_controller::NoOpOperationParams;
use super::operation_controller_data::OperationControllerData;
use super::work_envelope::WorkEnvelope;

verus! {

/// Parameters of the homing procedure; it needs none.
#[derive(Copy, Clone, Debug, PartialEq, Eq, Structural)]
pub struct HomingParams {}

/// The limit being sought: X Min, then X Max, then Y Min, then Y Max.
#[derive(Copy, Clone, Debug, PartialEq, Eq, Structural)]
pub enum HomingState {
    XMinus,
    XPlus,
    YMinus,
    YPlus,
}

/// The axis a homing state drives.
pub open spec fn homing_axis(s: HomingState) -> Axis {
    match s {
        HomingState::XMinus => Axis::X,
        HomingState::XPlus => Axis::X,
        HomingState::YMinus => Axis::Y,
        HomingState::YPlus => Axis::Y,
    }
}

/// The end a homing state drives toward.
pub open spec fn homing_end(s: HomingState) -> AxisEnd {
    match s {
        HomingState::XMinus => AxisEnd::Min,
        HomingState::XPlus => AxisEnd::Max,
        HomingState::YMinus => AxisEnd::Min,
        HomingState::YPlus => AxisEnd::Max,
    }
}

/// The state after one limit is found.  YPlus is the last state; finding
/// its limit ends the procedure instead.
pub open spec fn homing_next(s: HomingState) -> HomingState {
    match s {
        HomingState::XMinus => HomingState::XPlus,
        HomingState::XPlus => HomingState::YMinus,
        HomingState::YMinus => HomingState::YPlus,
        HomingState::YPlus => HomingState::YPlus,
    }
}

/// The large relative move a homing state issues on entry: 256 inches
/// toward the sought limit, at the axis's default speed.
pub open spec fn homing_move_msg(s: HomingState, data: OperationControllerData) -> Message {
    Message::MoveAxisRelMsgType(
        MoveAxisRelMsg {
            axis: homing_axis(s),
            distance: if homing_end(s) is Max {
                256_000_000i64
            } else {
                -256_000_000i64
            },
            speed: data.config_client.config.motor_configs.axis_config(
                homing_axis(s),
            ).default_speed_uin_s,
        },
    )
}

/// The envelope with the bound the given homing state seeks replaced by a
/// found position.
pub open spec fn envelope_recorded(e: WorkEnvelope, s: HomingState, pos: i64) -> WorkEnvelope {
    match s {
        HomingState::XMinus => WorkEnvelope { min_x: pos, ..e },
        HomingState::XPlus => WorkEnvelope { max_x: pos, ..e },
        HomingState::YMinus => WorkEnvelope { min_y: pos, ..e },
        HomingState::YPlus => WorkEnvelope { max_y: pos, ..e },
    }
}

/// The homing procedure: its current state.
#[derive(Copy, Clone, Debug, PartialEq, Eq, Structural)]
pub struct HomingController {
    pub state: HomingState,
}

impl HomingController {
    /// Start homing: seek X Min first.
    pub fn new(data: &mut OperationControllerData) -> (c: Self)
        requires
            old(data).wf(),
        ensures
            final(data).wf(),
            c.state is XMinus,
            final(data).motor_outbox@ == old(data).motor_outbox@.push(
                homing_move_msg(HomingState::XMinus, *old(data)),
            ),
            final(data).config_client == old(data).config_client,
            final(data).endstop_status_client == old(data).endstop_status_client,
            final(data).position_client == old(data).position_client,
            final(data).work_envelope == old(data).work_envelope,
            final(data).pending_operation_params == old(data).pending_operation_params,
    {
        let mut ret = HomingController { state: HomingState::XMinus };
        ret.set_state(data, HomingState::XMinus);
        ret
    }

    /// Enter a state: remember it and issue its move.
    fn set_state(&mut self, data: &mut OperationControllerData, state: HomingState)
        requires
            old(data).wf(),
        ensures
            final(data).wf(),
            final(self).state == state,
            final(data).motor_outbox@ == old(data).motor_outbox@.push(
                homing_move_msg(state, *old(data)),
            ),
            final(data).config_client == old(data).config_client,
            final(data).endstop_status_client == old(data).endstop_status_client,
            final(data).position_client == old(data).position_client,
            final(data).work_envelope == old(data).work_envelope,
            final(data).pending_operation_params == old(data).pending_operation_params,
    {
        self.state = state;
        match state {
            HomingState::XMinus => self.move_towards_extent(data, Axis::X, AxisEnd::Min),
            HomingState::XPlus => self.move_towards_extent(data, Axis::X, AxisEnd::Max),
            HomingState::YMinus => self.move_towards_extent(data, Axis::Y, AxisEnd::Min),
            HomingState::YPlus => self.move_towards_extent(data, Axis::Y, AxisEnd::Max),
        }
    }

    /// Issue the large homing move toward one end of one axis.
    fn move_towards_extent(&mut self, data: &mut OperationControllerData, axis: Axis, end: AxisEnd)
        requires
            old(data).wf(),
        ensures
            final(data).wf(),
            *final(self) == *old(self),
            final(data).motor_outbox@ == old(data).motor_outbox@.push(
                Message::MoveAxisRelMsgType(
                    MoveAxisRelMsg {
                        axis,
                        distance: if end is Max {
                            256_000_000i64
                        } else {
                            -256_000_000i64
                        },
                        speed: old(data).config_client.config.motor_configs.axis_config(
                            axis,
                        ).default_speed_uin_s,
                    },
                ),
            ),
            final(data).config_client == old(data).config_client,
            final(data).endstop_status_client == old(data).endstop_status_client,
            final(data).position_client == old(data).position_client,
            final(data).work_envelope == old(data).work_envelope,
            final(data).pending_operation_params == old(data).pending_operation_params,
    {
        let speed = self.get_homing_speed(data, axis);
        let distance: i64 = match end {
            AxisEnd::Max => 256_000_000,
            AxisEnd::Min => -256_000_000,
        };
        data.send_to_motor_control(
            Message::MoveAxisRelMsgType(MoveAxisRelMsg { axis, distance, speed }),
        );
    }

    /// The default speed of an axis, used for homing moves.
    fn get_homing_speed(&self, data: &OperationControllerData, axis: Axis) -> (speed: u32)
        ensures
            speed == data.config_client.config.motor_configs.axis_config(
                axis,
            ).default_speed_uin_s,
    {
        data.config_client.config.motor_configs.get(axis).default_speed_uin_s
    }

    /// A completed move either ran out of travel without touching the limit
    /// (re-issue the same move) or hit it (record the bound and advance;
    /// after the last bound, stop and hand control back).
    pub fn handle_movement_complete(
        &mut self,
        data: &mut OperationControllerData,
        msg: MovementCompleteMsg,
    )
        requires
            old(data).wf(),
        ensures
            final(data).wf(),
            final(data).config_client == old(data).config_client,
            final(data).endstop_status_client == old(data).endstop_status_client,
            final(data).position_client == old(data).position_client,
            !msg.endstop_hit ==> {
                &&& final(self).state == old(self).state
                &&& final(data).work_envelope == old(data).work_envelope
                &&& final(data).motor_outbox@ == old(data).motor_outbox@.push(
                    homing_move_msg(old(self).state, *old(data)),
                )
                &&& final(data).pending_operation_params == old(data).pending_operation_params
            },
            msg.endstop_hit ==> final(data).work_envelope == envelope_recorded(
                old(data).work_envelope,
                old(self).state,
                old(data).position_client.axis_position_spec(homing_axis(old(self).state)),
            ),
            msg.endstop_hit && !(old(self).state is YPlus) ==> {
                &&& final(self).state == homing_next(old(self).state)
                &&& final(data).motor_outbox@ == old(data).motor_outbox@.push(
                    homing_move_msg(homing_next(old(self).state), *old(data)),
                )
                &&& final(data).pending_operation_params == old(data).pending_operation_params
            },
            msg.endstop_hit && old(self).state is YPlus ==> {
                &&& final(data).motor_outbox@ == old(data).motor_outbox@.push(
                    Message::StopMsgType(),
                )
                &&& final(data).pending_operation_params == Some(
                    OperationParameters::NoOp(NoOpOperationParams {  }),
                )
            },
    {
        if !msg.endstop_hit {
            // Did not reach the endstop; keep going.
            let s = self.state;
            self.set_state(data, s);
            return ;
        }
        match self.state {
            HomingState::XMinus => {
                data.work_envelope.min_x = data.position_client.get_axis_position(Axis::X);
                self.set_state(data, HomingState::XPlus);
            },
            HomingState::XPlus => {
                data.work_envelope.max_x = data.position_client.get_axis_position(Axis::X);
                self.set_state(data, HomingState::YMinus);
            },
            HomingState::YMinus => {
                data.work_envelope.min_y = data.position_client.get_axis_position(Axis::Y);
                self.set_state(data, HomingState::YPlus);
            },
            HomingState::YPlus => {
                data.work_envelope.max_y = data.position_client.get_axis_position(Axis::Y);
                generic_stop(data);
            },
        }
    }

    /// Process one inbound message.
    pub fn handle_message(&mut self, data: &mut OperationControllerData, msg: Message)
        requires
            old(data).wf(),
            msg.wf(),
        ensures
            final(data).wf(),
            final(data).config_client == old(data).config_client,
            msg matches Message::CurrentPositionMsgType(m) ==> {
                &&& *final(self) == *old(self)
                &&& final(data).position_client.last_msg == m
                &&& final(data).endstop_status_client == old(data).endstop_status_client
                &&& final(data).motor_outbox@ == old(data).motor_outbox@
                &&& final(data).work_envelope == old(data).work_envelope
                &&& final(data).pending_operation_params == old(data).pending_operation_params
            },
            msg matches Message::EndstopHitMsgType(m) ==> {
                &&& *final(self) == *old(self)
                &&& final(data).endstop_status_client.status(m.endstop) == Some(m.value)
                &&& forall|id: crate::common::EndstopIdentifier|
                    id != m.endstop ==> final(data).endstop_status_client.status(id) == old(
                        data,
                    ).endstop_status_client.status(id)
                &&& final(data).position_client == old(data).position_client
                &&& final(data).motor_outbox@ == old(data).motor_outbox@
                &&& final(data).work_envelope == old(data).work_envelope
                &&& final(data).pending_operation_params == old(data).pending_operation_params
            },
            msg matches Message::MovementCompleteMsgType(m) ==> {
                &&& final(data).endstop_status_client == old(data).endstop_status_client
                &&& final(data).position_client == old(data).position_client
                &&& (!m.endstop_hit ==> {
                    &&& final(self).state == old(self).state
                    &&& final(data).work_envelope == old(data).work_envelope
                    &&& final(data).motor_outbox@ == old(data).motor_outbox@.push(
                        homing_move_msg(old(self).state, *old(data)),
                    )
                    &&& final(data).pending_operation_params == old(
                        data,
                    ).pending_operation_params
                })
                &&& (m.endstop_hit ==> final(data).work_envelope == envelope_recorded(
                    old(data).work_envelope,
                    old(self).state,
                    old(data).position_client.axis_position_spec(homing_axis(old(self).state)),
                ))
                &&& (m.endstop_hit && !(old(self).state is YPlus) ==> {
                    &&& final(self).state == homing_next(old(self).state)
                    &&& final(data).motor_outbox@ == old(data).motor_outbox@.push(
                        homing_move_msg(homing_next(old(self).state), *old(data)),
                    )
                    &&& final(data).pending_operation_params == old(
                        data,
                    ).pending_operation_params
                })
                &&& (m.endstop_hit && old(self).state is YPlus ==> {
                    &&& final(data).motor_outbox@ == old(data).motor_outbox@.push(
                        Message::StopMsgType(),
                    )
                    &&& final(data).pending_operation_params == Some(
                        OperationParameters::NoOp(NoOpOperationParams {  }),
                    )
                })
            },
            msg is StopMsgType ==> {
                &&& *final(self) == *old(self)
                &&& final(data).motor_outbox@ == old(data).motor_outbox@.push(
                    Message::StopMsgType(),
                )
                &&& final(data).pending_operation_params == Some(
                    OperationParameters::NoOp(NoOpOperationParams {  }),
                )
                &&& final(data).endstop_status_client == old(data).endstop_status_client
                &&& final(data).position_client == old(data).position_client
                &&& final(data).work_envelope == old(data).work_envelope
            },
            (msg is GoToPositionMsgType || msg is MoveAxisRelMsgType || msg
                is SpindleControlMsgType || msg is StartHomingMsgType || msg
                is StartSurfaceGrinderCutMsgType) ==> {
                &&& *final(self) == *old(self)
                &&& *final(data) == *old(data)
            },
    {
        match msg {
            Message::CurrentPositionMsgType(cp_msg) => data.position_client.handle_message(cp_msg),
            Message::EndstopHitMsgType(eh_msg) => data.endstop_status_client.process_message(
                eh_msg,
            ),
            Message::MovementCompleteMsgType(mc_msg) => self.handle_movement_complete(
                data,
                mc_msg,
            ),
            Message::StopMsgType() => generic_stop(data),
            _ => {},
        }
    }
}

} // verus!
