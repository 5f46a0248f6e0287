//! The idle procedure: manual control.
//!
//! Jog, spindle, and absolute-move commands from the operator pass straight
//! through to the motor loop; `StartHoming` and `StartSurfaceGrinderCut`
//! hand control to the corresponding procedure.

use vstd::prelude::*;

use crate::messages::Message;

use super::operation_controller::OperationParameters;
use super::operation_controller_data::OperationControllerData;
use super::homing_controller::HomingParams;

verus! {

/// Parameters of the idle procedure; it needs none.
#[derive(Copy, Clone, Debug, PartialEq, Eq, Structural)]
pub struct NoOpOperationParams {}

/// The idle procedure itself.  It keeps no state of its own.
#[derive(Copy, Clone, Debug, PartialEq, Eq, Structural)]
pub struct ManualControlController {}

impl ManualControlController {
    pub fn new() -> (c: Self) {
        ManualControlController {  }
    }

    /// Stop all movement.  Unlike the generic stop, no transition is
    /// requested: this already is the idle procedure.
    pub fn stop(&mut self, data: &mut OperationControllerData)
        requires
            old(data).wf(),
        ensures
            final(data).wf(),
            final(data).motor_outbox@ == old(data).motor_outbox@.push(Message::StopMsgType()),
            final(data).config_client == old(data).config_client,
            final(data).endstop_status_client == old(data).endstop_status_client,
            final(data).position_client == old(data).position_client,
            final(data).work_envelope == old(data).work_envelope,
            final(data).pending_operation_params == old(data).pending_operation_params,
    {
        data.send_to_motor_control(Message::StopMsgType());
    }

    /// Process one inbound message.
    pub fn handle_message(&mut self, data: &mut OperationControllerData, msg: Message)
        requires
            old(data).wf(),
            msg.wf(),
        ensures
            final(data).wf(),
            final(data).config_client == old(data).config_client,
            final(data).work_envelope == old(data).work_envelope,
            msg matches Message::CurrentPositionMsgType(m) ==> {
                &&& final(data).position_client.last_msg == m
                &&& final(data).endstop_status_client == old(data).endstop_status_client
                &&& final(data).motor_outbox@ == old(data).motor_outbox@
                &&& final(data).pending_operation_params == old(data).pending_operation_params
            },
            msg matches Message::EndstopHitMsgType(m) ==> {
                &&& final(data).endstop_status_client.status(m.endstop) == Some(m.value)
                &&& forall|id: crate::common::EndstopIdentifier|
                    id != m.endstop ==> final(data).endstop_status_client.status(id) == old(
                        data,
                    ).endstop_status_client.status(id)
                &&& final(data).position_client == old(data).position_client
                &&& final(data).motor_outbox@ == old(data).motor_outbox@
                &&& final(data).pending_operation_params == old(data).pending_operation_params
            },
            (msg is GoToPositionMsgType || msg is MoveAxisRelMsgType || msg
                is SpindleControlMsgType || msg is StopMsgType) ==> {
                &&& final(data).motor_outbox@ == old(data).motor_outbox@.push(
                    if msg is StopMsgType {
                        Message::StopMsgType()
                    } else {
                        msg
                    },
                )
                &&& final(data).endstop_status_client == old(data).endstop_status_client
                &&& final(data).position_client == old(data).position_client
                &&& final(data).pending_operation_params == old(data).pending_operation_params
            },
            msg is StartHomingMsgType ==> {
                &&& final(data).pending_operation_params == Some(
                    OperationParameters::Homing(HomingParams {  }),
                )
                &&& final(data).motor_outbox@ == old(data).motor_outbox@
                &&& final(data).endstop_status_client == old(data).endstop_status_client
                &&& final(data).position_client == old(data).position_client
            },
            msg matches Message::StartSurfaceGrinderCutMsgType(p) ==> {
                &&& final(data).pending_operation_params == Some(
                    OperationParameters::SurfaceGrinderCut(p),
                )
                &&& final(data).motor_outbox@ == old(data).motor_outbox@
                &&& final(data).endstop_status_client == old(data).endstop_status_client
                &&& final(data).position_client == old(data).position_client
            },
            msg is MovementCompleteMsgType ==> *final(data) == *old(data),
    {
        match msg {
            Message::CurrentPositionMsgType(cp_msg) => data.position_client.handle_message(cp_msg),
            Message::EndstopHitMsgType(eh_msg) => data.endstop_status_client.process_message(
                eh_msg,
            ),
            Message::GoToPositionMsgType(_) => data.send_to_motor_control(msg),
            Message::MoveAxisRelMsgType(_) => data.send_to_motor_control(msg),
            Message::SpindleControlMsgType(_) => data.send_to_motor_control(msg),
            Message::StopMsgType() => self.stop(data),
            Message::StartHomingMsgType() => {
                data.pending_operation_params = Some(
                    OperationParameters::Homing(HomingParams {  }),
                );
            },
            Message::StartSurfaceGrinderCutMsgType(cut_params) => {
                data.pending_operation_params = Some(
                    OperationParameters::SurfaceGrinderCut(cut_params),
                );
            },
            Message::MovementCompleteMsgType(_) => {},
        }
    }
}

} // verus!
