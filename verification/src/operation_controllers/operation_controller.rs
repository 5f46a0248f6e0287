//! What is common to every procedure: the replacement parameters and the
//! generic stop.
//!
//! A procedure is one variant of [`OperationController`]
//! (see the manager module); it never replaces itself directly, but fills
//! the `pending_operation_params` slot of its common data and lets the
//! manager construct the next procedure from it.

use vstd::prelude::*;

use crate::messages::Message;

use super::homing_controller::HomingParams;
use super::manual_control_controller::NoOpOperationParams;
use super::operation_controller_data::OperationControllerData;
use super::surface_grinder_cut_controller::SurfaceGrinderCutParams;

verus! {

/// The parameters a procedure hands the manager to name its successor.
#[derive(Copy, Clone, Debug, PartialEq, Eq, Structural)]
pub enum OperationParameters {
    NoOp(NoOpOperationParams),
    Homing(HomingParams),
    SurfaceGrinderCut(SurfaceGrinderCutParams),
}

/// The generic stop of every procedure but the idle one: send one `Stop` to
/// the motor loop and hand control back to the idle (manual-control)
/// procedure.
pub fn generic_stop(data: &mut OperationControllerData)
    requires
        old(data).wf(),
    ensures
        final(data).wf(),
        final(data).motor_outbox@ == old(data).motor_outbox@.push(Message::StopMsgType()),
        final(data).pending_operation_params == Some(
            OperationParameters::NoOp(NoOpOperationParams {  }),
        ),
        final(data).config_client == old(data).config_client,
        final(data).endstop_status_client == old(data).endstop_status_client,
        final(data).position_client == old(data).position_client,
        final(data).work_envelope == old(data).work_envelope,
{
    data.send_to_motor_control(Message::StopMsgType());
    data.pending_operation_params = Some(OperationParameters::NoOp(NoOpOperationParams {  }));
}

} // verus!
