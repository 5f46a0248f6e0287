//! The manager that hosts exactly one procedure at a time.
//!
//! After every message and every update it checks the pending-replacement
//! slot of the common data and, if a procedure asked for its successor,
//! constructs it from the current data and swaps it in.

use vstd::prelude::*;

use crate::common::Axis;
use crate::config::RustGrindConfig;
use crate::messages::Message;

use super::homing_controller::{
    homing_move_msg, homing_next, envelope_recorded, homing_axis, HomingController, HomingState,
};
use super::manual_control_controller::ManualControlController;
use super::operation_controller::OperationParameters;
use super::operation_controller_data::OperationControllerData;
use super::surface_grinder_cut_controller::{
    advanced, SurfaceGrinderCutController, SPINDLE_SPIN_UP_MS,
};
use crate::messages::GoToPositionMsg;

verus! {

/// The procedure the manager is hosting.
#[derive(Copy, Clone, Debug, PartialEq, Eq, Structural)]
pub enum OperationController {
    ManualControl(ManualControlController),
    Homing(HomingController),
    SurfaceGrinderCut(SurfaceGrinderCutController),
}

/// One thread's operation control: the active procedure and the common
/// data it works on.
pub struct OperationControllerManager {
    pub controller: OperationController,
    pub data: OperationControllerData,
}

impl OperationControllerManager {
    /// Between calls the pending-replacement slot is empty, and a hosted
    /// cut procedure is well-formed and never sits in its Idle state: the
    /// transition into Idle swaps the procedure out in the same call.
    pub open spec fn wf(self) -> bool {
        &&& self.data.wf()
        &&& self.data.pending_operation_params is None
        &&& (self.controller matches OperationController::SurfaceGrinderCut(c) ==> c.wf() && !(
        c.state is Idle))
    }

    /// Start with the idle (manual-control) procedure and fresh replicas.
    pub fn new(config: RustGrindConfig) -> (m: Self)
        requires
            config.wf(),
        ensures
            m.wf(),
            m.controller is ManualControl,
            m.data.config_client.config == config,
            m.data.motor_outbox@.len() == 0,
            forall|id: crate::common::EndstopIdentifier|
                m.data.endstop_status_client.status(id) is None,
            m.data.position_client.last_msg.x == 0,
            m.data.position_client.last_msg.y == 0,
            m.data.position_client.last_msg.z == 0,
            m.data.work_envelope.min_x == -256_000_000
                && m.data.work_envelope.max_x == 256_000_000,
            m.data.work_envelope.min_y == -256_000_000
                && m.data.work_envelope.max_y == 256_000_000,
            m.data.work_envelope.min_z == 0 && m.data.work_envelope.max_z == 0,
    {
        OperationControllerManager {
            controller: OperationController::ManualControl(ManualControlController::new()),
            data: OperationControllerData::new(config),
        }
    }

    /// Swap in the procedure a predecessor asked for, if any.
    fn check_replace_controller(&mut self, now_ms: u64)
        requires
            old(self).data.wf(),
        ensures
            final(self).data.wf(),
            final(self).data.pending_operation_params is None,
            final(self).data.config_client == old(self).data.config_client,
            final(self).data.endstop_status_client == old(self).data.endstop_status_client,
            final(self).data.position_client == old(self).data.position_client,
            final(self).data.work_envelope == old(self).data.work_envelope,
            old(self).data.pending_operation_params is None ==> *final(self) == *old(self),
            old(self).data.pending_operation_params matches Some(OperationParameters::NoOp(_))
                ==> {
                &&& final(self).controller is ManualControl
                &&& final(self).data.motor_outbox@ == old(self).data.motor_outbox@
            },
            old(self).data.pending_operation_params matches Some(OperationParameters::Homing(_))
                ==> {
                &&& final(self).controller matches OperationController::Homing(h) && h.state
                    is XMinus
                &&& final(self).data.motor_outbox@ == old(self).data.motor_outbox@.push(
                    homing_move_msg(HomingState::XMinus, old(self).data),
                )
            },
            old(self).data.pending_operation_params matches Some(
                OperationParameters::SurfaceGrinderCut(p),
            ) ==> {
                &&& final(self).controller matches OperationController::SurfaceGrinderCut(c)
                &&& ({
                    let c = final(self).controller->SurfaceGrinderCut_0;
                    &&& c.wf()
                    &&& c.cut_params == p
                    &&& c.state is ToStartingPositionX
                    &&& c.starting_height == old(self).data.position_client.axis_position_spec(
                        Axis::Z,
                    )
                })
                &&& final(self).data.motor_outbox@ == old(self).data.motor_outbox@.push(
                    Message::GoToPositionMsgType(
                        GoToPositionMsg {
                            axis: Axis::X,
                            position: old(self).data.work_envelope.min_x,
                            speed: p.stroke_speed,
                        },
                    ),
                )
            },
    {
        let pending = self.data.pending_operation_params;
        self.data.pending_operation_params = None;
        match pending {
            Option::None => {},
            Option::Some(OperationParameters::NoOp(_)) => {
                self.controller = OperationController::ManualControl(
                    ManualControlController::new(),
                );
            },
            Option::Some(OperationParameters::Homing(_)) => {
                let h = HomingController::new(&mut self.data);
                self.controller = OperationController::Homing(h);
            },
            Option::Some(OperationParameters::SurfaceGrinderCut(p)) => {
                let c = SurfaceGrinderCutController::new(&mut self.data, p, now_ms);
                self.controller = OperationController::SurfaceGrinderCut(c);
            },
        }
    }

    /// Dispatch one inbound message to the active procedure, then perform
    /// any replacement it requested.
    pub fn handle_message(&mut self, msg: Message, now_ms: u64)
        requires
            old(self).wf(),
            msg.wf(),
        ensures
            final(self).wf(),
            final(self).data.config_client == old(self).data.config_client,
            msg is StopMsgType ==> {
                &&& final(self).data.motor_outbox@ == old(self).data.motor_outbox@.push(
                    Message::StopMsgType(),
                )
                &&& final(self).controller is ManualControl
                &&& final(self).data.endstop_status_client == old(self).data.endstop_status_client
                &&& final(self).data.position_client == old(self).data.position_client
                &&& final(self).data.work_envelope == old(self).data.work_envelope
            },
            msg matches Message::CurrentPositionMsgType(m) ==> {
                &&& final(self).data.position_client.last_msg == m
                &&& final(self).controller == old(self).controller
                &&& final(self).data.motor_outbox@ == old(self).data.motor_outbox@
                &&& final(self).data.endstop_status_client == old(self).data.endstop_status_client
                &&& final(self).data.work_envelope == old(self).data.work_envelope
            },
            msg matches Message::EndstopHitMsgType(m) ==> {
                &&& final(self).data.endstop_status_client.status(m.endstop) == Some(m.value)
                &&& forall|id: crate::common::EndstopIdentifier|
                    id != m.endstop ==> final(self).data.endstop_status_client.status(id) == old(
                        self,
                    ).data.endstop_status_client.status(id)
                &&& final(self).controller == old(self).controller
                &&& final(self).data.motor_outbox@ == old(self).data.motor_outbox@
                &&& final(self).data.position_client == old(self).data.position_client
                &&& final(self).data.work_envelope == old(self).data.work_envelope
            },
            old(self).controller is ManualControl ==> {
                &&& ((msg is GoToPositionMsgType || msg is MoveAxisRelMsgType || msg
                    is SpindleControlMsgType) ==> {
                    &&& final(self).controller is ManualControl
                    &&& final(self).data.motor_outbox@ == old(self).data.motor_outbox@.push(msg)
                    &&& final(self).data.work_envelope == old(self).data.work_envelope
                    &&& final(self).data.position_client == old(self).data.position_client
                    &&& final(self).data.endstop_status_client == old(
                        self,
                    ).data.endstop_status_client
                })
                &&& (msg is StartHomingMsgType ==> {
                    &&& final(self).controller matches OperationController::Homing(h) && h.state
                        is XMinus
                    &&& final(self).data.motor_outbox@ == old(self).data.motor_outbox@.push(
                        homing_move_msg(HomingState::XMinus, old(self).data),
                    )
                    &&& final(self).data.work_envelope == old(self).data.work_envelope
                    &&& final(self).data.position_client == old(self).data.position_client
                    &&& final(self).data.endstop_status_client == old(
                        self,
                    ).data.endstop_status_client
                })
                &&& (msg matches Message::StartSurfaceGrinderCutMsgType(p) ==> {
                    &&& final(self).controller matches OperationController::SurfaceGrinderCut(c)
                    &&& ({
                        let c = final(self).controller->SurfaceGrinderCut_0;
                        &&& c.cut_params == p
                        &&& c.state is ToStartingPositionX
                        &&& c.starting_height
                            == old(self).data.position_client.axis_position_spec(Axis::Z)
                    })
                    &&& final(self).data.motor_outbox@ == old(self).data.motor_outbox@.push(
                        Message::GoToPositionMsgType(
                            GoToPositionMsg {
                                axis: Axis::X,
                                position: old(self).data.work_envelope.min_x,
                                speed: p.stroke_speed,
                            },
                        ),
                    )
                    &&& final(self).data.work_envelope == old(self).data.work_envelope
                    &&& final(self).data.position_client == old(self).data.position_client
                    &&& final(self).data.endstop_status_client == old(
                        self,
                    ).data.endstop_status_client
                })
                &&& (msg is MovementCompleteMsgType ==> *final(self) == *old(self))
            },
            old(self).controller matches OperationController::Homing(h) ==> {
                &&& (msg matches Message::MovementCompleteMsgType(m) ==> {
                    &&& (!m.endstop_hit ==> {
                        &&& final(self).controller == old(self).controller
                        &&& final(self).data.work_envelope == old(self).data.work_envelope
                        &&& final(self).data.motor_outbox@ == old(self).data.motor_outbox@.push(
                            homing_move_msg(h.state, old(self).data),
                        )
                    })
                    &&& (m.endstop_hit ==> final(self).data.work_envelope == envelope_recorded(
                        old(self).data.work_envelope,
                        h.state,
                        old(self).data.position_client.axis_position_spec(homing_axis(h.state)),
                    ))
                    &&& (m.endstop_hit && !(h.state is YPlus) ==> {
                        &&& final(self).controller == OperationController::Homing(
                            HomingController { state: homing_next(h.state) },
                        )
                        &&& final(self).data.motor_outbox@ == old(self).data.motor_outbox@.push(
                            homing_move_msg(homing_next(h.state), old(self).data),
                        )
                    })
                    &&& (m.endstop_hit && h.state is YPlus ==> {
                        &&& final(self).controller is ManualControl
                        &&& final(self).data.motor_outbox@ == old(self).data.motor_outbox@.push(
                            Message::StopMsgType(),
                        )
                    })
                })
                &&& ((msg is GoToPositionMsgType || msg is MoveAxisRelMsgType || msg
                    is SpindleControlMsgType || msg is StartHomingMsgType || msg
                    is StartSurfaceGrinderCutMsgType) ==> *final(self) == *old(self))
            },
            old(self).controller matches OperationController::SurfaceGrinderCut(c) ==> {
                &&& (msg is MovementCompleteMsgType ==> {
                    let ns = c.get_next_state_spec(old(self).data);
                    &&& (!(ns is Idle) ==> {
                        &&& final(self).controller matches OperationController::SurfaceGrinderCut(
                            c2,
                        )
                        &&& advanced(
                            c,
                            old(self).data,
                            final(self).controller->SurfaceGrinderCut_0,
                            final(self).data,
                            now_ms,
                        )
                    })
                    &&& (ns is Idle ==> {
                        &&& final(self).controller is ManualControl
                        &&& final(self).data.motor_outbox@ == old(self).data.motor_outbox@.push(
                            Message::StopMsgType(),
                        )
                        &&& final(self).data.work_envelope == old(self).data.work_envelope
                        &&& final(self).data.position_client == old(self).data.position_client
                        &&& final(self).data.endstop_status_client == old(
                            self,
                        ).data.endstop_status_client
                    })
                })
                &&& ((msg is GoToPositionMsgType || msg is MoveAxisRelMsgType || msg
                    is SpindleControlMsgType || msg is StartHomingMsgType || msg
                    is StartSurfaceGrinderCutMsgType) ==> *final(self) == *old(self))
            },
    {
        let ctrl = self.controller;
        match ctrl {
            OperationController::ManualControl(mut c) => {
                c.handle_message(&mut self.data, msg);
                self.controller = OperationController::ManualControl(c);
            },
            OperationController::Homing(mut c) => {
                c.handle_message(&mut self.data, msg);
                self.controller = OperationController::Homing(c);
            },
            OperationController::SurfaceGrinderCut(mut c) => {
                c.handle_message(&mut self.data, msg, now_ms);
                self.controller = OperationController::SurfaceGrinderCut(c);
            },
        }
        self.check_replace_controller(now_ms);
    }

    /// One idle-loop tick: time-based transitions.  Only the cut
    /// procedure's spindle spin-up is time-driven; after three seconds it
    /// begins the first stroke.
    pub fn update(&mut self, now_ms: u64)
        requires
            old(self).wf(),
        ensures
            final(self).wf(),
            ({
                let spin_up_done = old(self).controller matches
                    OperationController::SurfaceGrinderCut(c) && c.state is SpindleSpinUp && now_ms
                    >= c.spindle_started_ms + SPINDLE_SPIN_UP_MS;
                &&& (spin_up_done ==> {
                    let c = old(self).controller->SurfaceGrinderCut_0;
                    &&& final(self).controller matches OperationController::SurfaceGrinderCut(c2)
                    &&& advanced(
                        c,
                        old(self).data,
                        final(self).controller->SurfaceGrinderCut_0,
                        final(self).data,
                        now_ms,
                    )
                    &&& final(self).controller->SurfaceGrinderCut_0.state is XCut
                })
                &&& (!spin_up_done ==> *final(self) == *old(self))
            }),
    {
        let ctrl = self.controller;
        match ctrl {
            OperationController::SurfaceGrinderCut(mut c) => {
                c.update(&mut self.data, now_ms);
                self.controller = OperationController::SurfaceGrinderCut(c);
            },
            _ => {},
        }
        self.check_replace_controller(now_ms);
    }

    /// Orderly shutdown on a dead inbound channel: stop all motion and
    /// return to the idle procedure.  The owning process exits afterwards.
    pub fn shutdown(&mut self, now_ms: u64)
        requires
            old(self).wf(),
        ensures
            final(self).wf(),
            final(self).data.motor_outbox@ == old(self).data.motor_outbox@.push(
                Message::StopMsgType(),
            ),
            final(self).controller is ManualControl,
    {
        let ctrl = self.controller;
        match ctrl {
            OperationController::ManualControl(mut c) => {
                c.stop(&mut self.data);
                self.controller = OperationController::ManualControl(c);
            },
            _ => {
                super::operation_controller::generic_stop(&mut self.data);
            },
        }
        self.check_replace_controller(now_ms);
    }
}

} // verus!
