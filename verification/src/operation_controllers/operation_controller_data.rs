//! The common data every procedure works on.

use vstd::prelude::*;

use crate::config::{ConfigClient, RustGrindConfig};
use crate::endstop_checker::EndstopStatusClient;
use crate::messages::Message;
use crate::motor_control::CurrentPositionClient;

use super::operation_controller::OperationParameters;
use super::work_envelope::WorkEnvelope;

verus! {

/// Shared state of the operation-controller thread: the config snapshot,
/// the replicated endstop and position state, the work envelope, the outbox
/// of messages bound for the motor loop, and the slot a procedure fills to
/// ask the manager for its replacement.
pub struct OperationControllerData {
    pub config_client: ConfigClient,
    pub endstop_status_client: EndstopStatusClient,
    pub position_client: CurrentPositionClient,
    pub motor_outbox: Vec<Message>,
    pub work_envelope: WorkEnvelope,
    /// Flag to tell the manager to replace the running procedure with one
    /// created from these parameters.
    pub pending_operation_params: Option<OperationParameters>,
}

impl OperationControllerData {
    pub open spec fn outbox_wf(self) -> bool {
        forall|i: int| 0 <= i < self.motor_outbox@.len() ==> #[trigger] self.motor_outbox@[i].wf()
    }

    pub open spec fn wf(self) -> bool {
        &&& self.config_client.config.wf()
        &&& self.position_client.wf()
        &&& self.work_envelope.bounded()
        &&& self.outbox_wf()
        &&& (self.pending_operation_params matches Some(
            OperationParameters::SurfaceGrinderCut(p),
        ) ==> p.wf())
    }

    pub fn new(config: RustGrindConfig) -> (d: Self)
        requires
            config.wf(),
        ensures
            d.wf(),
            d.config_client.config == config,
            forall|id: crate::common::EndstopIdentifier|
                d.endstop_status_client.status(id) is None,
            d.position_client.last_msg.x == 0,
            d.position_client.last_msg.y == 0,
            d.position_client.last_msg.z == 0,
            d.motor_outbox@.len() == 0,
            d.work_envelope == ({
                let e = WorkEnvelope {
                    min_x: -256_000_000i64,
                    min_y: -256_000_000i64,
                    min_z: 0i64,
                    max_x: 256_000_000i64,
                    max_y: 256_000_000i64,
                    max_z: 0i64,
                };
                e
            }),
            d.pending_operation_params is None,
    {
        OperationControllerData {
            config_client: ConfigClient::new(config),
            endstop_status_client: EndstopStatusClient::new(),
            position_client: CurrentPositionClient::new(),
            motor_outbox: Vec::new(),
            work_envelope: WorkEnvelope::new(),
            pending_operation_params: None,
        }
    }

    /// Queue a message for the motor loop.
    pub fn send_to_motor_control(&mut self, msg: Message)
        requires
            old(self).wf(),
            msg.wf(),
        ensures
            final(self).wf(),
            final(self).motor_outbox@ == old(self).motor_outbox@.push(msg),
            final(self).config_client == old(self).config_client,
            final(self).endstop_status_client == old(self).endstop_status_client,
            final(self).position_client == old(self).position_client,
            final(self).work_envelope == old(self).work_envelope,
            final(self).pending_operation_params == old(self).pending_operation_params,
    {
        self.motor_outbox.push(msg);
    }

    /// A copy of this data for the next procedure; the pending-replacement
    /// slot is reset rather than carried over.
    pub fn clone(&self) -> (d: Self)
        ensures
            d.config_client.config.motor_configs == self.config_client.config.motor_configs,
            d.config_client.config.endstop_config == self.config_client.config.endstop_config,
            d.config_client.config.gpio_chip_name == self.config_client.config.gpio_chip_name,
            d.config_client.config.spindle_enable_pin
                == self.config_client.config.spindle_enable_pin,
            d.endstop_status_client == self.endstop_status_client,
            d.position_client == self.position_client,
            d.motor_outbox@ == self.motor_outbox@,
            d.work_envelope == self.work_envelope,
            d.pending_operation_params is None,
    {
        let mut motor_outbox: Vec<Message> = Vec::new();
        let n = self.motor_outbox.len();
        let mut i: usize = 0;
        while i < n
            invariant
                n == self.motor_outbox@.len(),
                i <= n,
                motor_outbox@ == self.motor_outbox@.take(i as int),
            decreases n - i,
        {
            motor_outbox.push(self.motor_outbox[i]);
            proof {
                assert(motor_outbox@ =~= self.motor_outbox@.take(i + 1));
            }
            i = i + 1;
        }
        proof {
            assert(motor_outbox@ =~= self.motor_outbox@);
        }
        OperationControllerData {
            config_client: ConfigClient {
                config: RustGrindConfig {
                    motor_configs: self.config_client.config.motor_configs,
                    endstop_config: self.config_client.config.endstop_config,
                    gpio_chip_name: self.config_client.config.gpio_chip_name.clone(),
                    spindle_enable_pin: self.config_client.config.spindle_enable_pin,
                },
            },
            endstop_status_client: self.endstop_status_client,
            position_client: self.position_client,
            motor_outbox,
            work_envelope: self.work_envelope,
            pending_operation_params: None,
        }
    }
}

} // verus!
