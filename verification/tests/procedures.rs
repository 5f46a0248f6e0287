//! The operation-controller procedures: manual control, homing, and the
//! surface-grinder cut cycle, each driven through the manager.

use rust_grind::common::Axis;
use rust_grind::config::RustGrindConfig;
use rust_grind::messages::{
    CurrentPositionMsg, GoToPositionMsg, Message, MovementCompleteMsg,
};
use rust_grind::motor_control::MotorsControl;
use rust_grind::operation_controllers::operation_controller_data::OperationControllerData;
use rust_grind::operation_controllers::operation_controller_manager::{
    OperationController, OperationControllerManager,
};
use rust_grind::operation_controllers::surface_grinder_cut_controller::{
    SurfaceGrinderCutParams, SurfaceGrinderCutState,
};

fn complete(axis: Axis, endstop_hit: bool) -> Message {
    Message::MovementCompleteMsgType(MovementCompleteMsg { axis, endstop_hit })
}

fn position(x: i64, y: i64, z: i64) -> Message {
    Message::CurrentPositionMsgType(CurrentPositionMsg { x, y, z })
}

fn cut_state(mgr: &OperationControllerManager) -> Option<SurfaceGrinderCutState> {
    match &mgr.controller {
        OperationController::SurfaceGrinderCut(c) => Some(c.state),
        _ => None,
    }
}

/// Drive the manager and the motor loop against each other until the cut
/// ends and the manager is idle again; count entries into the XCut state.
fn pump_cut_to_idle(
    mgr: &mut OperationControllerManager,
    motor: &mut MotorsControl,
    now: &mut u64,
) -> usize {
    let mut xcuts = 0;
    let mut was_xcut = cut_state(mgr) == Some(SurfaceGrinderCutState::XCut);
    for _ in 0..100_000 {
        let commands = std::mem::take(&mut mgr.data.motor_outbox);
        for c in commands {
            motor.handle_message(c);
        }
        let mut rounds = 0;
        while motor.x_controller.movement_in_progress
            || motor.y_controller.movement_in_progress
            || motor.z_controller.movement_in_progress
        {
            motor.tick();
            rounds += 1;
            assert!(rounds < 1_000_000, "motor never settled");
        }
        let reports = std::mem::take(&mut motor.outbox);
        if reports.is_empty() {
            match &mgr.controller {
                OperationController::ManualControl(_) => return xcuts,
                OperationController::SurfaceGrinderCut(c)
                    if c.state == SurfaceGrinderCutState::SpindleSpinUp =>
                {
                    *now += 3_100;
                    mgr.update(*now);
                }
                _ => panic!("no progress"),
            }
        } else {
            for r in reports {
                mgr.handle_message(r, *now);
                let is_xcut = cut_state(mgr) == Some(SurfaceGrinderCutState::XCut);
                if is_xcut && !was_xcut {
                    xcuts += 1;
                }
                was_xcut = is_xcut;
            }
        }
        let is_xcut = cut_state(mgr) == Some(SurfaceGrinderCutState::XCut);
        if is_xcut && !was_xcut {
            xcuts += 1;
        }
        was_xcut = is_xcut;
    }
    panic!("cut never reached idle");
}

/// Walk a freshly started cut to the XCut state by completing the two
/// positioning moves and waiting out the spindle spin-up.
fn advance_cut_to_xcut(mgr: &mut OperationControllerManager, now: &mut u64) {
    assert_eq!(cut_state(mgr), Some(SurfaceGrinderCutState::ToStartingPositionX));
    mgr.handle_message(complete(Axis::X, false), *now);
    assert_eq!(cut_state(mgr), Some(SurfaceGrinderCutState::ToStartingPositionY));
    mgr.handle_message(complete(Axis::Y, false), *now);
    assert_eq!(cut_state(mgr), Some(SurfaceGrinderCutState::SpindleSpinUp));
    *now += 3_100;
    mgr.update(*now);
    assert_eq!(cut_state(mgr), Some(SurfaceGrinderCutState::XCut));
}

fn cut_params() -> SurfaceGrinderCutParams {
    SurfaceGrinderCutParams {
        depth_of_cut: 1_000,      // 0.001 inch
        feed_per_pass: 500_000,   // 0.5 inch
        stroke_speed: 2_000_000,  // 2 inches per second
        total_depth: 2_000,       // 0.002 inch
    }
}

/// A configuration with 1000 steps per inch, so one step is 0.001 inch.
fn fine_config() -> RustGrindConfig {
    let mut c = RustGrindConfig::default_config();
    c.motor_configs.x.revs_per_inch_milli = 5_000;
    c.motor_configs.y.revs_per_inch_milli = 5_000;
    c.motor_configs.z.revs_per_inch_milli = 5_000;
    c
}

#[test]
fn manual_forwards_motion_commands() {
    let mut mgr = OperationControllerManager::new(RustGrindConfig::default_config());
    let msg = Message::GoToPositionMsgType(GoToPositionMsg {
        axis: Axis::Z,
        position: 1_000_000,
        speed: 500_000,
    });
    mgr.handle_message(msg, 0);
    assert_eq!(mgr.data.motor_outbox, vec![msg]);
    assert!(matches!(mgr.controller, OperationController::ManualControl(_)));
}

#[test]
fn manual_updates_replicas() {
    let mut mgr = OperationControllerManager::new(RustGrindConfig::default_config());
    mgr.handle_message(position(10, 20, 30), 0);
    assert_eq!(mgr.data.position_client.get_axis_position(Axis::Y), 20);
    assert!(mgr.data.motor_outbox.is_empty());
}

#[test]
fn homing_completes_envelope() {
    let mut mgr = OperationControllerManager::new(RustGrindConfig::default_config());
    mgr.handle_message(Message::StartHomingMsgType(), 0);
    assert!(matches!(mgr.controller, OperationController::Homing(_)));
    // The first homing move is a large X move toward Min.
    assert_eq!(mgr.data.motor_outbox.len(), 1);

    // X Min found at -12 inches.
    mgr.handle_message(position(-12_000_000, 0, 0), 0);
    mgr.handle_message(complete(Axis::X, true), 0);
    // X Max found at +34 inches.
    mgr.handle_message(position(34_000_000, 0, 0), 0);
    mgr.handle_message(complete(Axis::X, true), 0);
    // Y Min found at -7.5 inches.
    mgr.handle_message(position(34_000_000, -7_500_000, 0), 0);
    mgr.handle_message(complete(Axis::Y, true), 0);
    // Y Max found at +15.2 inches.
    mgr.handle_message(position(34_000_000, 15_200_000, 0), 0);
    mgr.handle_message(complete(Axis::Y, true), 0);

    assert_eq!(mgr.data.work_envelope.min_x, -12_000_000);
    assert_eq!(mgr.data.work_envelope.max_x, 34_000_000);
    assert_eq!(mgr.data.work_envelope.min_y, -7_500_000);
    assert_eq!(mgr.data.work_envelope.max_y, 15_200_000);
    // Terminal state: the idle procedure.
    assert!(matches!(mgr.controller, OperationController::ManualControl(_)));
    assert_eq!(mgr.data.motor_outbox.last(), Some(&Message::StopMsgType()));
}

#[test]
fn homing_reissues_move_without_endstop() {
    let mut mgr = OperationControllerManager::new(RustGrindConfig::default_config());
    mgr.handle_message(Message::StartHomingMsgType(), 0);
    let first_move = *mgr.data.motor_outbox.last().unwrap();
    // Ran out of travel without touching the switch: the same move again.
    mgr.handle_message(complete(Axis::X, false), 0);
    assert_eq!(mgr.data.motor_outbox.len(), 2);
    assert_eq!(mgr.data.motor_outbox[1], first_move);
    assert!(matches!(mgr.controller, OperationController::Homing(_)));
}

#[test]
fn cut_cycle_pass_count() {
    // Envelope X in [0, 10] inches, Y in [0, 5] inches, starting Z at 0.
    // With feed 0.5 inch each layer takes ceil(5 / 0.5) + 1 = 11 strokes,
    // and depth 0.002 inch at 0.001 inch per pass gives 2 layers:
    // 22 XCut entries in all.
    let config = fine_config();
    let mut mgr = OperationControllerManager::new(config.clone());
    let mut motor = MotorsControl::new(&config);
    mgr.data.work_envelope.min_x = 0;
    mgr.data.work_envelope.max_x = 10_000_000;
    mgr.data.work_envelope.min_y = 0;
    mgr.data.work_envelope.max_y = 5_000_000;
    mgr.data.work_envelope.min_z = 0;
    mgr.data.work_envelope.max_z = 0;
    let mut now: u64 = 0;
    mgr.handle_message(Message::StartSurfaceGrinderCutMsgType(cut_params()), now);
    let xcuts = pump_cut_to_idle(&mut mgr, &mut motor, &mut now);
    assert_eq!(xcuts, 22);
    assert!(matches!(mgr.controller, OperationController::ManualControl(_)));
    // The spindle is off after the final stop reaches the motor loop.
    motor.handle_message(Message::StopMsgType());
    assert!(!motor.spindle_on);
}

#[test]
fn stop_mid_cut() {
    let mut mgr = OperationControllerManager::new(fine_config());
    let mut now: u64 = 0;
    mgr.handle_message(Message::StartSurfaceGrinderCutMsgType(cut_params()), now);
    advance_cut_to_xcut(&mut mgr, &mut now);
    mgr.data.motor_outbox.clear();
    mgr.handle_message(Message::StopMsgType(), now);
    // Exactly one Stop reaches the motor channel.
    assert_eq!(mgr.data.motor_outbox, vec![Message::StopMsgType()]);
    assert!(matches!(mgr.controller, OperationController::ManualControl(_)));
    // Later completions do not advance any state or emit anything.
    mgr.handle_message(complete(Axis::X, false), now);
    mgr.handle_message(complete(Axis::Y, false), now);
    assert_eq!(mgr.data.motor_outbox, vec![Message::StopMsgType()]);
    assert!(matches!(mgr.controller, OperationController::ManualControl(_)));
}

#[test]
fn spindle_spin_up_timing() {
    let mut mgr = OperationControllerManager::new(fine_config());
    let t0: u64 = 41_000;
    mgr.handle_message(Message::StartSurfaceGrinderCutMsgType(cut_params()), t0);
    mgr.handle_message(complete(Axis::X, false), t0);
    mgr.handle_message(complete(Axis::Y, false), t0);
    assert_eq!(cut_state(&mgr), Some(SurfaceGrinderCutState::SpindleSpinUp));
    // 2.9 seconds after spindle-on: no transition yet.
    mgr.update(t0 + 2_900);
    assert_eq!(cut_state(&mgr), Some(SurfaceGrinderCutState::SpindleSpinUp));
    // 3.1 seconds after spindle-on: the first stroke begins.
    mgr.update(t0 + 3_100);
    assert_eq!(cut_state(&mgr), Some(SurfaceGrinderCutState::XCut));
}

#[test]
fn stop_is_idle_and_one_message_in_every_procedure() {
    // Idle (manual) procedure.
    let mut mgr = OperationControllerManager::new(fine_config());
    mgr.handle_message(Message::StopMsgType(), 0);
    assert_eq!(mgr.data.motor_outbox, vec![Message::StopMsgType()]);
    assert!(matches!(mgr.controller, OperationController::ManualControl(_)));

    // Homing procedure.
    let mut mgr = OperationControllerManager::new(fine_config());
    mgr.handle_message(Message::StartHomingMsgType(), 0);
    mgr.data.motor_outbox.clear();
    mgr.handle_message(Message::StopMsgType(), 0);
    assert_eq!(mgr.data.motor_outbox, vec![Message::StopMsgType()]);
    assert!(matches!(mgr.controller, OperationController::ManualControl(_)));

    // Cut procedure, partway through a layer.
    let mut mgr = OperationControllerManager::new(fine_config());
    let mut now: u64 = 0;
    mgr.handle_message(Message::StartSurfaceGrinderCutMsgType(cut_params()), now);
    advance_cut_to_xcut(&mut mgr, &mut now);
    mgr.handle_message(complete(Axis::X, false), now);
    assert_eq!(cut_state(&mgr), Some(SurfaceGrinderCutState::XReturn));
    mgr.data.motor_outbox.clear();
    mgr.handle_message(Message::StopMsgType(), now);
    assert_eq!(mgr.data.motor_outbox, vec![Message::StopMsgType()]);
    assert!(matches!(mgr.controller, OperationController::ManualControl(_)));
}

#[test]
fn cut_begins_with_move_to_starting_corner() {
    let mut mgr = OperationControllerManager::new(fine_config());
    mgr.data.work_envelope.min_x = -3_000_000;
    mgr.handle_message(Message::StartSurfaceGrinderCutMsgType(cut_params()), 7);
    assert_eq!(cut_state(&mgr), Some(SurfaceGrinderCutState::ToStartingPositionX));
    assert_eq!(
        mgr.data.motor_outbox,
        vec![Message::GoToPositionMsgType(GoToPositionMsg {
            axis: Axis::X,
            position: -3_000_000,
            speed: 2_000_000,
        })]
    );
}

#[test]
fn last_feed_is_clamped_to_the_envelope() {
    // Y spans 0.3 inch but the feed per pass is 0.5 inch: the one YOut
    // move goes exactly to the Min bound, not past it.
    let mut mgr = OperationControllerManager::new(fine_config());
    let mut now: u64 = 0;
    mgr.data.work_envelope.min_y = 0;
    mgr.data.work_envelope.max_y = 300_000;
    mgr.handle_message(Message::StartSurfaceGrinderCutMsgType(cut_params()), now);
    advance_cut_to_xcut(&mut mgr, &mut now);
    // Y sits at its starting corner, max_y.
    mgr.handle_message(position(0, 300_000, 0), now);
    mgr.handle_message(complete(Axis::X, false), now);
    assert_eq!(cut_state(&mgr), Some(SurfaceGrinderCutState::XReturn));
    mgr.data.motor_outbox.clear();
    mgr.handle_message(complete(Axis::X, false), now);
    assert_eq!(cut_state(&mgr), Some(SurfaceGrinderCutState::YOut));
    assert_eq!(
        mgr.data.motor_outbox,
        vec![Message::MoveAxisRelMsgType(rust_grind::messages::MoveAxisRelMsg {
            axis: Axis::Y,
            distance: -300_000,
            speed: 2_000_000,
        })]
    );
}

#[test]
fn data_clone_resets_pending_replacement() {
    let mut data = OperationControllerData::new(RustGrindConfig::default_config());
    data.send_to_motor_control(Message::StopMsgType());
    let copy = data.clone();
    assert_eq!(copy.motor_outbox, data.motor_outbox);
    assert_eq!(copy.work_envelope, data.work_envelope);
    assert!(copy.pending_operation_params.is_none());
}
