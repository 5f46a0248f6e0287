//! The motor loop: per-axis step generation, endstop-guarded stops, and
//! position reporting.

use rust_grind::common::{Axis, AxisEnd, EndstopIdentifier};
use rust_grind::config::RustGrindConfig;
use rust_grind::endstop_checker::EndstopStatusClient;
use rust_grind::messages::{
    CurrentPositionMsg, EndstopHitMsg, Message, MoveAxisRelMsg, MovementCompleteMsg,
};
use rust_grind::motor_control::{CurrentPositionClient, MotorsControl, StepperMotorController};

fn default_motors() -> MotorsControl {
    MotorsControl::new(&RustGrindConfig::default_config())
}

fn movement_completes(msgs: &[Message]) -> Vec<MovementCompleteMsg> {
    msgs.iter()
        .filter_map(|m| match m {
            Message::MovementCompleteMsgType(mc) => Some(*mc),
            _ => None,
        })
        .collect()
}

#[test]
fn position_client_tracks_last_report() {
    let mut c = CurrentPositionClient::new();
    assert_eq!(c.get_axis_position(Axis::X), 0);
    c.handle_message(CurrentPositionMsg { x: 1, y: 2, z: 3 });
    assert_eq!(c.get_axis_position(Axis::X), 1);
    assert_eq!(c.get_axis_position(Axis::Y), 2);
    assert_eq!(c.get_axis_position(Axis::Z), 3);
    assert_eq!(c.get_position(), CurrentPositionMsg { x: 1, y: 2, z: 3 });
}

#[test]
fn endstop_client_tracks_reports() {
    let mut c = EndstopStatusClient::new();
    let x_max = EndstopIdentifier::new(Axis::X, AxisEnd::Max);
    let y_min = EndstopIdentifier::new(Axis::Y, AxisEnd::Min);
    assert_eq!(c.is_endstop_hit(x_max), None);
    c.process_message(EndstopHitMsg { endstop: x_max, value: true });
    assert_eq!(c.is_endstop_hit(x_max), Some(true));
    assert_eq!(c.is_endstop_hit(y_min), None);
    c.process_message(EndstopHitMsg { endstop: x_max, value: false });
    assert_eq!(c.is_endstop_hit(x_max), Some(false));
}

#[test]
fn move_converges_to_commanded_position() {
    // 200 steps/inch: one step is 5000 microinches.
    let cfg = RustGrindConfig::default_config().motor_configs.x;
    let mut c = StepperMotorController::new(cfg);
    c.start_move_to(123_456, 1_000_000);
    assert!(c.is_movement_in_progress());
    assert_eq!(c.get_direction(), AxisEnd::Max);
    c.run_to_target();
    assert!(!c.is_movement_in_progress());
    // 123456 microinches is 24.69 steps, so the motor settles on step 25.
    assert_eq!(c.current_step, 25);
    assert_eq!(c.get_position(), 125_000);
    assert!((c.get_position() - 123_456).abs() <= 5_000);
}

#[test]
fn relative_move_adds_to_current_position() {
    let cfg = RustGrindConfig::default_config().motor_configs.x;
    let mut c = StepperMotorController::new(cfg);
    c.start_move_to(1_000_000, 1_000_000);
    c.run_to_target();
    assert_eq!(c.current_step, 200);
    c.start_move_rel(-500_000, 1_000_000);
    assert_eq!(c.get_direction(), AxisEnd::Min);
    c.run_to_target();
    assert_eq!(c.current_step, 100);
    assert_eq!(c.get_position(), 500_000);
}

#[test]
fn direction_is_max_only_toward_max() {
    let cfg = RustGrindConfig::default_config().motor_configs.x;
    let mut c = StepperMotorController::new(cfg);
    c.start_move_to(1_000_000, 1_000_000);
    assert_eq!(c.get_direction(), AxisEnd::Max);
    c.run_to_target();
    // Commanding the position the axis already stands at is a zero-step
    // move: direction is Max only if the target exceeds the current step,
    // so here it is Min.
    c.start_move_to(1_000_000, 1_000_000);
    assert_eq!(c.get_direction(), AxisEnd::Min);
    c.run_to_target();
    // A relative move that rounds to zero steps points Min too.
    c.start_move_rel(-1, 1_000_000);
    assert_eq!(c.get_direction(), AxisEnd::Min);
    assert_eq!(c.target_step, c.current_step);
}

#[test]
fn stop_move_freezes_position() {
    let cfg = RustGrindConfig::default_config().motor_configs.x;
    let mut c = StepperMotorController::new(cfg);
    c.start_move_to(1_000_000, 1_000_000);
    for _ in 0..7 {
        c.update();
    }
    let at = c.current_step;
    c.stop_move();
    assert!(!c.is_movement_in_progress());
    assert_eq!(c.current_step, at);
    // A zero-distance command is a no-op: later updates take no step.
    for _ in 0..5 {
        assert!(!c.update());
    }
    assert_eq!(c.current_step, at);
}

#[test]
fn command_beyond_machine_range_is_clamped() {
    let cfg = RustGrindConfig::default_config().motor_configs.x;
    let mut c = StepperMotorController::new(cfg);
    // 2000 inches is far outside the machine: the target stops at the
    // 512-inch machine limit (102400 steps at 200 steps per inch).
    c.start_move_to(2_000_000_000, 1_000_000);
    assert_eq!(c.target_step, c.max_step);
    assert_eq!(c.max_step, 102_400);
    let mut c = StepperMotorController::new(cfg);
    c.start_move_rel(-2_000_000_000, 1_000_000);
    assert_eq!(c.target_step, -c.max_step);
}

#[test]
fn default_step_rate() {
    // One inch per second at 200 steps per inch: 200 steps per second,
    // i.e. 200 milli-steps per millisecond.
    let cfg = RustGrindConfig::default_config().motor_configs.x;
    let c = StepperMotorController::new(cfg);
    assert_eq!(c.get_steps_per_millisecond(), 200);
    assert_eq!(c.ips_to_steps_per_millisecond(500_000), 100);
}

#[test]
fn motor_loop_reports_completion_and_position() {
    let mut m = default_motors();
    m.handle_message(Message::MoveAxisRelMsgType(MoveAxisRelMsg {
        axis: Axis::X,
        distance: 10_000,  // two steps
        speed: 1_000_000,
    }));
    let mut rounds = 0;
    while m.x_controller.movement_in_progress {
        m.tick();
        rounds += 1;
        assert!(rounds < 100);
    }
    let msgs = std::mem::take(&mut m.outbox);
    let mc = movement_completes(&msgs);
    assert_eq!(mc.len(), 1);
    assert_eq!(mc[0], MovementCompleteMsg { axis: Axis::X, endstop_hit: false });
    // The final position broadcast carries all three axes.
    let last = msgs.last().unwrap();
    assert_eq!(
        *last,
        Message::CurrentPositionMsgType(CurrentPositionMsg { x: 10_000, y: 0, z: 0 })
    );
}

#[test]
fn endstop_interrupted_jog() {
    let mut m = default_motors();
    // MoveAxisRelative of +100 inches on X.
    m.handle_message(Message::MoveAxisRelMsgType(MoveAxisRelMsg {
        axis: Axis::X,
        distance: 100_000_000,
        speed: 1_000_000,
    }));
    for _ in 0..10 {
        m.tick();
    }
    assert!(m.x_controller.movement_in_progress);
    m.outbox.clear();
    // The switch at (X, Max) closes while X travels toward Max.
    m.handle_message(Message::EndstopHitMsgType(EndstopHitMsg {
        endstop: EndstopIdentifier::new(Axis::X, AxisEnd::Max),
        value: true,
    }));
    m.tick();
    let msgs = std::mem::take(&mut m.outbox);
    let mc = movement_completes(&msgs);
    assert_eq!(mc.len(), 1);
    assert_eq!(mc[0], MovementCompleteMsg { axis: Axis::X, endstop_hit: true });
    assert!(!m.x_controller.movement_in_progress);
    // No further step pulses on X until a new command.
    let at = m.x_controller.current_step;
    for _ in 0..10 {
        m.tick();
    }
    assert_eq!(m.x_controller.current_step, at);
    assert!(m.outbox.is_empty());
    // A new command moves the axis again.
    m.handle_message(Message::MoveAxisRelMsgType(MoveAxisRelMsg {
        axis: Axis::X,
        distance: -5_000,
        speed: 1_000_000,
    }));
    m.tick();
    assert_ne!(m.x_controller.current_step, at);
}

#[test]
fn stop_message_halts_all_axes_and_spindle() {
    let mut m = default_motors();
    m.handle_message(Message::SpindleControlMsgType(
        rust_grind::messages::SpindleControlMsg { on: true },
    ));
    assert!(m.spindle_on);
    m.handle_message(Message::MoveAxisRelMsgType(MoveAxisRelMsg {
        axis: Axis::Y,
        distance: 1_000_000,
        speed: 1_000_000,
    }));
    m.tick();
    m.handle_message(Message::StopMsgType());
    assert!(!m.x_controller.movement_in_progress);
    assert!(!m.y_controller.movement_in_progress);
    assert!(!m.z_controller.movement_in_progress);
    assert!(!m.spindle_on);
}

#[test]
fn disconnected_bus_shutdown() {
    // When every sender to the motor loop is gone, the owning process calls
    // shutdown before it exits: all motion stops and the spindle is driven
    // low.
    let mut m = default_motors();
    m.handle_message(Message::SpindleControlMsgType(
        rust_grind::messages::SpindleControlMsg { on: true },
    ));
    m.handle_message(Message::MoveAxisRelMsgType(MoveAxisRelMsg {
        axis: Axis::X,
        distance: 50_000_000,
        speed: 1_000_000,
    }));
    m.handle_message(Message::MoveAxisRelMsgType(MoveAxisRelMsg {
        axis: Axis::Z,
        distance: -1_000_000,
        speed: 1_000_000,
    }));
    for _ in 0..3 {
        m.tick();
    }
    m.shutdown();
    assert!(!m.x_controller.movement_in_progress);
    assert!(!m.y_controller.movement_in_progress);
    assert!(!m.z_controller.movement_in_progress);
    assert!(!m.spindle_on);
}
