//! The operation-controller framework: one thread hosts one machining
//! procedure at a time (manual jog, homing, or the surface-grinder cut
//! cycle) behind a common manager.

pub mod homing_controller;
pub mod manual_control_controller;
pub mod operation_controller;
pub mod operation_controller_data;
pub mod operation_controller_manager;
pub mod surface_grinder_cut_controller;
pub mod work_envelope;

pub use surface_grinder_cut_controller::SurfaceGrinderCutParams;
