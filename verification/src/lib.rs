//! Control core of a CNC surface grinder.
//!
//! Three stepper-driven axes (X, Y, Z) are moved by a motor loop that turns
//! position targets into discrete steps while watching limit switches, and an
//! operation controller hosts one machining procedure at a time (manual jog,
//! homing, or a multi-pass surface-grinding cut cycle).  The components
//! communicate only through the typed messages of [`messages::Message`]: every
//! routine here consumes plain values and records its outbound messages in an
//! outbox, so the surrounding process can wire the pieces to channels, GPIO
//! lines, and a clock.
//!
//! All positions, distances, and speeds are integers in microinches
//! (millionths of an inch); see [`units`] for the conversion arithmetic.

pub mod common;
pub mod config;
pub mod endstop_checker;
pub mod messages;
pub mod motor_control;
pub mod operation_controllers;
pub mod pins;
pub mod units;
