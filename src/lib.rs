//! Closed-loop fan control for a single-board computer.
//!
//! The library holds the decisions of the controller: how the thermal sensor's
//! text is read as a temperature, how a temperature becomes a PWM duty cycle,
//! and the control loop as a state machine from events to actions. Reading the
//! sensor, driving the pin and sleeping are left to the caller, which performs
//! each action and reports its outcome as the next event.

pub mod control;
pub mod controller;
pub mod sensor;

pub use control::{compute_duty, DutyCycle, Temperature};
pub use controller::{
    Action, ControlError, Event, FanController, HardwareError, Phase, SensorError,
};
pub use sensor::parse_temperature;
