//! Drives a dial gauge from single command bytes received over a serial link.
//!
//! `calibration` maps a command byte to a PWM duty cycle through the gauge's
//! fitted quadratic curve, `pwm` models the three PWM output channels, and
//! `command_loop` is the state machine of the serial command loop that the
//! firmware runs around the transport.
pub mod calibration;
pub mod pwm;
pub mod command_loop;
