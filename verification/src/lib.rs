//! Control core of a battery-powered air-quality monitor.
//!
//! All humidity and temperature quantities are fixed-point integers in
//! thousandths of their unit (thousandths of %RH, thousandths of a degree
//! Celsius); times are milliseconds since boot.

pub mod arith;
pub mod buffers;
pub mod humidity_calibrator;
pub mod median;
pub mod event;
pub mod display;
pub mod system_state;
pub mod display_state;
pub mod orchestrate;
pub mod sensor;
pub mod vsys;
pub mod watchdog;
