//! Verified core of a small vibration meter.
//!
//! A fixed-rate control loop samples a 3-axis accelerometer over a shared
//! two-wire bus, computes the deviation of the acceleration vector's length
//! from one standard gravity, tracks the running peak of that deviation, and
//! renders both values as two lines of fixed-width text.
//!
//! All values are carried in fixed point, at ten-thousandths of a standard
//! gravity per unit, so that the arithmetic, the peak fold and the text
//! rendering can be stated and proved exactly. The hardware edge (the real
//! bus, the display controller, the sensor and the periodic timer) lives
//! outside this crate and exchanges plain values with it.

pub mod bus;
pub mod control;
pub mod math;
pub mod sample;
pub mod reader;
pub mod render;
pub mod tracker;
