//! A tickless monotonic clock built from a free-running cycle counter and a
//! 24-bit down-counting timer.
//!
//! The library holds the clock's logic: widening a 32-bit counter reading into
//! a 64-bit logical time, the offset applied by a reset, and the reload value
//! that arms the down-counter for a wake-up. Register access stays with the
//! caller, which hands the raw counter reading in and writes the reload value
//! the library returns.

pub mod clock;
pub mod extend;
pub mod reload;

pub use clock::{ClockModel, DwtSystick, InitError};
pub use extend::extend_reading;
pub use reload::{reload_for, RELOAD_MAX};
