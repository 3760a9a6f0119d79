//! Control logic of a small Raspberry Pi daemon: a GPIO-driven case fan, the
//! board's two status LEDs, a night-mode schedule, the temperature reading of
//! `vcgencmd`, system reports, and the data lines of an HD44780 display driven
//! in 4-bit mode.
//!
//! Every function here computes; the hardware and the operating system are
//! reached by the caller, which performs the pin levels, file writes and
//! commands that these functions return.

pub mod pin;
pub mod lcd;
pub mod fan;
pub mod sys;
pub mod schedule;
