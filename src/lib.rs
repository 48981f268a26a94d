//! An infrared carrier transmitter on a 16-bit timer: the divider that brings
//! the timer clock down to the carrier frequency, the PWM surface that gates
//! the carrier, and the interrupt handlers that drive a protocol encoder.

pub mod time;
pub mod divider;
pub mod timer;
pub mod irtim;
pub mod sched;
