//! Type-state bookkeeping for the motor-control PWM (MCPWM) peripheral.
//!
//! The crate records, in types, which timers, operators, comparators,
//! generators and pins have been claimed and how they are wired together.
//! It never touches the native driver itself: every operation that needs the
//! driver names the call to make and says what follows from each possible
//! answer (see [`driver`]). Whoever links the native driver performs the calls.

pub mod comparator;
pub mod driver;
pub mod generator;
pub mod gpio;
pub mod group;
pub mod operator;
pub mod timer;
pub mod timer_connection;
pub mod units;
