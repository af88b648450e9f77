//! Core state engine for a vehicle-telemetry overlay: debounced display
//! formatting, a bounded time-windowed history of the pedal channels, a
//! peak-RPM shift-capture state machine, and a low-frequency vehicle-profile
//! poller. All times are integer milliseconds; fractional telemetry channels
//! are carried as integer fixed-point values (basis points or centi-units),
//! so every rule here is exact integer arithmetic.

pub mod cache;
pub mod engine;
pub mod fmt;
pub mod history;
pub mod profile;
pub mod revs;
pub mod shift;
