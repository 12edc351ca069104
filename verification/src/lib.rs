//! Decision and data logic of a current monitor: an ADC sensor is sampled,
//! the AC component of the signal is measured, state changes are detected,
//! queued and reported to an HTTP server.

pub mod http;
pub mod sensor;
pub mod cola;
pub mod control;
pub mod wifi;
pub mod reloj;
