//! A status line for a desktop bar: samplers of load, battery, time and a
//! remote statistic, a time-to-live cache for the remote fetch, a low-battery
//! alert monitor, and the composition of fragments into one line.
pub mod text;
pub mod battery;
pub mod load;
pub mod clock;
pub mod remote;
pub mod cache;
pub mod alert;
pub mod status;
