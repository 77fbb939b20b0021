//! Controller that runs two simulation instances side by side, paces their
//! advancement against wall-clock time and measures the achieved throughput.
//!
//! Real time and simulated time are counted in microseconds. Desired speeds
//! are counted in tenths (`10` is one simulated second per real second) and
//! measured speeds in hundredths (`420` reads "4.20x").

pub mod pacing;
pub mod benchmark;
pub mod dual;
pub mod mode;
pub mod laws;
pub mod status;
