//! Network line quality measurement: a scheduler that interleaves latency
//! probes with throughput samples, the record type it publishes, and the
//! statistics computed over a recorded session.
//!
//! The measuring itself is left to the caller. The library names what is to
//! be done next, takes in what came of it as plain values, and says what is
//! to be recorded. Sockets, threads and files stay outside; of the outside
//! world the library itself only asks for the current minute and the user's
//! data directory, to name a log file.

pub mod time;
pub mod throughput;
pub mod datapoint;
pub mod eval;
pub mod latency;
pub mod scheduler;
pub mod logname;
pub mod builder;

pub use builder::MeasurementBuilder;
pub use datapoint::Datapoint;
pub use datapoint::MeasurementResult;
pub use eval::Evaluation;
