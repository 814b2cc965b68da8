//! A verified core for simulated device sessions.
//!
//! A session owns a connection state, a buffer of fixed-point samples, and a
//! persistent multiplicative factor. One cycle connects, streams synthetic
//! samples through a bounded channel into the buffer, takes the exact mean,
//! applies a threshold policy to the factor, resets the buffer, and
//! disconnects. All sample values are fixed-point integers and all policy
//! arithmetic is exact rational arithmetic, so every step carries a precise
//! contract.

pub mod aggregate;
pub mod channel;
pub mod config;
pub mod errors;
pub mod policy;
pub mod ratio;
pub mod runner;
pub mod session;
pub mod source;

pub use aggregate::Mean;
pub use channel::SignalChannel;
pub use config::CollectionWindow;
pub use config::ThresholdConfig;
pub use errors::CollectOutcome;
pub use errors::SessionError;
pub use ratio::Ratio;
pub use runner::CycleReport;
pub use runner::SessionRun;
pub use session::ConnectionState;
pub use session::DeviceSession;
pub use source::SampleSource;
