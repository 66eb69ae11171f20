//! Certificate validity monitoring: normalization of certificate
//! timestamps, probe record assembly, round collection, an upsert record
//! store keyed by hostname, and the scheduler's state machine.

pub mod clock;
pub mod hosts;
pub mod probe;
pub mod record;
pub mod round;
pub mod scheduler;
pub mod store;
pub mod timestamp;
