//! A verified core for a single-file disk-throughput probe.
//!
//! The library synthesizes the deterministic payload that a probe writes,
//! converts byte-size units, and sequences the probe's write, read and
//! removal phases as a state machine.  The filesystem calls and the timing
//! themselves are left to an unverified driver, which performs each action
//! the machine requests and feeds the outcome back as an event.

pub mod payload;
pub mod probe;
pub mod units;
