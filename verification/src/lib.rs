//! Measuring the offset between the International Atomic Time clock and the
//! system realtime clock: clock readings, signed differences between them,
//! and the assembly of one batch of readings into a result.

pub mod adapter;
pub mod delta;
pub mod reading;
pub mod report;
pub mod sampler;
pub mod text;
