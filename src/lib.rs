//! Measurement logic for benchmarking hardware cryptographic engines: buffer
//! sizing, elapsed-time and throughput arithmetic, the warm-up-then-sweep
//! driver, and the fixed big-number operands of the exponentiation run.

pub mod operands;
pub mod sweep;
pub mod timing;
