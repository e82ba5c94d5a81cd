//! Hardware benchmark engine: timed, cancellable, progress-reporting stress
//! workloads for CPU, memory and storage, composed into a coordinated suite
//! with partial-failure tolerance and a single aggregate score.

pub mod error;
pub mod lcg;
pub mod clock;
pub mod engine;
pub mod cpu;
pub mod ipc;
pub mod memory;
pub mod primes;
pub mod progress;
pub mod rates;
pub mod sessions;
pub mod storage;
pub mod suite;
pub mod system_info;

pub use error::BenchmarkError;
