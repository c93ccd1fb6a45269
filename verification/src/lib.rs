//! A content-addressed memoization engine for repeatable benchmarking.
//!
//! Building a binary and running a benchmark are both expensive. Builds are
//! deduplicated by the hash of the binary they produce, whichever toolchain
//! produced it, and benchmark executions by the pair of binary hash and
//! execution environment. The engine itself performs no outside work: it says
//! what has to be done next and is told how that went.

pub mod batch;
pub mod collector;
pub mod error;
pub mod estimates;
pub mod json;
pub mod laws;
pub mod model;
pub mod plan;
pub mod run;
pub mod storage;
pub mod table;
