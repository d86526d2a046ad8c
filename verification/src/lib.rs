//! Streaming execution bridge for prompt-driven line transformations.
//!
//! The library holds the verified core of a pipeline that samples a prefix
//! of the input lines, groups all lines into bounded batches, hands the
//! batches through a bounded FIFO channel to a cooperative script host,
//! and resolves the transformation script through an on-disk cache keyed
//! by a sanitized form of the prompt. All I/O (standard input, the cache
//! files, the code-generation service, the script engine) lives outside
//! the library; the functions here take and return plain values and carry
//! contracts for everything they decide.

pub mod bridge;
pub mod cache;
pub mod channel;
pub mod host;
pub mod limits;
pub mod producer;
pub mod scriptgen;
