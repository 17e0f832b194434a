//! The decisions of the proof-of-history bridge between the validator and the
//! tile that produces ticks: leader status, reset parameters, block deadlines,
//! the end-of-block sequence, and the alpenglow hand-off.
pub mod recorder;
pub mod tick;
pub mod shutdown;
pub mod epoch;
