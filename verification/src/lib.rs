//! Sources of non-determinism under control: the randomness that a process
//! draws and the clocks that it reads, each answered from a replayable source
//! while a simulation runs.

pub mod decimal;
pub mod entropy;
pub mod time;
