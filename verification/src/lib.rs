//! Memory-allocation subsystem: a manager that selects an allocation strategy
//! from an application profile, derives default buffer and pool sizing, and
//! serves allocate/deallocate requests, reusing buffers from a FIFO pool when
//! the pool-based strategy applies.

pub mod config;
pub mod errors;
pub mod memory;
pub mod sizing;
