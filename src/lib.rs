//! An interpreter core for the Universal Machine: instruction decoding, the
//! segmented memory, and a single-step execution engine whose every effect
//! is stated as a contract.

pub mod rumdis;
pub mod rumload;
pub mod um;
pub mod laws;
