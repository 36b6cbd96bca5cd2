//! Logical models of the native surface's fixed-layout records and enums.
//!
//! The records here carry the same information as the C-ABI structures, as
//! plain values: lists stand where the ABI has a count plus a pointer, and the
//! forward-compatibility extension pointer (always null at this layer) is
//! omitted. The raw, bit-for-bit layouts live with the unverified binding
//! outside this crate.

pub mod command_buffer;
pub mod command_pool;
pub mod common;
pub mod debug;
pub mod device;
pub mod event;
pub mod fence;
pub mod instance;
pub mod semaphore;
