//! A safety layer over a handle-based graphics/compute driver interface.
//!
//! The native surface hands out opaque integer handles whose validity follows
//! a strict parent/child lifetime order: an instance owns physical devices, a
//! device owns pools and synchronization primitives, a pool owns the command
//! buffers allocated from it. This crate binds every wrapped handle to a
//! borrow of its parent, so that letting a parent go out of scope before its
//! children is a compile error; operations the native surface classifies as
//! externally synchronized take the wrapper by exclusive borrow.
//!
//! The driver itself is outside the crate: the verified layer works against a
//! deterministic model of its observable behaviour (one adapter with a
//! graphics-capable and a transfer-only queue family, per-object signal
//! state), and states in its contracts exactly what each operation returns
//! and changes. The raw C
//! binding that carries the same requests over the ABI is unverified glue and
//! lives with the embedding application.
#![allow(non_camel_case_types)]

mod driver;

pub mod command_buffer;
pub mod command_pool;
pub mod debug;
pub mod device;
pub mod event;
pub mod fence;
pub mod instance;
pub mod semaphore;
pub mod sys;
