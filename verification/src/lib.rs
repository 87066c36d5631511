//! Core of an in-process interception toolkit for one fixed 32-bit target
//! build: module introspection and byte-pattern scanning, reversible memory
//! patches, virtual-table cloning and splicing, flat function-table hooking,
//! a single-hooking-thread consistency check, and the lifecycle that sequences
//! discovery, installation and guaranteed restoration.
//!
//! Everything here works on a plain-value model of the target process: a
//! module's mapped bytes as a byte vector, dispatch tables as vectors of
//! function addresses, and a patched location as a mutable word together with
//! its numeric address. The thin runtime layer that reads and writes the real
//! process memory mirrors each operation one for one.

pub mod game;
pub mod hook;
pub mod memory;
pub mod module;
pub mod single_thread_verifier;
pub mod table;
pub mod vtable;
