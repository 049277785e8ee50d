//! Verified core of a safe layer over native window, control and COM interfaces.
//!
//! The operating system is never called from this crate. Every operation is
//! split at the foreign boundary: the library builds the request that has to
//! cross it (a window message, a virtual-table call) and interprets the reply
//! that comes back, and the embedding program carries the two across.
#![allow(non_camel_case_types, non_snake_case, non_upper_case_globals)]

pub mod co;
pub mod dshow;
pub mod gui;
pub mod handles;
pub mod msg;
pub mod ole;
pub mod structs;
pub mod tvm;
pub mod wstring;
