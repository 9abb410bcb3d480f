//! Translation between MessagePack-model values and the values of a
//! Lisp-like host runtime, in both directions.
//!
//! `to_host` turns a parsed wire value into a host value; `to_wire` turns a
//! host value into a wire value, using `classify` to tell association lists
//! from plain lists; `bytes` reads a host list of bytes; `laws` states what
//! holds between these.

pub mod bytes;
pub mod classify;
pub mod error;
pub mod host;
pub mod laws;
pub mod to_host;
pub mod to_wire;
pub mod wire;
