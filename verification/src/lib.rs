//! Filesystem primitives for staging build trees between benchmark runs:
//! a move with a copy-then-delete fallback, a selective timestamp-touching
//! walk, and a file-count/byte-size aggregation over directory trees.
//!
//! All decision logic is verified here; the surrounding process spawning and
//! filesystem calls live with the callers, which feed plain values in and
//! carry the decisions out.

pub mod relocate;
pub mod touch;
pub mod tree;
