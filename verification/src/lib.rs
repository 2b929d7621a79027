//! A unified error representation with a causal chain.
//!
//! One fallible subsystem after another reports failures through a single
//! cheaply cloneable [`error::Error`] handle.  A handle holds one payload
//! (an ad hoc message, a numeric range violation, a failed time zone lookup,
//! a file path, or the text of an operating-system error) and optionally a
//! causal predecessor.  Context attachment links a fresh consequent error to
//! an existing cause, and rendering walks the chain from the outermost
//! consequence down to the original cause, joining the segments with `": "`.

pub mod error;
pub mod render;
