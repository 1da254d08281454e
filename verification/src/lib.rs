//! A lint rule that flags a growable buffer rebuilt from raw parts with one
//! expression standing for both its length and its capacity.

pub mod classify;
pub mod expr;
pub mod laws;
pub mod lint;
pub mod spanless;
