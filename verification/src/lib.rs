//! Three-valued SQL comparison semantics over typed scalar domains.
//!
//! The crate provides, for each scalar domain, a tri-state orderer
//! (Less / Equal / Greater), a pure mapper from an ordering and a
//! comparison operator to a boolean verdict, and a NULL-propagation
//! layer that turns two operand evaluation results into an SQL truth
//! value: `None` for unknown, `Some(0)` or `Some(1)` otherwise.

pub mod bytes_ord;
pub mod compare;
pub mod float_ord;
pub mod int_ord;
pub mod op;
