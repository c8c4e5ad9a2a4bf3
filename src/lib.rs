//! A single-task, hand-driven harness for stepping suspendable computations.
//!
//! The notification handles, the poll context with its capabilities, the
//! example computations and the stepping routines are all verified.
pub mod computation;
pub mod context;
pub mod stepping;
pub mod text;
pub mod waker;
