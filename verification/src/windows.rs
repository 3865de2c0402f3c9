//! The host family's native records and the decisions made around them.

pub mod com;
pub mod dcb;
pub mod ffi;
