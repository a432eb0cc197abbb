//! Typed views over records of the host runtime.

pub mod any;
pub mod call;
pub mod compare;
pub mod native;
pub mod traceback;
