//! The boundary between ownership-checked code and a reference-counted,
//! dynamically typed host runtime, with its rules proved.
//!
//! The host runtime is held as a table of records ([`ffi::object::Host`]),
//! so that every rule can be stated and proved: which handle owns which
//! reference, when a type check passes, how a failure that the runtime
//! signals by a reserved value becomes an error, and how a capability table
//! is imported once and then shared. What only a live runtime can answer is
//! asked as a value ([`ffi::foreign::ForeignCall`]) and taken as an
//! argument.
#![allow(non_snake_case)]
#![allow(non_camel_case_types)]
#![allow(non_upper_case_globals)]

pub mod conversion;
pub mod err;
pub mod ffi;
pub mod handle;
pub mod marshal;
pub mod once_cell;
pub mod python;
pub mod types;
