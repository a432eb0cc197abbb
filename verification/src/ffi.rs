//! The host runtime's C-level interface, as plain data.

pub mod attribute;
pub mod datetime;
pub mod datetime_api;
pub mod datetime_exported;
pub mod datetime_reflective;
pub mod foreign;
pub mod listobject;
pub mod longobject;
pub mod object;
pub mod pyerrors;
pub mod refcount;
