//! Ownership-tracking wrappers for native resources.

pub mod actions;
pub mod fundamental;
pub mod boxed;
pub mod owned_ptr;
