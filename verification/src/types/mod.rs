//! Runtime type descriptors: the data that tells the marshaller what
//! native shape one argument or return value has, and how ownership of it
//! moves across the boundary.

pub mod array;
pub mod boxed_type;
pub mod descriptor;
pub mod float;
pub mod gobject;
pub mod gparam;
pub mod hashtable;
pub mod integer;
pub mod ownership;
pub mod ref_type;
pub mod string;

pub use descriptor::{FundamentalType, StructType, TypeDesc};
pub use ownership::Ownership;
