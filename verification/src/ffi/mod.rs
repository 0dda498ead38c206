//! The native call boundary: value representations and the encode/decode
//! protocol implemented by every type descriptor.

pub mod compound;
pub mod encode;
pub mod native_type;
pub mod value;
