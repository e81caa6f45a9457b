//! Reading archives through libarchive: the decisions that the binding
//! takes around each call into the C library, stated and proved.

pub mod archive;
pub mod error;
pub mod reader;
