//! Marshaling core of a native-extension binding: opaque value buffers, the
//! raw-memory protocol that moves values across the boundary, the table of
//! resolved host functions, and the generator that derives that table from the
//! host's API description.
pub mod api;
pub mod cache;
pub mod codegen;
pub mod config;
pub mod ffi;
pub mod init;
pub mod names;
pub mod opaque;
pub mod variant;
pub mod vector;
