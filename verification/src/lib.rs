//! A thread-affine command executor for a single-threaded native multimedia
//! engine, together with the configuration surface that is built on top of it.

pub mod audio;
pub mod data;
pub mod error;
pub mod handle;
pub mod resource;
pub mod runtime;
pub mod signals;
pub mod sources;
pub mod utils;
