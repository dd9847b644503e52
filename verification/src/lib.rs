//! Verified core of a binding to the render API of the mpv player library.
//!
//! The native library is driven through a C interface made of raw pointers. Everything that can
//! be decided without touching a pointer is decided here: which tag and which payload stand for
//! a render parameter, which parameter arrays are submitted, how a status code or a written
//! frame description is read back, and when a callback's storage may be released. The caller
//! owns the pointers: it turns each [`codec::EncodedParam`] into the native structure, makes
//! the native call, and hands the outcome back.

pub mod array;
pub mod codec;
pub mod context;
pub mod error;
pub mod frame;
pub mod param;
pub mod render;

pub use crate::error::mpv_err;
pub use crate::error::Error;
