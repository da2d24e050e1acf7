//! Safe marshaling of byte buffers to and from a native data library
//! (DEFLATE compression and Base64 transcoding).
//!
//! The native routines themselves are called by the caller of this crate; what
//! this crate decides is everything around such a call: whether an input can be
//! handed over, how a zero-terminated argument is built, whether a native result
//! counts as a failure, and how many units of it are copied into an owned buffer.
pub mod error;
pub mod marshal;

pub use error::DataError;
pub use marshal::{copy_output, input_length, nul_terminated, output_extent};
