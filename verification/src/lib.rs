//! The buffer and status discipline of a Snappy block codec.
//!
//! The compression engine is a native library that is reached by foreign
//! calls, which this crate does not make.  What the crate holds is everything
//! that surrounds those calls: how large a destination is handed to the
//! engine, what the engine's status comes to, and which bytes of the
//! destination are returned.  A caller makes the engine's calls and passes
//! what they report to the functions of [`codec`].
//!
//! [`status`] and [`error`] hold the engine's status and the codec's error.
//! [`engine`] is a model of the engine, and [`laws`] proves on it what the
//! codec promises of every engine that keeps its contract.

pub mod codec;
pub mod engine;
pub mod error;
pub mod laws;
pub mod status;

pub use codec::{
    compress, compress_destination, report_fits, uncompress, uncompress_destination,
    validate_compressed_buffer,
};
pub use error::SnappyError;
pub use status::SnappyStatus;
