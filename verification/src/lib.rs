//! Conversion of raster images between JPEG, PNG, WebP and AVIF.
//!
//! The crate does no input or output of its own. It tells formats by file
//! extensions, converts the contents of a file held in memory, and plans and
//! tallies the sweep over a directory; reading and writing the files is left
//! to the caller.

pub mod batch;
pub mod codec;
pub mod converter;
pub mod error;
pub mod format;
pub mod path;
pub mod text;

pub use batch::{BatchAction, BatchEvent, BatchPhase, BatchRun, ConversionRequest, DirEntry};
pub use converter::{Conversion, Encoder, ImageConverter, RasterImage};
pub use error::ConversionError;
pub use format::SupportedFormat;
