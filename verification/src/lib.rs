//! Recovery of textual metadata embedded in raster images, and an
//! incremental folder-scanning engine with progress reporting.
//!
//! The library decodes a steganographic payload hidden in the low bit of
//! each pixel's alpha value, reads conventional text metadata (PNG text
//! chunks, the EXIF image description), and decides which files of a
//! folder need reprocessing against a caller-supplied index of previously
//! seen modification times.

pub mod bits;
pub mod errors;
pub mod imageio;
pub mod metadata;
pub mod scan;
pub mod stego;
