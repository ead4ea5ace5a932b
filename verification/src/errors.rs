//! The error kinds that extraction and scanning report.

use vstd::prelude::*;

verus! {

/// What can go wrong while reading one image or one file of a scan.
#[derive(Clone, Copy, Debug, PartialEq, Eq, Structural)]
pub enum ImageError {
    /// Content sniffing cannot classify the input; fatal for that file.
    UnrecognizedFormat,
    /// The container can be classified but not decoded (corrupt data,
    /// zero height); fatal for that file.
    MalformedImage,
    /// The steganographic magic did not match: the image carries no
    /// hidden payload. Expected and non-fatal.
    StegoNotPresent,
    /// The magic matched but the payload is truncated, not valid gzip,
    /// or not valid UTF-8.
    StegoCorrupt,
    /// A file or its timestamp could not be read during a scan; that
    /// file is dropped and the scan continues.
    IoFailure,
}

} // verus!
