//! Standard metadata extraction and the single entry point that merges
//! it with the steganographic decoder's result.

use vstd::prelude::*;

use crate::bits::bytes_eq;
use crate::errors::ImageError;
use crate::imageio::{
    decode_image_rgba, decoded_image, exif_description, png_texts, read_exif_description,
    read_png_texts, sniff_mime, sniffed_mime,
};
use crate::stego::{extract_nai_data, spec_stego_text};

verus! {

/// Everything knowable about one image: its exact dimensions and the
/// chosen text metadata. The aspect ratio is `width / height`; the
/// dimensions are carried exactly, and a zero height is rejected before
/// this value is ever built, so the ratio is positive and finite.
#[derive(Debug)]
pub struct ImageInfo {
    pub width: u32,
    pub height: u32,
    pub metadata_string: Option<String>,
}

impl ImageInfo {
    pub open spec fn wf(&self) -> bool {
        self.height > 0
    }
}

/// The closed set of container formats the reader distinguishes, decided
/// once per file from the sniffed MIME type.
#[derive(Clone, Copy, Debug, PartialEq, Eq, Structural)]
pub enum ContainerFormat {
    /// PNG: text chunks carry the metadata.
    Png,
    /// JPEG or TIFF: the EXIF ImageDescription carries the metadata.
    JpegTiff,
    /// Any other recognized format: aspect ratio only.
    Other,
}

pub open spec fn mime_png() -> Seq<u8> {
    seq![105u8, 109u8, 97u8, 103u8, 101u8, 47u8, 112u8, 110u8, 103u8]
}

pub open spec fn mime_jpeg() -> Seq<u8> {
    seq![105u8, 109u8, 97u8, 103u8, 101u8, 47u8, 106u8, 112u8, 101u8, 103u8]
}

pub open spec fn mime_tiff() -> Seq<u8> {
    seq![105u8, 109u8, 97u8, 103u8, 101u8, 47u8, 116u8, 105u8, 102u8, 102u8]
}

pub open spec fn spec_classify(m: Seq<u8>) -> ContainerFormat {
    if m == mime_png() {
        ContainerFormat::Png
    } else if m == mime_jpeg() || m == mime_tiff() {
        ContainerFormat::JpegTiff
    } else {
        ContainerFormat::Other
    }
}

/// Decides the container format from a sniffed MIME type given as ASCII
/// bytes.
pub fn classify_mime(m: &Vec<u8>) -> (f: ContainerFormat)
    ensures
        f == spec_classify(m@),
{
    let png: Vec<u8> = vec![105u8, 109u8, 97u8, 103u8, 101u8, 47u8, 112u8, 110u8, 103u8];
    let jpeg: Vec<u8> = vec![105u8, 109u8, 97u8, 103u8, 101u8, 47u8, 106u8, 112u8, 101u8, 103u8];
    let tiff: Vec<u8> = vec![105u8, 109u8, 97u8, 103u8, 101u8, 47u8, 116u8, 105u8, 102u8, 102u8];
    proof {
        assert(png@ =~= mime_png());
        assert(jpeg@ =~= mime_jpeg());
        assert(tiff@ =~= mime_tiff());
    }
    if bytes_eq(m, &png) {
        ContainerFormat::Png
    } else if bytes_eq(m, &jpeg) || bytes_eq(m, &tiff) {
        ContainerFormat::JpegTiff
    } else {
        ContainerFormat::Other
    }
}

/// The first chunk of `texts` that decoded to UTF-8, in file order.
pub open spec fn spec_first_utf8(texts: Seq<Option<String>>) -> Option<String>
    decreases texts.len(),
{
    if texts.len() == 0 {
        None
    } else if texts[0] is Some {
        texts[0]
    } else {
        spec_first_utf8(texts.drop_first())
    }
}

/// The text a PNG contributes: the first UTF-8 text chunk if any
/// decoded, otherwise the first uncompressed Latin-1 text chunk,
/// otherwise nothing. Only the first match is used.
pub open spec fn spec_first_text(utf8: Seq<Option<String>>, latin1: Seq<String>) -> Option<String> {
    match spec_first_utf8(utf8) {
        Some(s) => Some(s),
        None => if latin1.len() > 0 {
            Some(latin1[0])
        } else {
            None
        },
    }
}

/// Chooses one text from a PNG's parsed chunks by the fixed priority:
/// first decodable UTF-8 chunk, else first Latin-1 chunk, else none.
pub fn first_text(utf8: &Vec<Option<String>>, latin1: &Vec<String>) -> (r: Option<String>)
    ensures
        r == spec_first_text(utf8@, latin1@),
{
    let n = utf8.len();
    proof {
        assert(utf8@.skip(0) =~= utf8@);
    }
    for i in 0..n
        invariant
            n == utf8@.len(),
            spec_first_utf8(utf8@) == spec_first_utf8(utf8@.skip(i as int)),
    {
        proof {
            assert(utf8@.skip(i as int)[0] == utf8@[i as int]);
            assert(utf8@.skip(i as int).drop_first() =~= utf8@.skip(i as int + 1));
        }
        match &utf8[i] {
            Some(s) => {
                return Some(s.clone());
            },
            None => {},
        }
    }
    proof {
        assert(utf8@.skip(n as int) =~= Seq::<Option<String>>::empty());
    }
    if latin1.len() > 0 {
        Some(latin1[0].clone())
    } else {
        None
    }
}

/// The text metadata the standard reader yields for given bytes, by the
/// sniffed container format.
pub open spec fn spec_standard_text(bytes: Seq<u8>) -> Option<String> {
    match sniffed_mime(bytes) {
        None => None,
        Some(m) => match spec_classify(m) {
            ContainerFormat::Png => match png_texts(bytes) {
                None => None,
                Some(t) => spec_first_text(t.0, t.1),
            },
            ContainerFormat::JpegTiff => exif_description(bytes),
            ContainerFormat::Other => None,
        },
    }
}

/// Reads the aspect ratio and the conventionally embedded text metadata.
/// Bytes whose format cannot be sniffed are unrecognized — the sole
/// cannot-process case; a classified container that cannot be decoded,
/// or a zero height, is a malformed image.
pub fn extract_general_info(input_bytes: &[u8]) -> (r: Result<ImageInfo, ImageError>)
    ensures
        match sniffed_mime(input_bytes@) {
            None => r == Err::<ImageInfo, ImageError>(ImageError::UnrecognizedFormat),
            Some(_) => match decoded_image(input_bytes@) {
                None => r == Err::<ImageInfo, ImageError>(ImageError::MalformedImage),
                Some(t) => if t.1 == 0 {
                    r == Err::<ImageInfo, ImageError>(ImageError::MalformedImage)
                } else {
                    r matches Ok(info) && info.width == t.0 && info.height == t.1
                        && info.metadata_string == spec_standard_text(input_bytes@)
                },
            },
        },
        r matches Ok(info) ==> info.wf(),
{
    let mime = match sniff_mime(input_bytes) {
        Some(m) => m,
        None => {
            return Err(ImageError::UnrecognizedFormat);
        },
    };
    let decoded = decode_image_rgba(input_bytes);
    let (w, h) = match decoded {
        Some((w, h, _px)) => (w, h),
        None => {
            return Err(ImageError::MalformedImage);
        },
    };
    if h == 0 {
        return Err(ImageError::MalformedImage);
    }
    let metadata_string = match classify_mime(&mime) {
        ContainerFormat::Png => match read_png_texts(input_bytes) {
            Some((utf8, latin1)) => first_text(&utf8, &latin1),
            None => None,
        },
        ContainerFormat::JpegTiff => read_exif_description(input_bytes),
        ContainerFormat::Other => None,
    };
    Ok(ImageInfo { width: w, height: h, metadata_string })
}

/// The text `extract_metadata` reports: the hidden steganographic text
/// where one is present and well formed, otherwise the standard reader's
/// text.
pub open spec fn spec_metadata_text(bytes: Seq<u8>) -> Option<String> {
    match spec_stego_text(bytes) {
        Some(s) => Some(s),
        None => spec_standard_text(bytes),
    }
}

/// Single entry point: everything knowable about an image. The standard
/// reader supplies the aspect ratio and the fallback text; a well-formed
/// hidden payload overrides the text. A steganographic failure of any
/// kind forfeits only the override and is never propagated.
pub fn extract_metadata(input_bytes: &[u8]) -> (r: Result<ImageInfo, ImageError>)
    ensures
        match sniffed_mime(input_bytes@) {
            None => r == Err::<ImageInfo, ImageError>(ImageError::UnrecognizedFormat),
            Some(_) => match decoded_image(input_bytes@) {
                None => r == Err::<ImageInfo, ImageError>(ImageError::MalformedImage),
                Some(t) => if t.1 == 0 {
                    r == Err::<ImageInfo, ImageError>(ImageError::MalformedImage)
                } else {
                    r matches Ok(info) && info.width == t.0 && info.height == t.1
                        && info.metadata_string == spec_metadata_text(input_bytes@)
                },
            },
        },
        r matches Ok(info) ==> info.wf(),
{
    let exif_info = match extract_general_info(input_bytes) {
        Ok(info) => info,
        Err(e) => {
            return Err(e);
        },
    };
    match extract_nai_data(input_bytes) {
        Ok(s) => Ok(ImageInfo {
            width: exif_info.width,
            height: exif_info.height,
            metadata_string: Some(s),
        }),
        Err(_) => Ok(exif_info),
    }
}

} // verus!
