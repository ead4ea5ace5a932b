//! The trusted boundary to the outside crates that decode containers:
//! image decoding, content sniffing, PNG text chunks, the EXIF image
//! description, and gzip decompression. Each call's result is a function
//! of the input bytes alone and is given a name here; everything done
//! with the results is verified elsewhere in this crate.

use vstd::prelude::*;

verus! {

/// What image decoding yields for given bytes: width, height, and the
/// row-major RGBA pixel buffer; `None` where the bytes do not decode.
pub uninterp spec fn decoded_image(bytes: Seq<u8>) -> Option<(u32, u32, Seq<u8>)>;

/// Relies on `image::load_from_memory` and `DynamicImage::to_rgba8`:
/// decoding depends on the input bytes alone, and the returned buffer
/// holds 4 bytes (RGBA) per pixel in row-major order.
#[verifier::external_body]
pub(crate) fn decode_image_rgba(bytes: &[u8]) -> (r: Option<(u32, u32, Vec<u8>)>)
    ensures
        r matches Some(t) ==> decoded_image(bytes@) == Some((t.0, t.1, t.2@))
            && t.2@.len() == 4 * (t.0 as nat) * (t.1 as nat),
        r is None <==> decoded_image(bytes@) is None,
{
    match image::load_from_memory(bytes) {
        Ok(img) => {
            let rgba = img.to_rgba8();
            let (w, h) = rgba.dimensions();
            Some((w, h, rgba.into_raw()))
        }
        Err(_) => None,
    }
}

/// What content sniffing yields for given bytes: the MIME type as ASCII
/// bytes, or `None` where the format is not recognized.
pub uninterp spec fn sniffed_mime(bytes: Seq<u8>) -> Option<Seq<u8>>;

/// Relies on `infer::get`: magic-byte content sniffing depends on the
/// bytes alone; `Type::mime_type` renders the result as an ASCII string.
#[verifier::external_body]
pub(crate) fn sniff_mime(bytes: &[u8]) -> (r: Option<Vec<u8>>)
    ensures
        r matches Some(m) ==> sniffed_mime(bytes@) == Some(m@),
        r is None <==> sniffed_mime(bytes@) is None,
{
    infer::get(bytes).map(|k| k.mime_type().as_bytes().to_vec())
}

/// What PNG text-chunk parsing yields for given bytes: the iTXt chunks
/// that `read_info` surfaces (those before the image data), in file
/// order, each decoded to UTF-8 where possible, and the uncompressed
/// Latin-1 tEXt chunks likewise; `None` where the container cannot be
/// read.
pub uninterp spec fn png_texts(bytes: Seq<u8>) -> Option<(Seq<Option<String>>, Seq<String>)>;

/// Relies on `png::Decoder::read_info` and the chunk accessors
/// `ITXtChunk::get_text` and `TEXtChunk`: the parsed chunks depend on
/// the bytes alone.
#[verifier::external_body]
pub(crate) fn read_png_texts(bytes: &[u8]) -> (r: Option<(Vec<Option<String>>, Vec<String>)>)
    ensures
        r matches Some(t) ==> png_texts(bytes@) == Some((t.0@, t.1@)),
        r is None <==> png_texts(bytes@) is None,
{
    let decoder = png::Decoder::new(std::io::Cursor::new(bytes));
    let reader = match decoder.read_info() {
        Ok(x) => x,
        Err(_) => return None,
    };
    let info = reader.info();
    let utf8 = info.utf8_text.iter().map(|c| c.get_text().ok()).collect();
    let latin1 = info.uncompressed_latin1_text.iter().map(|c| c.text.clone()).collect();
    Some((utf8, latin1))
}

/// What EXIF parsing yields for given bytes: the ImageDescription field
/// of the primary image rendered as text, or `None` where the container
/// cannot be read or the field is absent.
pub uninterp spec fn exif_description(bytes: Seq<u8>) -> Option<String>;

/// Relies on `exif::Reader::read_from_container`, `Exif::get_field` and
/// `Field::display_value`: the rendered ImageDescription of the primary
/// image depends on the bytes alone.
#[verifier::external_body]
pub(crate) fn read_exif_description(bytes: &[u8]) -> (r: Option<String>)
    ensures
        r matches Some(s) ==> exif_description(bytes@) == Some(s),
        r is None <==> exif_description(bytes@) is None,
{
    let mut cursor = std::io::Cursor::new(bytes);
    exif::Reader::new().read_from_container(&mut cursor).ok().and_then(|ex| {
        ex.get_field(exif::Tag::ImageDescription, exif::In::PRIMARY)
            .map(|field| field.display_value().to_string())
    })
}

/// What gzip decompression yields for given bytes: the decompressed
/// UTF-8 text, or `None` where the bytes are not a valid gzip stream or
/// the decompressed bytes are not valid UTF-8.
pub uninterp spec fn gunzip_text(bytes: Seq<u8>) -> Option<String>;

/// Relies on `flate2::read::GzDecoder` and `Read::read_to_string`: the
/// decompressed text depends on the compressed bytes alone.
#[verifier::external_body]
pub(crate) fn gunzip_to_string(bytes: &Vec<u8>) -> (r: Option<String>)
    ensures
        r matches Some(s) ==> gunzip_text(bytes@) == Some(s),
        r is None <==> gunzip_text(bytes@) is None,
{
    let mut gz = flate2::read::GzDecoder::new(bytes.as_slice());
    let mut out = String::new();
    match std::io::Read::read_to_string(&mut gz, &mut out) {
        Ok(_) => Some(out),
        Err(_) => None,
    }
}

} // verus!
