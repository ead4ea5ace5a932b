use imagemeta::errors::ImageError;
use imagemeta::metadata::extract_metadata;
use imagemeta::stego::extract_nai_data;

const MAGIC: &[u8] = b"stealth_pngcomp";

fn gzip(text: &str) -> Vec<u8> {
    let mut enc = flate2::write::GzEncoder::new(Vec::new(), flate2::Compression::default());
    std::io::Write::write_all(&mut enc, text.as_bytes()).unwrap();
    enc.finish().unwrap()
}

fn push_carriers(bits: &mut Vec<u8>, b: u8) {
    for i in (0..8).rev() {
        bits.push((b >> i) & 1);
    }
}

/// A row-major RGBA buffer whose alpha channel carries `payload` in the
/// wire format, bits laid out in column-major pixel order. Alpha is 254
/// or 255 so the low bit is the payload bit.
fn stego_rgba(w: u32, h: u32, payload: &[u8]) -> Vec<u8> {
    let mut bits: Vec<u8> = Vec::new();
    for &b in MAGIC {
        push_carriers(&mut bits, b);
    }
    for &b in &((payload.len() * 8) as u32).to_be_bytes() {
        push_carriers(&mut bits, b);
    }
    for &b in payload {
        push_carriers(&mut bits, b);
    }
    assert!(bits.len() <= (w * h) as usize);
    let mut rgba = vec![0u8; (4 * w * h) as usize];
    for x in 0..w {
        for y in 0..h {
            let ci = (x * h + y) as usize;
            let bit = if ci < bits.len() { bits[ci] } else { 0 };
            rgba[(4 * (y * w + x) + 3) as usize] = 254 | bit;
        }
    }
    rgba
}

fn opaque_rgba(w: u32, h: u32) -> Vec<u8> {
    let mut rgba = vec![0u8; (4 * w * h) as usize];
    for p in 0..(w * h) as usize {
        rgba[4 * p + 3] = 255;
    }
    rgba
}

fn make_png(
    w: u32,
    h: u32,
    rgba: &[u8],
    itxt: Option<(&str, &str)>,
    latin1: Option<(&str, &str)>,
) -> Vec<u8> {
    let mut out = Vec::new();
    {
        let mut enc = png::Encoder::new(&mut out, w, h);
        enc.set_color(png::ColorType::Rgba);
        enc.set_depth(png::BitDepth::Eight);
        if let Some((k, v)) = itxt {
            enc.add_itxt_chunk(k.to_string(), v.to_string()).unwrap();
        }
        if let Some((k, v)) = latin1 {
            enc.add_text_chunk(k.to_string(), v.to_string()).unwrap();
        }
        let mut writer = enc.write_header().unwrap();
        writer.write_image_data(rgba).unwrap();
    }
    out
}

/// A minimal little-endian TIFF: one gray 1x1 pixel and an
/// ImageDescription field.
fn make_tiff(description: &str) -> Vec<u8> {
    let desc: Vec<u8> = description.bytes().chain(std::iter::once(0)).collect();
    let n_entries: u16 = 10;
    let ifd_start: u32 = 8;
    let data_start: u32 = ifd_start + 2 + 12 * n_entries as u32 + 4;
    let desc_off = data_start;
    let pixel_off = data_start + desc.len() as u32;

    let mut out = Vec::new();
    out.extend(b"II");
    out.extend(42u16.to_le_bytes());
    out.extend(ifd_start.to_le_bytes());
    out.extend(n_entries.to_le_bytes());
    let entry = |tag: u16, typ: u16, count: u32, value: u32| {
        let mut e = Vec::new();
        e.extend(tag.to_le_bytes());
        e.extend(typ.to_le_bytes());
        e.extend(count.to_le_bytes());
        e.extend(value.to_le_bytes());
        e
    };
    out.extend(entry(256, 3, 1, 1)); // ImageWidth
    out.extend(entry(257, 3, 1, 1)); // ImageLength
    out.extend(entry(258, 3, 1, 8)); // BitsPerSample
    out.extend(entry(259, 3, 1, 1)); // Compression: none
    out.extend(entry(262, 3, 1, 1)); // Photometric: black is zero
    out.extend(entry(270, 2, desc.len() as u32, desc_off)); // ImageDescription
    out.extend(entry(273, 4, 1, pixel_off)); // StripOffsets
    out.extend(entry(277, 3, 1, 1)); // SamplesPerPixel
    out.extend(entry(278, 3, 1, 1)); // RowsPerStrip
    out.extend(entry(279, 4, 1, 1)); // StripByteCounts
    out.extend(0u32.to_le_bytes()); // no next IFD
    out.extend(&desc);
    out.push(0x7F); // the pixel
    out
}

#[test]
fn aspect_ratio_is_width_over_height() {
    let bytes = make_png(4, 2, &opaque_rgba(4, 2), None, None);
    let info = extract_metadata(&bytes).unwrap();
    assert_eq!(info.width, 4);
    assert_eq!(info.height, 2);
    let ratio = info.width as f64 / info.height as f64;
    assert!((ratio - 2.0).abs() < 1e-12);
}

#[test]
fn stego_payload_round_trips_through_extract() {
    let rgba = stego_rgba(30, 20, &gzip("hidden words"));
    let bytes = make_png(30, 20, &rgba, None, None);
    let info = extract_metadata(&bytes).unwrap();
    assert_eq!(info.metadata_string.as_deref(), Some("hidden words"));
}

#[test]
fn stego_text_overrides_png_chunk() {
    let rgba = stego_rgba(30, 20, &gzip("the hidden text"));
    let bytes = make_png(30, 20, &rgba, Some(("Comment", "the chunk text")), None);
    let info = extract_metadata(&bytes).unwrap();
    assert_eq!(info.metadata_string.as_deref(), Some("the hidden text"));
}

#[test]
fn png_chunk_is_returned_without_stego_magic() {
    let bytes = make_png(8, 8, &opaque_rgba(8, 8), Some(("Comment", "the chunk text")), None);
    let info = extract_metadata(&bytes).unwrap();
    assert_eq!(info.metadata_string.as_deref(), Some("the chunk text"));
}

#[test]
fn utf8_chunk_is_preferred_over_latin1() {
    let bytes = make_png(
        8,
        8,
        &opaque_rgba(8, 8),
        Some(("Comment", "utf8 text")),
        Some(("Comment", "latin1 text")),
    );
    let info = extract_metadata(&bytes).unwrap();
    assert_eq!(info.metadata_string.as_deref(), Some("utf8 text"));
}

#[test]
fn latin1_chunk_is_the_fallback() {
    let bytes = make_png(8, 8, &opaque_rgba(8, 8), None, Some(("Comment", "latin1 text")));
    let info = extract_metadata(&bytes).unwrap();
    assert_eq!(info.metadata_string.as_deref(), Some("latin1 text"));
}

#[test]
fn png_without_text_has_no_metadata() {
    let bytes = make_png(8, 8, &opaque_rgba(8, 8), None, None);
    let info = extract_metadata(&bytes).unwrap();
    assert_eq!(info.metadata_string, None);
}

#[test]
fn corrupt_stego_falls_back_to_chunk_text() {
    // Magic present, but the alpha bits after it promise a payload far
    // longer than the image holds.
    let mut rgba = opaque_rgba(16, 16);
    let mut bits = Vec::new();
    for &b in MAGIC {
        push_carriers(&mut bits, b);
    }
    for &b in &u32::MAX.to_be_bytes() {
        push_carriers(&mut bits, b);
    }
    for x in 0..16u32 {
        for y in 0..16u32 {
            let ci = (x * 16 + y) as usize;
            if ci < bits.len() {
                rgba[(4 * (y * 16 + x) + 3) as usize] = 254 | bits[ci];
            }
        }
    }
    let bytes = make_png(16, 16, &rgba, Some(("Comment", "still here")), None);
    assert_eq!(extract_nai_data(&bytes), Err(ImageError::StegoCorrupt));
    let info = extract_metadata(&bytes).unwrap();
    assert_eq!(info.metadata_string.as_deref(), Some("still here"));
}

#[test]
fn unrecognized_format_is_an_error() {
    // A portable graymap decodes as an image but is not sniffed.
    let bytes = b"P2\n1 1\n255\n255\n".to_vec();
    assert_eq!(
        extract_metadata(&bytes).unwrap_err(),
        ImageError::UnrecognizedFormat
    );
}

#[test]
fn unsniffable_bytes_are_unrecognized() {
    // Neither sniffable nor decodable: sniffing decides, so this is the
    // cannot-process case, not a malformed image.
    let bytes = b"certainly not an image".to_vec();
    assert_eq!(
        extract_metadata(&bytes).unwrap_err(),
        ImageError::UnrecognizedFormat
    );
}

#[test]
fn classified_but_undecodable_is_malformed() {
    // A PNG signature sniffs as image/png, but the container is garbage.
    let mut bytes = vec![0x89, 0x50, 0x4E, 0x47, 0x0D, 0x0A, 0x1A, 0x0A];
    bytes.extend(b"not a real chunk");
    assert_eq!(
        extract_metadata(&bytes).unwrap_err(),
        ImageError::MalformedImage
    );
}

#[test]
fn exif_description_is_read_from_tiff() {
    let bytes = make_tiff("hello exif");
    let info = extract_metadata(&bytes).unwrap();
    assert_eq!(info.width, 1);
    assert_eq!(info.height, 1);
    assert_eq!(info.metadata_string.as_deref(), Some("\"hello exif\""));
}
