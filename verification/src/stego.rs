//! The steganographic decoder: recovers a gzip-compressed UTF-8 text
//! payload hidden in the low bit of each pixel's alpha value. The wire
//! format is a 15-byte ASCII magic, a big-endian 32-bit payload length
//! in bits, then that many bits of gzip-compressed text, carried one bit
//! per alpha value in column-major pixel order.

use vstd::prelude::*;
use vstd::arithmetic::div_mod::lemma_fundamental_div_mod_converse;

use crate::bits::{bytes_at, bytes_eq, int32_at, DataReader};
use crate::errors::ImageError;
use crate::imageio::{decode_image_rgba, decoded_image, gunzip_text, gunzip_to_string};

verus! {

/// The 15 ASCII bytes of the wire format's magic, `stealth_pngcomp`.
pub open spec fn stego_magic() -> Seq<u8> {
    seq![115u8, 116u8, 101u8, 97u8, 108u8, 116u8, 104u8, 95u8, 112u8, 110u8, 103u8, 99u8, 111u8, 109u8, 112u8]
}

fn stego_magic_bytes() -> (r: Vec<u8>)
    ensures
        r@ == stego_magic(),
{
    let r: Vec<u8> = vec![115u8, 116u8, 101u8, 97u8, 108u8, 116u8, 104u8, 95u8, 112u8, 110u8, 103u8, 99u8, 111u8, 109u8, 112u8];
    proof {
        assert(r@ =~= stego_magic());
    }
    r
}

/// The alpha value of each pixel of a row-major RGBA buffer, in
/// column-major order: all rows of the first column, then the second
/// column, and so on.
pub open spec fn alpha_seq(w: nat, h: nat, px: Seq<u8>) -> Seq<u8> {
    Seq::new(w * h, |i: int| px[4 * ((i % (h as int)) * (w as int) + i / (h as int)) + 3])
}

/// Collects the alpha channel of a row-major RGBA buffer in column-major
/// pixel order, the order the wire format prescribes.
pub fn alpha_column_major(w: u32, h: u32, px: &Vec<u8>) -> (r: Vec<u8>)
    requires
        px@.len() == 4 * (w as nat) * (h as nat),
    ensures
        r@ == alpha_seq(w as nat, h as nat, px@),
{
    let mut out: Vec<u8> = Vec::new();
    for x in 0..w
        invariant
            px@.len() == 4 * (w as nat) * (h as nat),
            out@.len() == (x as nat) * (h as nat),
            forall|i: int| 0 <= i < out@.len()
                ==> out@[i] == alpha_seq(w as nat, h as nat, px@)[i],
    {
        for y in 0..h
            invariant
                px@.len() == 4 * (w as nat) * (h as nat),
                x < w,
                out@.len() == (x as nat) * (h as nat) + y,
                forall|i: int| 0 <= i < out@.len()
                    ==> out@[i] == alpha_seq(w as nat, h as nat, px@)[i],
        {
            proof {
                assert(px.len() == px@.len());
                assert((y as int) * (w as int) + (x as int) < (h as int) * (w as int))
                    by (nonlinear_arith)
                    requires
                        0 <= (x as int) < (w as int),
                        0 <= (y as int) < (h as int),
                ;
                assert(4 * (w as int) * (h as int) == 4 * ((h as int) * (w as int)))
                    by (nonlinear_arith);
                assert(px@.len() == 4 * ((h as int) * (w as int)));
                assert(4 * ((y as int) * (w as int) + (x as int)) + 3 < 4 * ((h as int) * (w as int)));
                assert(4 * ((h as int) * (w as int)) <= usize::MAX);
            }
            let idx: usize = 4 * ((y as usize) * (w as usize) + (x as usize)) + 3;
            out.push(px[idx]);
            proof {
                let i0 = (x as int) * (h as int) + (y as int);
                assert((y as int) < (h as int));
                lemma_fundamental_div_mod_converse(i0, h as int, x as int, y as int);
                assert(i0 < (w as nat) * (h as nat)) by (nonlinear_arith)
                    requires
                        x < w,
                        y < h,
                        i0 == (x as int) * (h as int) + (y as int),
                ;
                assert(out@[i0] == alpha_seq(w as nat, h as nat, px@)[i0]);
            }
        }
        proof {
            assert(((x as int) + 1) * (h as int) == (x as int) * (h as int) + (h as int))
                by (nonlinear_arith);
        }
    }
    proof {
        assert(out@ =~= alpha_seq(w as nat, h as nat, px@));
    }
    out
}

/// True when the alpha-bit stream begins with the wire format's magic.
pub open spec fn stego_magic_present(alphas: Seq<u8>) -> bool {
    alphas.len() >= 120 && bytes_at(alphas, 0, 15) == stego_magic()
}

/// The gzip payload the alpha-bit stream carries: present exactly when
/// the magic matches, the 32-bit bit-length field is readable and
/// non-negative, and the stream holds that many payload bits. The bit
/// length is divided by 8 with truncation, as the format prescribes.
pub open spec fn stego_payload(alphas: Seq<u8>) -> Option<Seq<u8>> {
    if !stego_magic_present(alphas) {
        None
    } else if alphas.len() < 152 {
        None
    } else {
        let nbits = int32_at(alphas, 120);
        if nbits < 0 {
            None
        } else if alphas.len() < 152 + 8 * (nbits / 8) {
            None
        } else {
            Some(bytes_at(alphas, 152, (nbits / 8) as nat))
        }
    }
}

/// Reads the wire format from a stream of alpha values. A magic mismatch
/// (or a stream too short to hold the magic) means the image carries no
/// payload; a stream that is truncated after the magic matched, or a
/// negative length field, means the payload is corrupt.
pub fn decode_stego_payload(alphas: Vec<u8>) -> (r: Result<Vec<u8>, ImageError>)
    ensures
        r matches Ok(p) ==> stego_payload(alphas@) == Some(p@),
        r is Ok <==> stego_payload(alphas@) is Some,
        r matches Err(e) ==> (e == ImageError::StegoNotPresent <==> !stego_magic_present(alphas@)),
        r matches Err(e)
            ==> (e == ImageError::StegoNotPresent || e == ImageError::StegoCorrupt),
{
    if alphas.len() < 120 {
        return Err(ImageError::StegoNotPresent);
    }
    let mut reader = DataReader::new(alphas);
    let magic = reader.read_bytes(15);
    let expected = stego_magic_bytes();
    if !bytes_eq(&magic, &expected) {
        return Err(ImageError::StegoNotPresent);
    }
    if reader.remaining() < 32 {
        return Err(ImageError::StegoCorrupt);
    }
    let nbits = reader.read_int32();
    if nbits < 0 {
        return Err(ImageError::StegoCorrupt);
    }
    let nbytes: usize = (nbits as usize) / 8;
    if reader.remaining() < 8 * nbytes {
        return Err(ImageError::StegoCorrupt);
    }
    let payload = reader.read_bytes(nbytes);
    Ok(payload)
}

/// Law: the wire format round-trips. Any alpha-bit stream that encodes
/// the magic, then the payload's bit length as a big-endian 32-bit
/// integer, then the payload's bits, decodes to exactly that payload.
pub proof fn lemma_stego_wire_round_trip(alphas: Seq<u8>, payload: Seq<u8>)
    requires
        alphas.len() >= 152 + 8 * payload.len(),
        bytes_at(alphas, 0, 15) == stego_magic(),
        int32_at(alphas, 120) == 8 * payload.len(),
        8 * payload.len() <= i32::MAX,
        bytes_at(alphas, 152, payload.len()) == payload,
    ensures
        stego_payload(alphas) == Some(payload),
{
    assert((8 * payload.len()) as int / 8 == payload.len());
}

/// The hidden text an image's bytes carry: the image decodes, its
/// column-major alpha bits hold a well-formed payload, and the payload
/// decompresses to UTF-8 text.
pub open spec fn spec_stego_text(bytes: Seq<u8>) -> Option<String> {
    match decoded_image(bytes) {
        Some(t) => match stego_payload(alpha_seq(t.0 as nat, t.1 as nat, t.2)) {
            Some(p) => gunzip_text(p),
            None => None,
        },
        None => None,
    }
}

/// Recovers the hidden text from raw image bytes: decodes the image,
/// walks the alpha channel column-major, reads the wire format, and
/// decompresses the payload.
pub fn extract_nai_data(input_bytes: &[u8]) -> (r: Result<String, ImageError>)
    ensures
        r matches Ok(s) ==> spec_stego_text(input_bytes@) == Some(s),
        r is Ok <==> spec_stego_text(input_bytes@) is Some,
        match decoded_image(input_bytes@) {
            None => r == Err::<String, ImageError>(ImageError::StegoNotPresent),
            Some(t) => r is Ok || (if !stego_magic_present(
                alpha_seq(t.0 as nat, t.1 as nat, t.2),
            ) {
                r == Err::<String, ImageError>(ImageError::StegoNotPresent)
            } else {
                r == Err::<String, ImageError>(ImageError::StegoCorrupt)
            }),
        },
{
    match decode_image_rgba(input_bytes) {
        None => Err(ImageError::StegoNotPresent),
        Some((w, h, px)) => {
            let alphas = alpha_column_major(w, h, &px);
            match decode_stego_payload(alphas) {
                Err(e) => Err(e),
                Ok(payload) => match gunzip_to_string(&payload) {
                    Some(s) => Ok(s),
                    None => Err(ImageError::StegoCorrupt),
                },
            }
        },
    }
}

} // verus!
