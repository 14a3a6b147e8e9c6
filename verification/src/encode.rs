use vstd::prelude::*;

use crate::color::{black, white, Rgba};

verus! {

/// What the external QR encoder does with a text at a target edge length: a
/// function of the text and the size alone, either the rendered pixels or
/// the encoder's message.
pub uninterp spec fn qr_encoded(text: Seq<char>, size: nat) -> Result<Seq<Rgba>, Seq<char>>;

/// Whether the external QR encoder accepts the text at this size.
pub open spec fn qr_encode_ok(text: Seq<char>, size: nat) -> bool {
    qr_encoded(text, size) is Ok
}

/// The bitmap the external QR encoder renders; meaningful when it accepts.
pub open spec fn qr_grid(text: Seq<char>, size: nat) -> Seq<Rgba> {
    qr_encoded(text, size)->Ok_0
}

/// The message the external QR encoder reports; meaningful when it refuses.
pub open spec fn qr_encode_message(text: Seq<char>, size: nat) -> Seq<char> {
    qr_encoded(text, size)->Err_0
}

/// What the external PNG writer does with a square RGBA buffer: a function
/// of the pixel data and the edge length alone.
pub uninterp spec fn png_encoded(pixels: Seq<Rgba>, size: nat) -> Option<Seq<u8>>;

/// Whether the external PNG writer accepts the buffer.
pub open spec fn png_encode_ok(pixels: Seq<Rgba>, size: nat) -> bool {
    png_encoded(pixels, size) is Some
}

/// The bytes the external PNG writer produces; meaningful when it accepts.
pub open spec fn png_bytes(pixels: Seq<Rgba>, size: nat) -> Seq<u8> {
    png_encoded(pixels, size)->Some_0
}

/// Relies on qrcode_generator::to_image_buffer: renders the text as a QR
/// symbol at quartile error correction (25% damage tolerance) into a `size`
/// by `size` bitmap of full-black and full-white pixels, with a quiet zone
/// of at least one module around the symbol.  Whether it succeeds, what it
/// renders and what message it reports are all functions of the text and
/// the size alone; it fails only when the text does not fit any QR symbol
/// version or when `size` leaves no whole pixel per module.  On success the
/// encoder accepted `size`: at least the symbol edge plus its quiet zone,
/// and small enough that the encoder's own overflow guard let `size * size`
/// through.
#[verifier::external_body]
pub(crate) fn qr_encode(text: &str, size: usize) -> (r: Result<Vec<Rgba>, String>)
    ensures
        r is Ok <==> qr_encoded(text@, size as nat) is Ok,
        r matches Ok(v) ==> {
            &&& v@ == qr_encoded(text@, size as nat)->Ok_0
            &&& v@.len() == size * size
            &&& forall|i: int| 0 <= i < v@.len() ==> v@[i] == black() || v@[i] == white()
            &&& 2 <= size <= 0xFFFF_FFFFusize
        },
        r matches Err(m) ==> m@ == qr_encoded(text@, size as nat)->Err_0,
{
    match qrcode_generator::to_image_buffer(text, qrcode_generator::QrCodeEcc::Quartile, size) {
        Ok(buf) => Ok(
            buf.into_raw().into_iter().map(|l| Rgba { r: l, g: l, b: l, a: 255 }).collect(),
        ),
        Err(e) => Err(format!("{}", e)),
    }
}

/// Relies on image's PNG writer over an in-memory cursor: losslessly
/// encodes a `size` by `size` RGBA buffer, preserving every channel
/// including alpha, with the library's fixed default settings, so whether
/// it succeeds and what bytes it produces are functions of the pixels and
/// the edge alone.
#[verifier::external_body]
pub(crate) fn png_encode(pixels: &Vec<Rgba>, size: usize) -> (r: Option<Vec<u8>>)
    requires
        1 <= size <= 0xFFFF_FFFFusize,
        pixels@.len() == size * size,
    ensures
        r is Some <==> png_encoded(pixels@, size as nat) is Some,
        r matches Some(b) ==> b@ == png_encoded(pixels@, size as nat)->Some_0,
{
    let mut raw: Vec<u8> = Vec::new();
    for p in pixels.iter() {
        raw.extend_from_slice(&[p.r, p.g, p.b, p.a]);
    }
    let (w, h) = (size as u32, size as u32);
    let buf = image::ImageBuffer::<image::Rgba<u8>, Vec<u8>>::from_raw(w, h, raw)?;
    let mut out: Vec<u8> = Vec::new();
    buf.write_to(&mut std::io::Cursor::new(&mut out), image::ImageOutputFormat::Png).ok()?;
    Some(out)
}

} // verus!
