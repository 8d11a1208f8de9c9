//! Turning the bitmap the Windows Shell hands back for a file into the PNG
//! thumbnail that is cached for it.
//!
//! Asking the Shell for the bitmap is left to the caller; this module checks
//! its size, reorders its pixels and encodes them.

use image::codecs::png::PngEncoder;
use image::ExtendedColorType;
use image::ImageEncoder;
use vstd::prelude::*;

use crate::text::{copy_of, has_prefix, joined};

verus! {

/// The side, in pixels, the Shell is asked for.
pub const SHELL_IMAGE_REQUEST: i32 = 128;

/// The largest side, in pixels, of a bitmap that is accepted.
pub const SHELL_IMAGE_MAX_SIDE: u32 = 1024;

/// Refusal of a bitmap with an empty or oversized side.
pub const INVALID_SHELL_SIZE: &'static str = "Shell geçersiz bir görsel boyutu döndürdü.";

/// The prefix of the refusal of pixels the PNG encoder rejects.
pub const PNG_ENCODING_FAILED: &'static str = "Shell görseli PNG olarak kodlanamadı: ";

/// What `image`'s `PngEncoder::write_image` writes for `pixels`, an RGBA
/// image of `width` by `height` pixels with 8 bits per channel; `None` where
/// it returns an error.
pub uninterp spec fn png_rgba8(pixels: Seq<u8>, width: u32, height: u32) -> Option<Seq<u8>>;

/// The eight bytes every PNG file starts with.
pub open spec fn png_signature() -> Seq<u8> {
    seq![137u8, 80u8, 78u8, 71u8, 13u8, 10u8, 26u8, 10u8]
}

/// Whether `bytes` start with the PNG signature.
pub open spec fn starts_as_png(bytes: Seq<u8>) -> bool {
    bytes.len() >= 8 && bytes.take(8) == png_signature()
}

/// `PngEncoder::write_image` of the `image` crate on 8-bit RGBA pixels. It
/// panics unless the buffer holds exactly `width * height * 4` bytes, which
/// `requires` demands. The encoded bytes are named; as the `png` crate writes
/// the signature first, into a buffer that starts empty here, they start with
/// it. The error's text is handed back as it is displayed, and nothing is
/// stated of it.
#[verifier::external_body]
fn encode_png(pixels: &[u8], width: u32, height: u32) -> (r: Result<Vec<u8>, String>)
    requires
        pixels@.len() == width * height * 4,
    ensures
        r is Ok <==> png_rgba8(pixels@, width, height) is Some,
        r matches Ok(png) ==> png_rgba8(pixels@, width, height) == Some(png@),
        r matches Ok(png) ==> starts_as_png(png@),
{
    let mut png = Vec::new();
    match PngEncoder::new(&mut png).write_image(pixels, width, height, ExtendedColorType::Rgba8) {
        Ok(()) => Ok(png),
        Err(error) => Err(format!("{error}")),
    }
}

/// The magnitude of `x` (`i32::unsigned_abs`).
pub open spec fn magnitude(x: i32) -> u32 {
    if x < 0 {
        (-(x as int)) as u32
    } else {
        x as u32
    }
}

/// A side length that is accepted.
pub open spec fn side_ok(side: u32) -> bool {
    0 < side <= SHELL_IMAGE_MAX_SIDE
}

/// The size of a Shell bitmap whose header gives `width` and `height` (which
/// may be negative for a top-down bitmap): their magnitudes, when both are 1
/// to [`SHELL_IMAGE_MAX_SIDE`].
pub fn shell_image_size(width: i32, height: i32) -> (r: Result<(u32, u32), String>)
    ensures
        match r {
            Ok((w, h)) => w == magnitude(width) && h == magnitude(height) && side_ok(w) && side_ok(
                h,
            ),
            Err(e) => e@ == INVALID_SHELL_SIZE@ && !(side_ok(magnitude(width)) && side_ok(
                magnitude(height),
            )),
        },
{
    let w: u32 = if width < 0 {
        (-(width as i64)) as u32
    } else {
        width as u32
    };
    let h: u32 = if height < 0 {
        (-(height as i64)) as u32
    } else {
        height as u32
    };
    if w == 0 || h == 0 || w > SHELL_IMAGE_MAX_SIDE || h > SHELL_IMAGE_MAX_SIDE {
        return Err(copy_of(INVALID_SHELL_SIZE));
    }
    Ok((w, h))
}

/// The number of bytes of a 32-bit bitmap of the given size.
pub fn pixel_buffer_len(width: u32, height: u32) -> (n: usize)
    requires
        side_ok(width),
        side_ok(height),
    ensures
        n == width * height * 4,
{
    assert(width * height <= 1024 * 1024) by (nonlinear_arith)
        requires
            width <= 1024,
            height <= 1024,
    ;
    (width as usize) * (height as usize) * 4
}

/// The byte at `i` after the Shell's BGRA pixels are turned into RGBA: the
/// blue and red bytes of each whole pixel swap places, and a pixel whose
/// alpha is zero but whose color is not black becomes opaque. Bytes after
/// the last whole pixel are left as they are.
pub open spec fn rgba_byte(p: Seq<u8>, i: int) -> u8 {
    let whole = p.len() - p.len() % 4;
    if i >= whole {
        p[i]
    } else if i % 4 == 0 {
        p[i + 2]
    } else if i % 4 == 1 {
        p[i]
    } else if i % 4 == 2 {
        p[i - 2]
    } else if p[i] == 0 && (p[i - 3] != 0 || p[i - 2] != 0 || p[i - 1] != 0) {
        255
    } else {
        p[i]
    }
}

/// The pixels after the Shell's BGRA order is turned into RGBA.
pub open spec fn bgra_to_rgba(p: Seq<u8>) -> Seq<u8> {
    Seq::new(p.len(), |i: int| rgba_byte(p, i))
}

/// What happens to each whole pixel `(B, G, R, A)` at byte `4 * k`: it
/// becomes `(R, G, B, A)`, except that a pixel with alpha 0 whose color is
/// not black (any of B, G and R non-zero) becomes opaque, alpha 255; a black
/// pixel with alpha 0 stays transparent, and any other alpha is kept. The
/// length is kept, and so are bytes after the last whole pixel.
pub proof fn law_shell_pixels(p: Seq<u8>, k: int)
    ensures
        bgra_to_rgba(p).len() == p.len(),
        0 <= k && 4 * k + 3 < p.len() ==> {
            let q = bgra_to_rgba(p);
            let (b, g, r, a) = (p[4 * k], p[4 * k + 1], p[4 * k + 2], p[4 * k + 3]);
            &&& q[4 * k] == r
            &&& q[4 * k + 1] == g
            &&& q[4 * k + 2] == b
            &&& (a == 0 && (b != 0 || g != 0 || r != 0) ==> q[4 * k + 3] == 255)
            &&& (a == 0 && b == 0 && g == 0 && r == 0 ==> q[4 * k + 3] == 0)
            &&& (a != 0 ==> q[4 * k + 3] == a)
        },
        p.len() - p.len() % 4 <= k < p.len() ==> bgra_to_rgba(p)[k] == p[k],
{
    if 0 <= k && 4 * k + 3 < p.len() {
        let n = p.len();
        assert((4 * k) % 4 == 0 && (4 * k + 1) % 4 == 1 && (4 * k + 2) % 4 == 2 && (4 * k + 3) % 4
            == 3);
        assert(4 * k + 3 < n - n % 4);
    }
}

/// Turns the Shell's BGRA pixels into RGBA in place.
pub fn convert_shell_pixels(pixels: &mut Vec<u8>)
    ensures
        final(pixels)@ == bgra_to_rgba(old(pixels)@),
{
    let ghost orig = pixels@;
    let n = pixels.len();
    let whole = n - n % 4;
    let mut i: usize = 0;
    while i < whole
        invariant
            whole == orig.len() - orig.len() % 4,
            n == orig.len(),
            pixels@.len() == n,
            i % 4 == 0,
            i <= whole,
            forall|k: int| 0 <= k < i ==> pixels@[k] == rgba_byte(orig, k),
            forall|k: int| i <= k < n ==> pixels@[k] == orig[k],
        decreases whole - i,
    {
        let b = pixels[i];
        let g = pixels[i + 1];
        let r = pixels[i + 2];
        let a = pixels[i + 3];
        pixels.set(i, r);
        pixels.set(i + 2, b);
        if a == 0 && (r != 0 || g != 0 || b != 0) {
            pixels.set(i + 3, 255);
        }
        assert(i as int % 4 == 0 && (i + 1) as int % 4 == 1 && (i + 2) as int % 4 == 2 && (i
            + 3) as int % 4 == 3);
        i = i + 4;
    }
    assert(pixels@ =~= bgra_to_rgba(orig));
}

/// The PNG cached for a Shell bitmap of `width` by `height` pixels in BGRA
/// order: the pixels turned into RGBA and encoded, or the encoder's refusal.
pub fn encode_shell_png(pixels: Vec<u8>, width: u32, height: u32) -> (r: Result<Vec<u8>, String>)
    requires
        pixels@.len() == width * height * 4,
    ensures
        r is Ok <==> png_rgba8(bgra_to_rgba(pixels@), width, height) is Some,
        r matches Ok(png) ==> png_rgba8(bgra_to_rgba(pixels@), width, height) == Some(png@),
        r matches Ok(png) ==> starts_as_png(png@),
        r matches Err(e) ==> has_prefix(e@, PNG_ENCODING_FAILED@),
{
    let mut rgba = pixels;
    convert_shell_pixels(&mut rgba);
    match encode_png(rgba.as_slice(), width, height) {
        Ok(png) => Ok(png),
        Err(error) => {
            let e = joined(PNG_ENCODING_FAILED, error.as_str());
            assert(e@.take(PNG_ENCODING_FAILED@.len() as int) =~= PNG_ENCODING_FAILED@);
            Err(e)
        },
    }
}

} // verus!
