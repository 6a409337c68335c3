use vstd::prelude::*;
use crate::image::ImageSize;

verus! {

/// One output pixel: red, green and blue intensities in `0..=255`.
#[derive(Debug, Clone, Copy, PartialEq, Eq, Structural)]
pub struct Rgb {
    pub r: u8,
    pub g: u8,
    pub b: u8,
}

impl Rgb {
    pub fn new(r: u8, g: u8, b: u8) -> (p: Rgb)
        ensures
            p == (Rgb { r, g, b }),
    {
        Rgb { r, g, b }
    }
}

/// Why an image could not be encoded.
#[derive(Debug, Clone, Copy, PartialEq, Eq, Structural)]
pub enum EncodeError {
    /// The number of pixels handed over is not width times height.
    PixelCountMismatch,
}

/// The ASCII decimal digits of `n`, most significant first, without leading zeros.
pub open spec fn decimal(n: nat) -> Seq<u8>
    decreases n,
{
    if n < 10 {
        seq![(48 + n) as u8]
    } else {
        decimal(n / 10) + seq![(48 + n % 10) as u8]
    }
}

pub open spec fn space() -> Seq<u8> {
    seq![32u8]
}

pub open spec fn newline() -> Seq<u8> {
    seq![10u8]
}

/// `P3\n<width> <height>\n255\n`
pub open spec fn header_text(width: nat, height: nat) -> Seq<u8> {
    seq![80u8, 51u8] + newline() + decimal(width) + space() + decimal(height) + newline()
        + seq![50u8, 53u8, 53u8] + newline()
}

/// `R G B\n`
pub open spec fn pixel_text(p: Rgb) -> Seq<u8> {
    decimal(p.r as nat) + space() + decimal(p.g as nat) + space() + decimal(p.b as nat)
        + newline()
}

/// The lines of all pixels, in the order given.
pub open spec fn pixels_text(ps: Seq<Rgb>) -> Seq<u8>
    decreases ps.len(),
{
    if ps.len() == 0 {
        Seq::empty()
    } else {
        pixels_text(ps.drop_last()) + pixel_text(ps.last())
    }
}

/// Appends the decimal digits of `n`.
pub fn push_decimal(out: &mut Vec<u8>, n: u64)
    ensures
        final(out)@ == old(out)@ + decimal(n as nat),
    decreases n,
{
    if n >= 10 {
        push_decimal(out, n / 10);
    }
    out.push((48 + n % 10) as u8);
    assert(final(out)@ =~= old(out)@ + decimal(n as nat));
}

/// Appends the plain-text image header for `size`.
pub fn push_header(out: &mut Vec<u8>, size: &ImageSize)
    ensures
        final(out)@ == old(out)@ + header_text(size.width as nat, size.height as nat),
{
    out.push(80);
    out.push(51);
    out.push(10);
    push_decimal(out, size.width as u64);
    out.push(32);
    push_decimal(out, size.height as u64);
    out.push(10);
    out.push(50);
    out.push(53);
    out.push(53);
    out.push(10);
    assert(final(out)@ =~= old(out)@ + header_text(size.width as nat, size.height as nat));
}

/// Appends the line of one pixel.
pub fn push_pixel(out: &mut Vec<u8>, p: Rgb)
    ensures
        final(out)@ == old(out)@ + pixel_text(p),
{
    push_decimal(out, p.r as u64);
    out.push(32);
    push_decimal(out, p.g as u64);
    out.push(32);
    push_decimal(out, p.b as u64);
    out.push(10);
    assert(final(out)@ =~= old(out)@ + pixel_text(p));
}

/// The whole image as plain-text RGB: the header, then one line per pixel in the
/// order given, which is the order of `ImageSize::pixel_at`.
pub fn encode_image(size: &ImageSize, pixels: &Vec<Rgb>) -> (r: Result<Vec<u8>, EncodeError>)
    ensures
        pixels@.len() != size.width * size.height ==> r == Err::<Vec<u8>, EncodeError>(
            EncodeError::PixelCountMismatch,
        ),
        pixels@.len() == size.width * size.height ==> (r matches Ok(bytes) && bytes@
            == header_text(size.width as nat, size.height as nat) + pixels_text(pixels@)),
{
    proof {
        let (w, h) = (size.width as int, size.height as int);
        assert(w * h <= u32::MAX * u32::MAX) by (nonlinear_arith)
            requires
                0 <= w <= u32::MAX,
                0 <= h <= u32::MAX,
        ;
    }
    let count: u64 = size.width as u64 * size.height as u64;
    if pixels.len() as u64 != count {
        return Err(EncodeError::PixelCountMismatch);
    }
    let mut out: Vec<u8> = Vec::new();
    push_header(&mut out, size);
    let ghost head = out@;
    let mut k: usize = 0;
    while k < pixels.len()
        invariant
            k <= pixels@.len(),
            head == header_text(size.width as nat, size.height as nat),
            out@ == head + pixels_text(pixels@.subrange(0, k as int)),
        decreases pixels@.len() - k,
    {
        let ghost before = out@;
        push_pixel(&mut out, pixels[k]);
        proof {
            let next = pixels@.subrange(0, k + 1);
            assert(next.drop_last() =~= pixels@.subrange(0, k as int));
            assert(next.last() == pixels@[k as int]);
            assert(out@ =~= head + pixels_text(next));
        }
        k = k + 1;
    }
    assert(pixels@.subrange(0, pixels@.len() as int) =~= pixels@);
    Ok(out)
}

} // verus!
