use vstd::prelude::*;
use crate::image::{Image, ImageModel, Rgb8};

verus! {

/// ASCII codes of the characters the format uses.
pub const ZERO: u8 = 48;
pub const SPACE: u8 = 32;
pub const NEWLINE: u8 = 10;
pub const LETTER_P: u8 = 80;
pub const THREE: u8 = 51;
pub const TWO: u8 = 50;
pub const FIVE: u8 = 53;

/// The ASCII decimal digits of `n`, most significant first, without leading
/// zeros.
pub open spec fn decimal(n: nat) -> Seq<u8>
    decreases n,
{
    if n < 10 {
        seq![(ZERO + n) as u8]
    } else {
        decimal(n / 10) + seq![(ZERO + n % 10) as u8]
    }
}

/// The header of a plain-text PPM picture: `P3`, the size, and the largest
/// channel value 255, each on a line of its own.
pub open spec fn ppm_header(width: nat, height: nat) -> Seq<u8> {
    seq![LETTER_P, THREE, NEWLINE] + decimal(width) + seq![SPACE] + decimal(height) + seq![NEWLINE, TWO, FIVE, FIVE, NEWLINE]
}

/// One pixel as a line `R G B`.
pub open spec fn pixel_line(p: Rgb8) -> Seq<u8> {
    decimal(p.r as nat) + seq![SPACE] + decimal(p.g as nat) + seq![SPACE] + decimal(p.b as nat) + seq![NEWLINE]
}

/// One line per pixel, in the order given.
pub open spec fn pixel_lines(pixels: Seq<Rgb8>) -> Seq<u8>
    decreases pixels.len(),
{
    if pixels.len() == 0 {
        Seq::empty()
    } else {
        pixel_lines(pixels.drop_last()) + pixel_line(pixels.last())
    }
}

/// The whole plain-text PPM file of an image.
pub open spec fn ppm(image: ImageModel) -> Seq<u8> {
    ppm_header(image.width, image.height) + pixel_lines(image.pixels)
}

/// Appends the decimal digits of `n`.
pub fn push_decimal(out: &mut Vec<u8>, n: u64)
    ensures
        final(out)@ == old(out)@ + decimal(n as nat),
    decreases n,
{
    if n >= 10 {
        push_decimal(out, n / 10);
    }
    let d: u8 = (n % 10) as u8;
    out.push(ZERO + d);
    assert(final(out)@ =~= old(out)@ + decimal(n as nat));
}

/// Appends the line `R G B` of one pixel.
pub fn push_pixel_line(out: &mut Vec<u8>, p: Rgb8)
    ensures
        final(out)@ == old(out)@ + pixel_line(p),
{
    push_decimal(out, p.r as u64);
    out.push(SPACE);
    push_decimal(out, p.g as u64);
    out.push(SPACE);
    push_decimal(out, p.b as u64);
    out.push(NEWLINE);
    assert(final(out)@ =~= old(out)@ + pixel_line(p));
}

/// Serialises an image as a plain-text PPM file: the header, then one line
/// per pixel in row-major order, top row first.
pub fn encode_ppm(image: &Image) -> (r: Vec<u8>)
    ensures
        r@ == ppm(image@),
{
    let mut out: Vec<u8> = Vec::new();
    out.push(LETTER_P);
    out.push(THREE);
    out.push(NEWLINE);
    push_decimal(&mut out, image.width() as u64);
    out.push(SPACE);
    push_decimal(&mut out, image.height() as u64);
    out.push(NEWLINE);
    out.push(TWO);
    out.push(FIVE);
    out.push(FIVE);
    out.push(NEWLINE);
    assert(out@ =~= ppm_header(image@.width, image@.height));
    let pixels = image.pixels();
    let mut i: usize = 0;
    while i < pixels.len()
        invariant
            i <= pixels@.len(),
            pixels@ == image@.pixels,
            out@ == ppm_header(image@.width, image@.height) + pixel_lines(pixels@.subrange(0, i as int)),
        decreases pixels@.len() - i,
    {
        push_pixel_line(&mut out, pixels[i]);
        assert(pixels@.subrange(0, i + 1).drop_last() =~= pixels@.subrange(0, i as int));
        i = i + 1;
        assert(out@ =~= ppm_header(image@.width, image@.height) + pixel_lines(pixels@.subrange(0, i as int)));
    }
    assert(pixels@.subrange(0, pixels@.len() as int) =~= pixels@);
    out
}

} // verus!
