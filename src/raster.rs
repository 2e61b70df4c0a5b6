use vstd::prelude::*;

verus! {

/// ASCII code of the digit `0`; the other digits follow it.
pub const ZERO: u8 = 48;
/// ASCII space, between the integers of one line.
pub const SPACE: u8 = 32;
/// ASCII line feed, at the end of each line.
pub const NEWLINE: u8 = 10;
/// ASCII `P`, first letter of the format tag.
pub const TAG_LETTER: u8 = 80;

/// The largest channel value, declared in the header.
pub const MAX_CHANNEL: u64 = 255;

/// One quantised pixel: red, green and blue channel values in `0..=255`.
pub type Rgb8 = (u8, u8, u8);

/// The ASCII decimal digits of `n`, most significant first, with no
/// leading zeros (`0` is the single digit `"0"`).
pub open spec fn decimal(n: nat) -> Seq<u8>
    decreases n,
{
    if n < 10 {
        seq![(ZERO + n) as u8]
    } else {
        decimal(n / 10).push((ZERO + n % 10) as u8)
    }
}

/// The three header lines of a plain-text RGB raster: format tag,
/// dimensions and the largest channel value.
pub open spec fn header_text(width: nat, height: nat) -> Seq<u8> {
    seq![TAG_LETTER, (ZERO + 3) as u8, NEWLINE] + decimal(width) + seq![SPACE] + decimal(height)
        + seq![NEWLINE] + decimal(MAX_CHANNEL as nat) + seq![NEWLINE]
}

/// One pixel as a line of three whitespace-separated integers.
pub open spec fn pixel_text(p: Rgb8) -> Seq<u8> {
    decimal(p.0 as nat) + seq![SPACE] + decimal(p.1 as nat) + seq![SPACE] + decimal(p.2 as nat)
        + seq![NEWLINE]
}

/// The pixel lines of `ps`, in the order given.
pub open spec fn pixels_text(ps: Seq<Rgb8>) -> Seq<u8>
    decreases ps.len(),
{
    if ps.len() == 0 {
        seq![]
    } else {
        pixels_text(ps.drop_last()) + pixel_text(ps.last())
    }
}

/// A whole raster: the header, then one line per pixel in row-major order,
/// top row first.
pub open spec fn image_text(width: nat, height: nat, pixels: Seq<Rgb8>) -> Seq<u8> {
    header_text(width, height) + pixels_text(pixels)
}

/// Appends the decimal digits of `n`.
fn push_decimal(out: &mut Vec<u8>, n: u64)
    ensures
        final(out)@ == old(out)@ + decimal(n as nat),
    decreases n,
{
    if n >= 10 {
        push_decimal(out, n / 10);
    }
    let d: u8 = (n % 10) as u8;
    out.push(ZERO + d);
    assert(decimal(n as nat) == if n < 10 {
        seq![(ZERO + n) as u8]
    } else {
        decimal((n / 10) as nat).push((ZERO + n % 10) as u8)
    });
}

/// Appends the header lines for a raster of the given dimensions.
fn push_header(out: &mut Vec<u8>, width: u64, height: u64)
    ensures
        final(out)@ == old(out)@ + header_text(width as nat, height as nat),
{
    let ghost start = out@;
    out.push(TAG_LETTER);
    out.push(ZERO + 3);
    out.push(NEWLINE);
    push_decimal(out, width);
    out.push(SPACE);
    push_decimal(out, height);
    out.push(NEWLINE);
    push_decimal(out, MAX_CHANNEL);
    out.push(NEWLINE);
    assert(out@ =~= start + header_text(width as nat, height as nat));
}

/// Appends the line of one pixel.
fn push_pixel(out: &mut Vec<u8>, p: Rgb8)
    ensures
        final(out)@ == old(out)@ + pixel_text(p),
{
    let ghost start = out@;
    push_decimal(out, p.0 as u64);
    out.push(SPACE);
    push_decimal(out, p.1 as u64);
    out.push(SPACE);
    push_decimal(out, p.2 as u64);
    out.push(NEWLINE);
    assert(out@ =~= start + pixel_text(p));
}

/// Writes a raster of `width` by `height` pixels, given in row-major order,
/// as plain-text RGB.
pub fn encode_ppm(width: u64, height: u64, pixels: &Vec<Rgb8>) -> (r: Vec<u8>)
    requires
        pixels@.len() == width * height,
    ensures
        r@ == image_text(width as nat, height as nat, pixels@),
{
    let mut out: Vec<u8> = Vec::new();
    push_header(&mut out, width, height);
    let ghost head = out@;
    let mut k: usize = 0;
    while k < pixels.len()
        invariant
            k <= pixels@.len(),
            head == header_text(width as nat, height as nat),
            out@ == head + pixels_text(pixels@.subrange(0, k as int)),
        decreases pixels@.len() - k,
    {
        let ghost before = out@;
        push_pixel(&mut out, pixels[k]);
        proof {
            let done = pixels@.subrange(0, k + 1);
            assert(done.drop_last() =~= pixels@.subrange(0, k as int));
            assert(done.last() == pixels@[k as int]);
            assert(out@ =~= head + pixels_text(done));
        }
        k += 1;
    }
    assert(pixels@.subrange(0, pixels@.len() as int) =~= pixels@);
    out
}

} // verus!
