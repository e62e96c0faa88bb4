//! A picture as the text of a plain portable pixmap.

use vstd::prelude::*;
use crate::common::color::rgb_of;
use crate::common::scalar::VertexFormat;
use crate::common::vector::Vec3;
use crate::image::Image;

verus! {

/// The decimal digits of `n`, as characters.
pub open spec fn digits(n: nat) -> Seq<u8>
    decreases n,
{
    if n < 10 {
        seq![(48 + n) as u8]
    } else {
        digits(n / 10).push((48 + n % 10) as u8)
    }
}

/// The three lines before the pixels: the format's name, the picture's width
/// and height, and the largest value of a channel.
pub open spec fn header(width: u32, height: u32) -> Seq<u8> {
    seq![80u8, 51, 10] + digits(width as nat) + seq![32u8] + digits(height as nat) + seq![10u8]
        + seq![50u8, 53, 53, 10]
}

/// One pixel: red, green and blue, with a blank before, between and after.
pub open spec fn pixel_text(rgb: (u8, u8, u8)) -> Seq<u8> {
    seq![32u8] + digits(rgb.0 as nat) + seq![32u8] + digits(rgb.1 as nat) + seq![32u8] + digits(
        rgb.2 as nat,
    ) + seq![32u8]
}

/// The text of the first `n` of `pixels`, in their order. There is none where
/// a channel of one of them does not fit into a byte.
pub open spec fn pixels_text<T: VertexFormat>(pixels: Seq<Vec3<T>>, n: nat) -> Option<Seq<u8>>
    decreases n,
{
    if n == 0 {
        Some(Seq::empty())
    } else {
        match pixels_text(pixels, (n - 1) as nat) {
            Some(text) => match rgb_of(pixels[n - 1]) {
                Some(rgb) => Some(text + pixel_text(rgb)),
                None => None,
            },
            None => None,
        }
    }
}

/// The picture as a plain portable pixmap: the header, then the pixels row
/// by row from the top.
pub open spec fn encoded<T: VertexFormat>(image: Image<T>) -> Option<Seq<u8>> {
    match pixels_text(image@, image@.len()) {
        Some(text) => Some(header(image.columns(), image.rows()) + text),
        None => None,
    }
}

/// A pixel without text leaves the whole picture without text.
pub proof fn lemma_pixels_text_none_persists<T: VertexFormat>(pixels: Seq<Vec3<T>>, n: nat, m: nat)
    requires
        n <= m,
        pixels_text(pixels, n) is None,
    ensures
        pixels_text(pixels, m) is None,
    decreases m - n,
{
    if n < m {
        lemma_pixels_text_none_persists(pixels, n, (m - 1) as nat);
    }
}

/// Appends the decimal digits of `n`.
pub fn push_decimal(out: &mut Vec<u8>, n: u32)
    ensures
        final(out)@ == old(out)@ + digits(n as nat),
    decreases n,
{
    if n >= 10 {
        push_decimal(out, n / 10);
    }
    let digit: u8 = (n % 10) as u8;
    out.push(48 + digit);
    assert(out@ =~= old(out)@ + digits(n as nat));
}

/// Appends the text of one pixel.
pub fn push_pixel(out: &mut Vec<u8>, rgb: (u8, u8, u8))
    ensures
        final(out)@ == old(out)@ + pixel_text(rgb),
{
    out.push(32);
    push_decimal(out, rgb.0 as u32);
    out.push(32);
    push_decimal(out, rgb.1 as u32);
    out.push(32);
    push_decimal(out, rgb.2 as u32);
    out.push(32);
    assert(out@ =~= old(out)@ + pixel_text(rgb));
}

/// The bytes of the picture as a plain portable pixmap. Each channel is
/// written as 255 times its value, cut off towards zero. There is no such
/// text where that does not fit into a byte for some channel of some pixel.
pub fn encode<T: VertexFormat>(image: &Image<T>) -> (r: Option<Vec<u8>>)
    ensures
        match r {
            Some(bytes) => encoded(*image) == Some(bytes@),
            None => encoded(*image) is None,
        },
{
    let mut out: Vec<u8> = Vec::new();
    out.push(80);
    out.push(51);
    out.push(10);
    push_decimal(&mut out, image.width());
    out.push(32);
    push_decimal(&mut out, image.height());
    out.push(10);
    out.push(50);
    out.push(53);
    out.push(53);
    out.push(10);
    assert(out@ =~= header(image.columns(), image.rows()));

    let colors = image.colors();
    let mut i: usize = 0;
    while i < colors.len()
        invariant
            0 <= i <= colors@.len(),
            colors@.len() == image@.len(),
            forall|k: int| 0 <= k < colors@.len() ==> (#[trigger] colors@[k])@ == image@[k],
            pixels_text(image@, i as nat) is Some,
            out@ == header(image.columns(), image.rows()) + pixels_text(image@, i as nat)->0,
        decreases colors@.len() - i,
    {
        match colors[i].to_rgb() {
            Some(rgb) => {
                push_pixel(&mut out, rgb);
                assert(out@ =~= header(image.columns(), image.rows()) + pixels_text(
                    image@,
                    (i + 1) as nat,
                )->0);
            },
            None => {
                proof {
                    assert(pixels_text(image@, (i + 1) as nat) is None);
                    lemma_pixels_text_none_persists(image@, (i + 1) as nat, image@.len());
                }
                return None;
            },
        }
        i = i + 1;
    }
    Some(out)
}

} // verus!
