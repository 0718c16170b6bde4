//! What the captcha images are made into: opaque 8-bit RGB PNG files.
//! Drawing them (anti-aliased glyphs, noise, a wave distortion) is done with
//! floating point outside this crate; this module holds the sizes and the
//! final encoding.

use vstd::prelude::*;

verus! {

#[derive(Clone, Copy, Debug, PartialEq, Eq, Structural)]
pub struct ImageSize {
    pub width: u32,
    pub height: u32,
}

/// The size of a question image: 360 by 110 pixels.
pub const QUESTION_IMAGE_WIDTH: u32 = 360;

pub const QUESTION_IMAGE_HEIGHT: u32 = 110;

/// The size of an answer image: 150 by 110 pixels.
pub const OPTION_IMAGE_WIDTH: u32 = 150;

pub const OPTION_IMAGE_HEIGHT: u32 = 110;

/// The RGB bytes of RGBA pixels: each whole group of four bytes loses its
/// fourth (alpha) byte; a trailing partial group is dropped.
pub open spec fn spec_rgb_of_rgba(rgba: Seq<u8>) -> Seq<u8>
    decreases rgba.len(),
{
    if rgba.len() < 4 {
        Seq::empty()
    } else {
        seq![rgba[0], rgba[1], rgba[2]] + spec_rgb_of_rgba(rgba.subrange(4, rgba.len() as int))
    }
}

proof fn lemma_rgb_of_rgba_extend(rgba: Seq<u8>, k: int)
    requires
        0 <= k,
        4 * k + 4 <= rgba.len(),
    ensures
        spec_rgb_of_rgba(rgba.take(4 * k + 4)) == spec_rgb_of_rgba(rgba.take(4 * k)) + seq![
            rgba[4 * k],
            rgba[4 * k + 1],
            rgba[4 * k + 2],
        ],
    decreases k,
{
    let whole = rgba.take(4 * k + 4);
    if k == 0 {
        assert(whole.subrange(4, whole.len() as int) =~= Seq::<u8>::empty());
        assert(rgba.take(0) =~= Seq::<u8>::empty());
    } else {
        let rest = rgba.subrange(4, rgba.len() as int);
        lemma_rgb_of_rgba_extend(rest, k - 1);
        assert(whole.subrange(4, whole.len() as int) =~= rest.take(4 * (k - 1) + 4));
        let part = rgba.take(4 * k);
        assert(part.subrange(4, part.len() as int) =~= rest.take(4 * (k - 1)));
    }
}

/// Drops the alpha byte of every pixel.
pub fn rgb_of_rgba(rgba: &Vec<u8>) -> (rgb: Vec<u8>)
    ensures
        rgb@ == spec_rgb_of_rgba(rgba@),
{
    let mut rgb: Vec<u8> = Vec::new();
    let mut i: usize = 0;
    let mut at: usize = 0;
    let n = rgba.len();
    let groups = n / 4;
    while i < groups
        invariant
            n == rgba@.len(),
            groups == rgba@.len() / 4,
            i <= groups,
            at == 4 * i,
            rgb@ == spec_rgb_of_rgba(rgba@.take(4 * i as int)),
        decreases groups - i,
    {
        assert(at + 4 <= n);
        let next = at + 4;
        rgb.push(rgba[at]);
        rgb.push(rgba[at + 1]);
        rgb.push(rgba[at + 2]);
        proof {
            lemma_rgb_of_rgba_extend(rgba@, i as int);
        }
        i = i + 1;
        at = next;
        assert(rgb@ =~= spec_rgb_of_rgba(rgba@.take(4 * i as int)));
    }
    proof {
        lemma_rgb_of_rgba_tail(rgba@, groups as nat);
    }
    rgb
}

proof fn lemma_rgb_of_rgba_tail(rgba: Seq<u8>, k: nat)
    requires
        k == rgba.len() / 4,
    ensures
        spec_rgb_of_rgba(rgba.take(4 * k as int)) == spec_rgb_of_rgba(rgba),
    decreases k,
{
    if k == 0 {
        assert(rgba.take(0) =~= Seq::<u8>::empty());
    } else {
        let rest = rgba.subrange(4, rgba.len() as int);
        lemma_rgb_of_rgba_tail(rest, (k - 1) as nat);
        let part = rgba.take(4 * k as int);
        assert(part.subrange(4, part.len() as int) =~= rest.take(4 * (k - 1) as int));
    }
}

/// The PNG file that the `png` crate writes for an 8-bit RGB image of the
/// given size with high compression and adaptive filtering, or `None` when
/// it refuses the data.
pub uninterp spec fn png_rgb8(width: u32, height: u32, rgb: Seq<u8>) -> Option<Seq<u8>>;

/// Calls `png::Encoder` (8-bit RGB, `Compression::High`, `Filter::Adaptive`),
/// writing the header and the image data into a vector. The encoding is a
/// function of the size and the bytes, named `png_rgb8`; an error of the
/// encoder becomes `None`. The data must hold three bytes per pixel: the
/// encoder multiplies the row length by the height unchecked, so a size
/// whose data would not fit in memory overflows there.
#[verifier::external_body]
fn encode_rgb8_png(width: u32, height: u32, rgb: &Vec<u8>) -> (png: Option<Vec<u8>>)
    requires
        3 * width * height == rgb@.len(),
    ensures
        match png {
            Some(bytes) => png_rgb8(width, height, rgb@) == Some(bytes@),
            None => png_rgb8(width, height, rgb@) is None,
        },
{
    let mut png_bytes = Vec::new();
    let mut encoder = png::Encoder::new(&mut png_bytes, width, height);
    encoder.set_color(png::ColorType::Rgb);
    encoder.set_depth(png::BitDepth::Eight);
    encoder.set_compression(png::Compression::High);
    encoder.set_filter(png::Filter::Adaptive);
    let written = encoder.write_header().and_then(|mut writer| writer.write_image_data(rgb));
    written.ok().map(|_| png_bytes)
}

/// An opaque PNG of RGBA pixels: the alpha channel is dropped and the rest
/// encoded as 8-bit RGB. Refused when the remaining bytes are not three per
/// pixel of the size (the encoder's own refusal of such data), or when the
/// encoder refuses the data. The size must be one whose RGB data could be
/// counted in a `usize`, as the encoder's arithmetic needs.
pub fn encode_opaque_png(width: u32, height: u32, rgba: &Vec<u8>) -> (png: Option<Vec<u8>>)
    requires
        3 * width * height <= usize::MAX,
    ensures
        3 * width * height != spec_rgb_of_rgba(rgba@).len() ==> png is None,
        3 * width * height == spec_rgb_of_rgba(rgba@).len() ==> match png {
            Some(bytes) => png_rgb8(width, height, spec_rgb_of_rgba(rgba@)) == Some(bytes@),
            None => png_rgb8(width, height, spec_rgb_of_rgba(rgba@)) is None,
        },
{
    let rgb = rgb_of_rgba(rgba);
    assert(width * height <= 3 * width * height && 3 * (width * height) == 3 * width * height)
        by (nonlinear_arith);
    assert(width as usize * height as usize == width * height) by (nonlinear_arith)
        requires
            width * height <= usize::MAX,
    ;
    let pixels: usize = width as usize * height as usize;
    if 3 * pixels != rgb.len() {
        return None;
    }
    encode_rgb8_png(width, height, &rgb)
}

} // verus!
