//! Rules for the images of captures: when one is scaled down, and pixel rows
//! brought to four bytes a pixel (red, green, blue and alpha, with full alpha
//! where the source has none).

use vstd::prelude::*;

verus! {

/// Full opacity.
pub const OPAQUE: u8 = 255;

/// The bytes of `rgb` with an alpha byte after every third: what stands
/// before the alpha byte of the last pixel that is complete.
pub open spec fn with_alpha_inserted(rgb: Seq<u8>) -> Seq<u8>
    decreases rgb.len(),
{
    if rgb.len() == 0 {
        rgb
    } else if rgb.len() % 3 == 0 {
        with_alpha_inserted(rgb.drop_last()).push(rgb.last()).push(OPAQUE)
    } else {
        with_alpha_inserted(rgb.drop_last()).push(rgb.last())
    }
}

/// Three bytes a pixel made four: every pixel is followed by full alpha, and
/// so are the one or two bytes that may be left over at the end.
pub open spec fn rgb_as_rgba(rgb: Seq<u8>) -> Seq<u8> {
    if rgb.len() % 3 == 0 {
        with_alpha_inserted(rgb)
    } else {
        with_alpha_inserted(rgb).push(OPAQUE)
    }
}

/// One byte a pixel made four: the grey value three times, then full alpha.
pub open spec fn gray_as_rgba(gray: Seq<u8>) -> Seq<u8> {
    Seq::new(
        4 * gray.len(),
        |i: int|
            if i % 4 == 3 {
                OPAQUE
            } else {
                gray[i / 4]
            },
    )
}

/// Two bytes a pixel made four: the grey value three times, then its alpha.
pub open spec fn gray_alpha_as_rgba(pairs: Seq<u8>) -> Seq<u8> {
    Seq::new(
        2 * pairs.len(),
        |i: int|
            if i % 4 == 3 {
                pairs[2 * (i / 4) + 1]
            } else {
                pairs[2 * (i / 4)]
            },
    )
}

/// Adds full alpha to pixels of three bytes.
pub fn rgb_to_rgba(rgb: &[u8]) -> (r: Vec<u8>)
    ensures
        r@ == rgb_as_rgba(rgb@),
{
    let n: usize = rgb.len();
    let mut out: Vec<u8> = Vec::new();
    let mut i: usize = 0;
    proof {
        assert(rgb@.subrange(0, 0) =~= Seq::<u8>::empty());
    }
    while i < n
        invariant
            n == rgb@.len(),
            i <= n,
            out@ == with_alpha_inserted(rgb@.subrange(0, i as int)),
        decreases n - i,
    {
        proof {
            let upto = rgb@.subrange(0, i + 1);
            assert(upto.drop_last() =~= rgb@.subrange(0, i as int));
            assert(upto.last() == rgb@[i as int]);
        }
        out.push(rgb[i]);
        i = i + 1;
        if i % 3 == 0 {
            out.push(OPAQUE);
        }
    }
    proof {
        assert(rgb@.subrange(0, n as int) =~= rgb@);
    }
    if n % 3 != 0 {
        out.push(OPAQUE);
    }
    out
}

/// Makes grey pixels of one byte into pixels of four.
pub fn gray_to_rgba(gray: &[u8]) -> (r: Vec<u8>)
    ensures
        r@ == gray_as_rgba(gray@),
{
    let n: usize = gray.len();
    let mut out: Vec<u8> = Vec::new();
    let mut i: usize = 0;
    while i < n
        invariant
            n == gray@.len(),
            i <= n,
            out@.len() == 4 * i,
            forall|j: int| 0 <= j < 4 * i ==> out@[j] == gray_as_rgba(gray@)[j],
        decreases n - i,
    {
        let g = gray[i];
        out.push(g);
        out.push(g);
        out.push(g);
        out.push(OPAQUE);
        i = i + 1;
    }
    assert(out@ =~= gray_as_rgba(gray@));
    out
}

/// Makes grey pixels of two bytes, value and alpha, into pixels of four.
pub fn gray_alpha_to_rgba(pairs: &[u8]) -> (r: Vec<u8>)
    requires
        pairs@.len() % 2 == 0,
    ensures
        r@ == gray_alpha_as_rgba(pairs@),
{
    let n: usize = pairs.len() / 2;
    let mut out: Vec<u8> = Vec::new();
    let mut i: usize = 0;
    while i < n
        invariant
            2 * n == pairs.len(),
            i <= n,
            out@.len() == 4 * i,
            forall|j: int| 0 <= j < 4 * i ==> out@[j] == gray_alpha_as_rgba(pairs@)[j],
        decreases n - i,
    {
        let g = pairs[2 * i];
        let a = pairs[2 * i + 1];
        out.push(g);
        out.push(g);
        out.push(g);
        out.push(a);
        i = i + 1;
    }
    assert(out@ =~= gray_alpha_as_rgba(pairs@));
    out
}

/// Whether a capture of the given width is scaled down: a limit is set, and
/// the capture is wider. A limit of 0 is no limit.
pub fn needs_resize(max_width: u32, width: u32) -> (r: bool)
    ensures
        r == (max_width > 0 && width > max_width),
{
    max_width > 0 && width > max_width
}

/// Whether an image of the given width is taken to have been scaled down: a
/// limit is set, and the image is exactly as wide.
pub fn was_resized(max_width: u32, width: u32) -> (r: bool)
    ensures
        r == (max_width > 0 && width == max_width),
{
    max_width > 0 && width == max_width
}

} // verus!
