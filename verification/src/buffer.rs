//! The pixel buffer of a solid-color image: the byte sequence that an image
//! encoder consumes, `width * height` RGB triplets, every triplet the same
//! color.

use crate::color::Color;
use vstd::prelude::*;

verus! {

/// The channel stored at byte position `k` of an RGB buffer: red, green and
/// blue repeat with period three.
pub open spec fn channel_at(c: Color, k: int) -> u8 {
    if k % 3 == 0 {
        c.red
    } else if k % 3 == 1 {
        c.green
    } else {
        c.blue
    }
}

/// The pixel buffer of a `width` by `height` image whose every pixel is the
/// color `c`: `width * height * 3` bytes, the RGB triplet repeated.
pub open spec fn solid_buffer(width: nat, height: nat, c: Color) -> Seq<u8> {
    Seq::new(width * height * 3, |k: int| channel_at(c, k))
}

/// The buffer of a `width` by `height` image fits in memory: its byte count
/// does not exceed `usize::MAX`.
pub open spec fn buffer_fits(width: nat, height: nat) -> bool {
    width * height * 3 <= usize::MAX
}

/// Every pixel of the solid buffer is the one color: the triplet at each
/// pixel position `p` reads exactly red, green, blue.
pub proof fn lemma_solid_buffer_pixels(width: nat, height: nat, c: Color, p: int)
    requires
        0 <= p < width * height,
    ensures
        solid_buffer(width, height, c).len() == width * height * 3,
        solid_buffer(width, height, c)[3 * p] == c.red,
        solid_buffer(width, height, c)[3 * p + 1] == c.green,
        solid_buffer(width, height, c)[3 * p + 2] == c.blue,
{
    let q = (width * height) as int;
    assert(3 * p + 2 < 3 * q);
    assert((3 * p) % 3 == 0 && (3 * p + 1) % 3 == 1 && (3 * p + 2) % 3 == 2) by (nonlinear_arith)
        requires
            p >= 0,
    ;
}

/// Build the pixel buffer of a `width` by `height` image whose every pixel is
/// the color `c`. The only refusal is a buffer too large to address: the
/// byte count `width * height * 3` exceeding `usize::MAX`.
pub fn build_buffer(width: u32, height: u32, c: Color) -> (r: Option<Vec<u8>>)
    ensures
        r is Some <==> buffer_fits(width as nat, height as nat),
        r matches Some(buf) ==> buf@ == solid_buffer(width as nat, height as nat, c),
{
    proof {
        assert((width as int) * (height as int) <= 0xffff_ffff * 0xffff_ffff) by (nonlinear_arith)
            requires
                width as int <= 0xffff_ffff && height as int <= 0xffff_ffff,
        ;
    }
    let wh = (width as u64) * (height as u64);
    let limit: u64 = usize::MAX as u64 / 3;
    if wh > limit {
        return None;
    }
    let cap: usize = (wh as usize) * 3;
    let mut buf: Vec<u8> = Vec::with_capacity(cap);
    let mut i: usize = 0;
    while i < cap
        invariant
            cap == width as nat * height as nat * 3,
            0 <= i <= cap,
            buf@.len() == i,
            forall|j: int| 0 <= j < i ==> buf@[j] == channel_at(c, j),
        decreases cap - i,
    {
        let k = i % 3;
        let byte = if k == 0 {
            c.red
        } else if k == 1 {
            c.green
        } else {
            c.blue
        };
        buf.push(byte);
        i = i + 1;
    }
    proof {
        assert(buf@ =~= solid_buffer(width as nat, height as nat, c));
    }
    Some(buf)
}

} // verus!
