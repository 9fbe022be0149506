//! The transform of a single pixel and of a buffer of pixels.

use vstd::prelude::*;

verus! {

/// A colour channel weighted by an alpha value: `channel * alpha / 255`,
/// rounded towards zero.
pub open spec fn scaled(channel: u8, alpha: u8) -> u8 {
    (channel as int * alpha as int / 255) as u8
}

/// The weighted channel is the quotient itself (the narrowing loses nothing),
/// and it exceeds neither the channel nor the alpha value.
pub proof fn lemma_scaled_bounds(channel: u8, alpha: u8)
    ensures
        scaled(channel, alpha) as int == channel as int * alpha as int / 255,
        scaled(channel, alpha) <= channel,
        scaled(channel, alpha) <= alpha,
{
    let c = channel as int;
    let a = alpha as int;
    assert(0 <= c * a <= c * 255 && c * a <= 255 * a) by (nonlinear_arith)
        requires
            0 <= c <= 255,
            0 <= a <= 255,
    ;
}

/// Weights `channel` by `alpha`, in 16-bit arithmetic.
pub fn scale(channel: u8, alpha: u8) -> (out: u8)
    ensures
        out == scaled(channel, alpha),
{
    proof {
        lemma_scaled_bounds(channel, alpha);
        assert(channel as int * alpha as int <= 255 * 255) by (nonlinear_arith)
            requires
                0 <= channel as int <= 255,
                0 <= alpha as int <= 255,
        ;
    }
    let wide: u16 = channel as u16 * alpha as u16;
    (wide / 255) as u8
}

/// One pixel: red, green, blue and alpha, eight bits each.
#[derive(Clone, Copy, Debug, PartialEq, Eq, Structural)]
pub struct Pixel {
    pub r: u8,
    pub g: u8,
    pub b: u8,
    pub a: u8,
}

impl Pixel {
    /// The crushed pixel: red and blue exchanged, the three colour channels
    /// weighted by alpha, alpha itself kept.
    pub open spec fn crushed(self) -> Pixel {
        Pixel {
            r: scaled(self.b, self.a),
            g: scaled(self.g, self.a),
            b: scaled(self.r, self.a),
            a: self.a,
        }
    }

    /// The channel at position `c` of the pixel's four bytes.
    pub open spec fn channel(self, c: int) -> u8 {
        if c == 0 {
            self.r
        } else if c == 1 {
            self.g
        } else if c == 2 {
            self.b
        } else {
            self.a
        }
    }

    /// Crushes the pixel.
    pub fn crush(self) -> (out: Pixel)
        ensures
            out == self.crushed(),
    {
        Pixel {
            r: scale(self.b, self.a),
            g: scale(self.g, self.a),
            b: scale(self.r, self.a),
            a: self.a,
        }
    }
}

/// The pixel that occupies bytes `4 * k` to `4 * k + 3` of `data`.
pub open spec fn pixel_at(data: Seq<u8>, k: int) -> Pixel {
    Pixel { r: data[4 * k], g: data[4 * k + 1], b: data[4 * k + 2], a: data[4 * k + 3] }
}

/// The crushed buffer: every whole group of four bytes is replaced by its
/// crushed pixel; up to three bytes beyond the last whole group stay as
/// they are.
pub open spec fn crushed_bytes(data: Seq<u8>) -> Seq<u8> {
    Seq::new(
        data.len(),
        |i: int|
            if i / 4 < data.len() / 4 {
                pixel_at(data, i / 4).crushed().channel(i % 4)
            } else {
                data[i]
            },
    )
}

/// Crushes a buffer of pixels in place, pixel by pixel.
pub fn crush_bytes(data: &mut Vec<u8>)
    ensures
        final(data)@ == crushed_bytes(old(data)@),
{
    let pixels: usize = data.len() / 4;
    let mut k: usize = 0;
    while k < pixels
        invariant
            pixels == old(data)@.len() / 4,
            old(data)@.len() <= usize::MAX,
            k <= pixels,
            data@.len() == old(data)@.len(),
            forall|i: int| 0 <= i < 4 * k ==> data@[i] == crushed_bytes(old(data)@)[i],
            forall|i: int| 4 * k <= i < data@.len() ==> data@[i] == old(data)@[i],
        decreases pixels - k,
    {
        let base: usize = 4 * k;
        let pixel = Pixel {
            r: data[base],
            g: data[base + 1],
            b: data[base + 2],
            a: data[base + 3],
        };
        let out = pixel.crush();
        data[base] = out.r;
        data[base + 1] = out.g;
        data[base + 2] = out.b;
        k += 1;
    }
    assert(data@ =~= crushed_bytes(old(data)@));
}

/// A pixel of a crushed buffer is the crushed pixel of the buffer it came
/// from, whatever the other pixels hold.
pub proof fn lemma_crushed_pixel_at(data: Seq<u8>, k: int)
    requires
        0 <= k < data.len() / 4,
    ensures
        pixel_at(crushed_bytes(data), k) == pixel_at(data, k).crushed(),
{
    let out = crushed_bytes(data);
    assert(out[4 * k] == pixel_at(data, (4 * k) / 4).crushed().channel((4 * k) % 4));
    assert(out[4 * k + 1] == pixel_at(data, (4 * k + 1) / 4).crushed().channel((4 * k + 1) % 4));
    assert(out[4 * k + 2] == pixel_at(data, (4 * k + 2) / 4).crushed().channel((4 * k + 2) % 4));
    assert(out[4 * k + 3] == pixel_at(data, (4 * k + 3) / 4).crushed().channel((4 * k + 3) % 4));
}

/// A fully transparent pixel is crushed to four zero bytes.
pub proof fn lemma_crushed_transparent(p: Pixel)
    requires
        p.a == 0,
    ensures
        p.crushed() == (Pixel { r: 0, g: 0, b: 0, a: 0 }),
{
}

/// A fully opaque pixel only has red and blue exchanged: no colour is lost.
pub proof fn lemma_crushed_opaque(p: Pixel)
    requires
        p.a == 255,
    ensures
        p.crushed() == (Pixel { r: p.b, g: p.g, b: p.r, a: 255 }),
{
}

/// Weighting by an alpha value below 255 makes a channel smaller, unless it
/// is zero already.
pub proof fn lemma_scaled_shrinks(channel: u8, alpha: u8)
    requires
        alpha < 255,
        channel > 0,
    ensures
        scaled(channel, alpha) < channel,
{
    let c = channel as int;
    let a = alpha as int;
    assert(0 <= c * a <= c * 254) by (nonlinear_arith)
        requires
            0 < c <= 255,
            0 <= a <= 254,
    ;
}

/// Crushing is not idempotent. A pixel is left as it is by crushing exactly
/// when its colour channels are all zero, or when it is opaque with equal
/// red and blue; crushing any other pixel changes it, so a second crush of
/// an image changes what the first one produced.
pub proof fn lemma_crush_fixed_points(p: Pixel)
    ensures
        p.crushed() == p <==> (p.r == 0 && p.g == 0 && p.b == 0) || (p.a == 255 && p.r == p.b),
{
    lemma_scaled_bounds(p.r, p.a);
    lemma_scaled_bounds(p.g, p.a);
    lemma_scaled_bounds(p.b, p.a);
    if p.a < 255 {
        if p.g > 0 {
            lemma_scaled_shrinks(p.g, p.a);
        }
        if p.r > 0 {
            lemma_scaled_shrinks(p.r, p.a);
        }
        if p.b > 0 {
            lemma_scaled_shrinks(p.b, p.a);
        }
    } else {
        lemma_crushed_opaque(p);
    }
}

/// A second crush of a buffer differs from the first as soon as one pixel of
/// the first is not a fixed point of crushing.
pub proof fn lemma_crush_bytes_not_idempotent(data: Seq<u8>, k: int)
    requires
        0 <= k < data.len() / 4,
        pixel_at(data, k).crushed().crushed() != pixel_at(data, k).crushed(),
    ensures
        crushed_bytes(crushed_bytes(data)) != crushed_bytes(data),
{
    lemma_crushed_pixel_at(data, k);
    lemma_crushed_pixel_at(crushed_bytes(data), k);
}

} // verus!
