//! Tensor adapter: between interleaved row-major RGB byte buffers and the
//! planar, channel-first layout handed to the matting model.
//!
//! A [`FrameTensor`] stores one byte per sample in channel-major order:
//! sample `(c, p)` (channel `c` of pixel `p`, pixels counted row-major)
//! sits at index `c * width * height + p`. A stored byte `b` stands for
//! the normalized model value `b / 255`, so the adapter changes only axis
//! order and numeric representation, never the mathematical content.

use vstd::arithmetic::div_mod::{
    lemma_fundamental_div_mod, lemma_fundamental_div_mod_converse_div,
    lemma_fundamental_div_mod_converse_mod,
};
use vstd::arithmetic::mul::lemma_mul_inequality;
use vstd::prelude::*;

verus! {

/// A planar, channel-first image tensor of bytes: the in-memory stand-in
/// for the model's `[1, channels, height, width]` floating tensor, each
/// byte `b` denoting the normalized value `b / 255`.
pub struct FrameTensor {
    /// Samples in channel-major order: channel `c` of row-major pixel `p`
    /// at index `c * width * height + p`.
    pub data: Vec<u8>,
    /// Number of channels: three for color planes, one for an alpha matte.
    pub channels: usize,
    /// Pixel columns per row.
    pub width: usize,
    /// Pixel rows.
    pub height: usize,
}

impl FrameTensor {
    /// The tensor holds exactly one byte per channel per pixel.
    pub open spec fn wf(self) -> bool {
        self.data@.len() == self.channels * self.width * self.height
    }

    /// Pixels per channel plane.
    pub open spec fn plane(self) -> int {
        self.width * self.height
    }

    /// Sample of channel `c` at row-major pixel `p`.
    pub open spec fn at(self, c: int, p: int) -> u8 {
        self.data@[c * self.plane() + p]
    }
}

/// The planar channel-first sequence holding the same samples as the
/// interleaved row-major RGB buffer `rgb` over `wh` pixels: planar index
/// `k` (channel `k / wh`, pixel `k % wh`) reads interleaved byte
/// `(k % wh) * 3 + k / wh`.
pub open spec fn spec_interleaved_to_planar(rgb: Seq<u8>, wh: int) -> Seq<u8> {
    Seq::new((3 * wh) as nat, |k: int| rgb[k % wh * 3 + k / wh])
}

/// The interleaved row-major RGB sequence holding the same samples as the
/// planar channel-first buffer `t` over `wh` pixels: interleaved index `j`
/// (pixel `j / 3`, channel `j % 3`) reads planar byte `(j % 3) * wh + j / 3`.
pub open spec fn spec_planar_to_interleaved(t: Seq<u8>, wh: int) -> Seq<u8> {
    Seq::new((3 * wh) as nat, |j: int| t[j % 3 * wh + j / 3])
}

/// Reorder an interleaved row-major RGB buffer into a fresh three-channel
/// planar tensor; the numeric content is untouched.
pub fn to_tensor(rgb: &[u8], width: usize, height: usize) -> (t: FrameTensor)
    requires
        rgb.len() == 3 * (width * height),
    ensures
        t.wf(),
        t.channels == 3,
        t.width == width,
        t.height == height,
        t.data@ == spec_interleaved_to_planar(rgb@, width as int * height as int),
{
    let wh: usize = rgb.len() / 3;
    proof {
        vstd::arithmetic::div_mod::lemma_div_multiples_vanish(
            width as int * height as int,
            3,
        );
        assert(wh == width * height);
    }
    let ghost whi: int = width as int * height as int;
    let mut data: Vec<u8> = Vec::new();
    let mut c: usize = 0;
    while c < 3
        invariant
            rgb.len() == 3 * (width as int * height as int),
            wh == width * height,
            whi == width as int * height as int,
            c <= 3,
            data@.len() == c * whi,
            forall|k: int| 0 <= k < data@.len() ==> data@[k] == rgb@[k % whi * 3 + k / whi],
        decreases 3 - c,
    {
        let mut p: usize = 0;
        while p < wh
            invariant
                rgb.len() == 3 * (width as int * height as int),
                wh == width * height,
                whi == width as int * height as int,
                c < 3,
                p <= wh,
                data@.len() == c * whi + p,
                forall|k: int| 0 <= k < data@.len() ==> data@[k] == rgb@[k % whi * 3 + k / whi],
            decreases wh - p,
        {
            proof {
                lemma_mul_inequality(c as int, 2, whi);
                lemma_fundamental_div_mod_converse_div(
                    c as int * whi + p,
                    whi,
                    c as int,
                    p as int,
                );
                lemma_fundamental_div_mod_converse_mod(
                    c as int * whi + p,
                    whi,
                    c as int,
                    p as int,
                );
            }
            data.push(rgb[p * 3 + c]);
            p = p + 1;
        }
        proof {
            assert((c as int + 1) * whi == c as int * whi + whi) by (nonlinear_arith);
        }
        c = c + 1;
    }
    let t = FrameTensor { data, channels: 3, width, height };
    proof {
        vstd::arithmetic::mul::lemma_mul_is_associative(3, width as int, height as int);
        assert(t.data@ =~= spec_interleaved_to_planar(rgb@, whi));
    }
    t
}

/// Reorder a three-channel planar tensor back into an interleaved
/// row-major RGB buffer; the inverse of [`to_tensor`].
pub fn from_tensor(t: &FrameTensor, width: usize, height: usize) -> (rgb: Vec<u8>)
    requires
        t.wf(),
        t.channels == 3,
        t.width == width,
        t.height == height,
    ensures
        rgb@.len() == 3 * (width as int * height as int),
        rgb@ == spec_planar_to_interleaved(t.data@, width as int * height as int),
{
    let ghost whi: int = width as int * height as int;
    let total: usize = t.data.len();
    proof {
        vstd::arithmetic::mul::lemma_mul_is_associative(3, width as int, height as int);
        vstd::arithmetic::mul::lemma_mul_nonnegative(width as int, height as int);
        assert(total == 3 * whi);
    }
    let wh: usize = t.width * t.height;
    let mut rgb: Vec<u8> = Vec::new();
    let mut p: usize = 0;
    while p < wh
        invariant
            t.wf(),
            t.channels == 3,
            t.width == width,
            t.height == height,
            wh == width * height,
            whi == width as int * height as int,
            0 <= whi,
            3 * whi <= usize::MAX,
            t.data@.len() == 3 * whi,
            p <= wh,
            rgb@.len() == 3 * p,
            forall|j: int| 0 <= j < rgb@.len() ==> rgb@[j] == t.data@[j % 3 * whi + j / 3],
        decreases wh - p,
    {
        let mut c: usize = 0;
        while c < 3
            invariant
                t.wf(),
                t.channels == 3,
                t.width == width,
                t.height == height,
                wh == width * height,
                whi == width as int * height as int,
                0 <= whi,
                3 * whi <= usize::MAX,
                t.data@.len() == 3 * whi,
                p < wh,
                c <= 3,
                rgb@.len() == 3 * p + c,
                forall|j: int| 0 <= j < rgb@.len() ==> rgb@[j] == t.data@[j % 3 * whi + j / 3],
            decreases 3 - c,
        {
            proof {
                lemma_mul_inequality(c as int, 2, whi);
                lemma_fundamental_div_mod_converse_div(3 * p + c, 3, p as int, c as int);
                lemma_fundamental_div_mod_converse_mod(3 * p + c, 3, p as int, c as int);
            }
            rgb.push(t.data[c * wh + p]);
            c = c + 1;
        }
        p = p + 1;
    }
    proof {
        assert(rgb@ =~= spec_planar_to_interleaved(t.data@, whi));
    }
    rgb
}

/// Decode one captured YUYV frame and reorder it into the planar
/// three-channel tensor handed to the matting model.
pub fn decode_to_tensor(yuyv: &[u8], width: usize, height: usize) -> (t: FrameTensor)
    requires
        yuyv.len() == 2 * (width as int * height as int),
        yuyv.len() % 4 == 0,
    ensures
        t.wf(),
        t.channels == 3,
        t.width == width,
        t.height == height,
        t.data@ == spec_interleaved_to_planar(
            crate::codec::spec_yuyv_to_rgb(yuyv@),
            width as int * height as int,
        ),
{
    let rgb = crate::codec::yuyv2rgb(yuyv);
    proof {
        vstd::arithmetic::div_mod::lemma_div_multiples_vanish(
            width as int * height as int,
            2,
        );
        assert(rgb@.len() == 3 * (width as int * height as int));
    }
    to_tensor(rgb.as_slice(), width, height)
}

/// Reorder a planar three-channel tensor back into an interleaved RGB
/// buffer and encode it as one packed YUYV output frame.
pub fn to_yuyv_vec(t: &FrameTensor, width: usize, height: usize) -> (yuyv: Vec<u8>)
    requires
        t.wf(),
        t.channels == 3,
        t.width == width,
        t.height == height,
    ensures
        yuyv@.len() == 2 * (width as int * height as int),
        yuyv@ == crate::codec::spec_rgb_to_yuyv(
            spec_planar_to_interleaved(t.data@, width as int * height as int),
        ),
{
    let ghost whi: int = width as int * height as int;
    let rgb = from_tensor(t, width, height);
    proof {
        assert(3 * whi == whi * 3);
        vstd::arithmetic::div_mod::lemma_mod_multiples_basic(whi, 3);
        vstd::arithmetic::div_mod::lemma_div_multiples_vanish(whi, 3);
        assert(rgb@.len() % 3 == 0);
        assert(rgb@.len() / 3 == whi);
    }
    crate::codec::rgb2yuyv(rgb.as_slice())
}

/// The adapter round-trips exactly: reordering an interleaved RGB buffer
/// into the planar layout and back reproduces the buffer byte for byte.
pub proof fn lemma_tensor_round_trip(rgb: Seq<u8>, wh: int)
    requires
        wh >= 0,
        rgb.len() == 3 * wh,
    ensures
        spec_planar_to_interleaved(spec_interleaved_to_planar(rgb, wh), wh) == rgb,
{
    let planar = spec_interleaved_to_planar(rgb, wh);
    let back = spec_planar_to_interleaved(planar, wh);
    assert forall|j: int| 0 <= j < 3 * wh implies back[j] == rgb[j] by {
        lemma_fundamental_div_mod(j, 3);
        assert(0 <= j % 3 < 3);
        assert(0 <= j / 3 < wh) by {
            lemma_fundamental_div_mod(j, 3);
        }
        let k = j % 3 * wh + j / 3;
        lemma_mul_inequality(j % 3, 2, wh);
        assert(0 <= k < 3 * wh);
        lemma_fundamental_div_mod_converse_div(k, wh, j % 3, j / 3);
        lemma_fundamental_div_mod_converse_mod(k, wh, j % 3, j / 3);
        assert(planar[k] == rgb[k % wh * 3 + k / wh]);
        assert(k % wh * 3 + k / wh == j / 3 * 3 + j % 3);
        assert(j / 3 * 3 + j % 3 == j) by {
            lemma_fundamental_div_mod(j, 3);
        }
    }
    assert(back =~= rgb);
}

} // verus!
