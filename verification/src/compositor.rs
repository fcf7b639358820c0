//! Compositor: blend the foreground estimate over the fixed synthetic
//! backdrop, weighted per pixel by the alpha matte.
//!
//! Alpha and foreground samples are bytes standing for normalized values
//! in `[0, 1]` (byte `b` denotes `b / 255`), while the backdrop constant
//! is given directly in the byte range, so the blend
//! `alpha * foreground * 255 + (1 - alpha) * backdrop` becomes the exact
//! integer expression `(a * f + (255 - a) * bg) / 255`, floored and
//! clamped into the byte range.

use crate::codec::clamp_byte;
use crate::tensor::FrameTensor;
use vstd::arithmetic::div_mod::lemma_div_multiples_vanish;
use vstd::arithmetic::mul::{lemma_mul_inequality, lemma_mul_upper_bound};
use vstd::prelude::*;

verus! {

/// Red channel of the synthetic backdrop composited behind the foreground.
pub const TARGET_BG_R: u8 = 120;

/// Green channel of the synthetic backdrop.
pub const TARGET_BG_G: u8 = 255;

/// Blue channel of the synthetic backdrop.
pub const TARGET_BG_B: u8 = 155;

/// Backdrop value of channel `c` in the byte range.
pub open spec fn target_bg_channel(c: int) -> int {
    if c == 0 {
        120
    } else if c == 1 {
        255
    } else {
        155
    }
}

/// One blended channel: alpha weight `a` (in 255ths) applied to the
/// foreground sample `f`, the rest of the weight to the backdrop value
/// `bg`, floored and clamped into the byte range.
pub open spec fn composited_channel(a: int, f: int, bg: int) -> int {
    clamp_byte((a * f + (255 - a) * bg) / 255)
}

/// The whole composited three-channel plane over `wh` pixels: planar
/// sample `k` (channel `k / wh`, pixel `k % wh`) blends the foreground
/// sample `fg[k]` against the backdrop channel under the matte value of
/// its pixel.
pub open spec fn spec_composite(alpha: Seq<u8>, fg: Seq<u8>, wh: int) -> Seq<u8> {
    Seq::new(
        (3 * wh) as nat,
        |k: int|
            composited_channel(
                alpha[k % wh] as int,
                fg[k] as int,
                target_bg_channel(k / wh),
            ) as u8,
    )
}

/// Blend one channel in executable code.
fn blend_channel(a: u8, f: u8, bg: u8) -> (r: u8)
    ensures
        r as int == composited_channel(a as int, f as int, bg as int),
{
    proof {
        lemma_mul_upper_bound(a as int, 255, f as int, 255);
        lemma_mul_upper_bound(255 - a as int, 255, bg as int, 255);
        vstd::arithmetic::mul::lemma_mul_nonnegative(a as int, f as int);
        vstd::arithmetic::mul::lemma_mul_nonnegative(255 - a as int, bg as int);
    }
    let num: u32 = (a as u32) * (f as u32) + (255 - a as u32) * (bg as u32);
    let q: u32 = num / 255;
    if q > 255 {
        255
    } else {
        q as u8
    }
}

/// Composite the foreground estimate over the synthetic backdrop: the
/// alpha matte (one channel) weights the foreground (three channels)
/// against the fixed backdrop color, pixel by pixel and channel by
/// channel.
pub fn composite(alpha: &FrameTensor, fg: &FrameTensor) -> (out: FrameTensor)
    requires
        alpha.wf(),
        alpha.channels == 1,
        fg.wf(),
        fg.channels == 3,
        alpha.width == fg.width,
        alpha.height == fg.height,
    ensures
        out.wf(),
        out.channels == 3,
        out.width == fg.width,
        out.height == fg.height,
        out.data@ == spec_composite(
            alpha.data@,
            fg.data@,
            fg.width as int * fg.height as int,
        ),
{
    let ghost whi: int = fg.width as int * fg.height as int;
    let total: usize = fg.data.len();
    let wh: usize = alpha.data.len();
    proof {
        vstd::arithmetic::mul::lemma_mul_is_associative(3, fg.width as int, fg.height as int);
        assert(total == 3 * whi);
        assert(wh == whi);
    }
    let mut data: Vec<u8> = Vec::new();
    let mut c: usize = 0;
    while c < 3
        invariant
            alpha.wf(),
            alpha.channels == 1,
            fg.wf(),
            fg.channels == 3,
            alpha.width == fg.width,
            alpha.height == fg.height,
            whi == fg.width as int * fg.height as int,
            wh == whi,
            total == 3 * whi,
            total <= usize::MAX,
            alpha.data@.len() == whi,
            fg.data@.len() == 3 * whi,
            c <= 3,
            data@.len() == c * whi,
            forall|k: int|
                0 <= k < data@.len() ==> data@[k] == composited_channel(
                    alpha.data@[k % whi] as int,
                    fg.data@[k] as int,
                    target_bg_channel(k / whi),
                ) as u8,
        decreases 3 - c,
    {
        let bg: u8 = if c == 0 {
            TARGET_BG_R
        } else if c == 1 {
            TARGET_BG_G
        } else {
            TARGET_BG_B
        };
        let mut p: usize = 0;
        while p < wh
            invariant
                alpha.wf(),
                alpha.channels == 1,
                fg.wf(),
                fg.channels == 3,
                alpha.width == fg.width,
                alpha.height == fg.height,
                whi == fg.width as int * fg.height as int,
                wh == whi,
                total == 3 * whi,
                total <= usize::MAX,
                alpha.data@.len() == whi,
                fg.data@.len() == 3 * whi,
                c < 3,
                bg as int == target_bg_channel(c as int),
                p <= wh,
                data@.len() == c * whi + p,
                forall|k: int|
                    0 <= k < data@.len() ==> data@[k] == composited_channel(
                        alpha.data@[k % whi] as int,
                        fg.data@[k] as int,
                        target_bg_channel(k / whi),
                    ) as u8,
            decreases wh - p,
        {
            proof {
                lemma_mul_inequality(c as int, 2, whi);
                vstd::arithmetic::div_mod::lemma_fundamental_div_mod_converse_div(
                    c as int * whi + p,
                    whi,
                    c as int,
                    p as int,
                );
                vstd::arithmetic::div_mod::lemma_fundamental_div_mod_converse_mod(
                    c as int * whi + p,
                    whi,
                    c as int,
                    p as int,
                );
            }
            let blended = blend_channel(alpha.data[p], fg.data[c * wh + p], bg);
            data.push(blended);
            p = p + 1;
        }
        proof {
            assert((c as int + 1) * whi == c as int * whi + whi) by (nonlinear_arith);
        }
        c = c + 1;
    }
    let out = FrameTensor { data, channels: 3, width: fg.width, height: fg.height };
    proof {
        vstd::arithmetic::mul::lemma_mul_is_associative(3, fg.width as int, fg.height as int);
        assert(out.data@ =~= spec_composite(alpha.data@, fg.data@, whi));
    }
    out
}

/// Law: under an all-opaque matte the composite is exactly the foreground
/// scaled back to the byte range; the backdrop contributes nothing.
pub proof fn lemma_composite_opaque(alpha: Seq<u8>, fg: Seq<u8>, wh: int)
    requires
        wh >= 0,
        alpha.len() == wh,
        fg.len() == 3 * wh,
        forall|p: int| 0 <= p < wh ==> alpha[p] == 255,
    ensures
        spec_composite(alpha, fg, wh) == fg,
{
    let out = spec_composite(alpha, fg, wh);
    assert forall|k: int| 0 <= k < 3 * wh implies out[k] == fg[k] by {
        assert(0 <= k % wh < wh);
        assert(alpha[k % wh] == 255);
        let f = fg[k] as int;
        lemma_div_multiples_vanish(f, 255);
        assert((255 * f + (255 - 255) * target_bg_channel(k / wh)) / 255 == f);
        assert(composited_channel(255, f, target_bg_channel(k / wh)) == f);
    }
    assert(out =~= fg);
}

/// Law: under an all-transparent matte every pixel of the composite is
/// exactly the backdrop color; the foreground contributes nothing.
pub proof fn lemma_composite_transparent(alpha: Seq<u8>, fg: Seq<u8>, wh: int)
    requires
        wh >= 0,
        alpha.len() == wh,
        fg.len() == 3 * wh,
        forall|p: int| 0 <= p < wh ==> alpha[p] == 0,
    ensures
        forall|k: int|
            0 <= k < 3 * wh ==> spec_composite(alpha, fg, wh)[k] == target_bg_channel(
                k / wh,
            ) as u8,
{
    let out = spec_composite(alpha, fg, wh);
    assert forall|k: int| 0 <= k < 3 * wh implies out[k] == target_bg_channel(k / wh) as u8 by {
        assert(0 <= k % wh < wh);
        assert(alpha[k % wh] == 0);
        let bg = target_bg_channel(k / wh);
        lemma_div_multiples_vanish(bg, 255);
        assert((0 * fg[k] + (255 - 0) * bg) / 255 == bg);
        assert(composited_channel(0, fg[k] as int, bg) == bg);
    }
}

} // verus!
