//! Colorspace codec: packed YUYV 4:2:2 byte streams to interleaved RGB
//! byte buffers and back.
//!
//! Both directions are fixed-point integer arithmetic. Decoding uses the
//! BT.601-style coefficients 359, 88, 183 and 454 with a shift by eight
//! bits, written here as a floor division by 256 (identical for every
//! dividend, since an arithmetic right shift floors). Encoding uses the
//! coefficients 0.257, 0.504, 0.098 and friends, held exactly as integer
//! thousandths, so each channel is a floor division by 1000 of an exact
//! integer sum.

use vstd::prelude::*;

verus! {

/// Clamp a working-precision channel value into the byte range.
pub open spec fn clamp_byte(x: int) -> int {
    if x < 0 {
        0
    } else if x > 255 {
        255
    } else {
        x
    }
}

/// Luma of pixel `i` of a packed YUYV stream, scaled to 16-bit working
/// precision: even pixels read byte `4*(i/2)`, odd pixels byte `4*(i/2)+2`.
pub open spec fn yuyv_luma(s: Seq<u8>, i: int) -> int {
    if i % 2 == 0 {
        s[i / 2 * 4] * 256
    } else {
        s[i / 2 * 4 + 2] * 256
    }
}

/// Blue-difference chroma shared by the pixel pair containing pixel `i`,
/// centred on zero.
pub open spec fn yuyv_cb(s: Seq<u8>, i: int) -> int {
    s[i / 2 * 4 + 1] - 128
}

/// Red-difference chroma shared by the pixel pair containing pixel `i`,
/// centred on zero.
pub open spec fn yuyv_cr(s: Seq<u8>, i: int) -> int {
    s[i / 2 * 4 + 3] - 128
}

/// Red channel decoded from scaled luma `y` and centred chroma `v`.
pub open spec fn decoded_r(y: int, v: int) -> int {
    clamp_byte((y + 359 * v) / 256)
}

/// Green channel decoded from scaled luma `y` and centred chroma `u`, `v`.
pub open spec fn decoded_g(y: int, u: int, v: int) -> int {
    clamp_byte((y - 88 * u - 183 * v) / 256)
}

/// Blue channel decoded from scaled luma `y` and centred chroma `u`.
pub open spec fn decoded_b(y: int, u: int) -> int {
    clamp_byte((y + 454 * u) / 256)
}

/// Byte `j` of the RGB buffer decoded from the YUYV stream `s`:
/// channel `j % 3` of pixel `j / 3`.
pub open spec fn rgb_byte_of(s: Seq<u8>, j: int) -> u8 {
    let i = j / 3;
    let y = yuyv_luma(s, i);
    let u = yuyv_cb(s, i);
    let v = yuyv_cr(s, i);
    if j % 3 == 0 {
        decoded_r(y, v) as u8
    } else if j % 3 == 1 {
        decoded_g(y, u, v) as u8
    } else {
        decoded_b(y, u) as u8
    }
}

/// The whole RGB buffer decoded from the YUYV stream `s`: three bytes for
/// every two input bytes.
pub open spec fn spec_yuyv_to_rgb(s: Seq<u8>) -> Seq<u8> {
    Seq::new((s.len() / 2 * 3) as nat, |j: int| rgb_byte_of(s, j))
}

/// Encoded luma of a pixel with channels `r`, `g`, `b`, in thousandths:
/// 0.257 r + 0.504 g + 0.098 b + 16, floored.
pub open spec fn encoded_y(r: int, g: int, b: int) -> int {
    clamp_byte((257 * r + 504 * g + 98 * b + 16000) / 1000)
}

/// Encoded blue-difference chroma: -0.148 r - 0.291 g + 0.439 b + 128, floored.
pub open spec fn encoded_u(r: int, g: int, b: int) -> int {
    clamp_byte((-148 * r - 291 * g + 439 * b + 128000) / 1000)
}

/// Encoded red-difference chroma: 0.439 r - 0.368 g - 0.071 b + 128, floored.
pub open spec fn encoded_v(r: int, g: int, b: int) -> int {
    clamp_byte((439 * r - 368 * g - 71 * b + 128000) / 1000)
}

/// Byte `k` of the YUYV stream encoded from the RGB buffer `s`. Pixel
/// `k / 2` contributes its luma at even `k`; at odd `k` an even pixel
/// contributes the shared U sample and an odd pixel the shared V sample.
pub open spec fn yuyv_byte_of(s: Seq<u8>, k: int) -> u8 {
    let i = k / 2;
    let r = s[3 * i] as int;
    let g = s[3 * i + 1] as int;
    let b = s[3 * i + 2] as int;
    if k % 2 == 0 {
        encoded_y(r, g, b) as u8
    } else if i % 2 == 0 {
        encoded_u(r, g, b) as u8
    } else {
        encoded_v(r, g, b) as u8
    }
}

/// The whole YUYV stream encoded from the RGB buffer `s`: two bytes for
/// every three input bytes.
pub open spec fn spec_rgb_to_yuyv(s: Seq<u8>) -> Seq<u8> {
    Seq::new((s.len() / 3 * 2) as nat, |k: int| yuyv_byte_of(s, k))
}

/// Clamp the floor of `num / 256` into a byte; the decoder's final
/// narrowing step.
fn clamp_shift8(num: i64) -> (r: u8)
    requires
        -16_000_000 <= num <= 16_000_000,
    ensures
        r as int == clamp_byte(num as int / 256),
{
    if num < 0 {
        proof {
            vstd::arithmetic::div_mod::lemma_div_is_ordered(num as int, -1, 256);
        }
        0
    } else {
        let q: i64 = num / 256;
        if q > 255 {
            255
        } else {
            q as u8
        }
    }
}

/// Clamp the floor of `num / 1000` into a byte; the encoder's final
/// narrowing step.
fn clamp_div1000(num: i64) -> (r: u8)
    requires
        0 <= num <= 16_000_000,
    ensures
        r as int == clamp_byte(num as int / 1000),
{
    let q: i64 = num / 1000;
    if q > 255 {
        255
    } else {
        q as u8
    }
}

/// Decode a packed YUYV stream into an interleaved RGB buffer: each group
/// of four input bytes [Y0, U, Y1, V] yields two pixels sharing one chroma
/// pair, and the output holds three bytes per pixel in row-major order.
///
/// The input length must be a multiple of four, i.e. whole pixel pairs;
/// a capture frame of even width times height times two bytes always is.
pub fn yuyv2rgb(yuyv: &[u8]) -> (rgb: Vec<u8>)
    requires
        yuyv.len() % 4 == 0,
    ensures
        rgb@.len() == yuyv@.len() / 2 * 3,
        rgb@ == spec_yuyv_to_rgb(yuyv@),
{
    let pairs: usize = yuyv.len() / 4;
    let mut rgb: Vec<u8> = Vec::new();
    let mut p: usize = 0;
    while p < pairs
        invariant
            yuyv.len() % 4 == 0,
            pairs == yuyv.len() / 4,
            p <= pairs,
            rgb@.len() == 6 * p,
            forall|j: int| 0 <= j < 6 * p ==> rgb@[j] == rgb_byte_of(yuyv@, j),
        decreases pairs - p,
    {
        let pos: usize = p * 4;
        let y0: i64 = (yuyv[pos] as i64) * 256;
        let u: i64 = (yuyv[pos + 1] as i64) - 128;
        let y1: i64 = (yuyv[pos + 2] as i64) * 256;
        let v: i64 = (yuyv[pos + 3] as i64) - 128;
        proof {
            assert(yuyv_luma(yuyv@, 2 * p) == y0);
            assert(yuyv_luma(yuyv@, 2 * p + 1) == y1);
            assert(yuyv_cb(yuyv@, 2 * p) == u);
            assert(yuyv_cr(yuyv@, 2 * p) == v);
            assert(yuyv_cb(yuyv@, 2 * p + 1) == u);
            assert(yuyv_cr(yuyv@, 2 * p + 1) == v);
        }
        rgb.push(clamp_shift8(y0 + 359 * v));
        rgb.push(clamp_shift8(y0 - 88 * u - 183 * v));
        rgb.push(clamp_shift8(y0 + 454 * u));
        rgb.push(clamp_shift8(y1 + 359 * v));
        rgb.push(clamp_shift8(y1 - 88 * u - 183 * v));
        rgb.push(clamp_shift8(y1 + 454 * u));
        proof {
            assert forall|j: int| 6 * p <= j < 6 * (p + 1) implies rgb@[j] == rgb_byte_of(
                yuyv@,
                j,
            ) by {
                assert(j / 3 == 2 * p || j / 3 == 2 * p + 1);
            }
        }
        p = p + 1;
    }
    proof {
        assert(rgb@ =~= spec_yuyv_to_rgb(yuyv@));
    }
    rgb
}

/// Encode an interleaved RGB buffer into a packed YUYV stream: each pixel
/// contributes its luma, and adjacent pixel pairs share one U sample (from
/// the even pixel) and one V sample (from the odd pixel).
///
/// The input length must be a multiple of three, i.e. whole pixels.
pub fn rgb2yuyv(rgb: &[u8]) -> (yuyv: Vec<u8>)
    requires
        rgb.len() % 3 == 0,
    ensures
        yuyv@.len() == rgb@.len() / 3 * 2,
        yuyv@ == spec_rgb_to_yuyv(rgb@),
{
    let pixels: usize = rgb.len() / 3;
    let mut yuyv: Vec<u8> = Vec::new();
    let mut i: usize = 0;
    while i < pixels
        invariant
            rgb.len() % 3 == 0,
            pixels == rgb.len() / 3,
            i <= pixels,
            yuyv@.len() == 2 * i,
            forall|k: int| 0 <= k < 2 * i ==> yuyv@[k] == yuyv_byte_of(rgb@, k),
        decreases pixels - i,
    {
        let r: i64 = rgb[3 * i] as i64;
        let g: i64 = rgb[3 * i + 1] as i64;
        let b: i64 = rgb[3 * i + 2] as i64;
        let y_num: i64 = 257 * r + 504 * g + 98 * b + 16000;
        let u_num: i64 = 128000 + 439 * b - 148 * r - 291 * g;
        let v_num: i64 = 128000 + 439 * r - 368 * g - 71 * b;
        proof {
            assert(u_num == -148 * r - 291 * g + 439 * b + 128000);
            assert(v_num == 439 * r - 368 * g - 71 * b + 128000);
        }
        yuyv.push(clamp_div1000(y_num));
        if i % 2 == 0 {
            yuyv.push(clamp_div1000(u_num));
        } else {
            yuyv.push(clamp_div1000(v_num));
        }
        proof {
            assert forall|k: int| 2 * i <= k < 2 * (i + 1) implies yuyv@[k] == yuyv_byte_of(
                rgb@,
                k,
            ) by {
                assert(k / 2 == i);
            }
        }
        i = i + 1;
    }
    proof {
        assert(yuyv@ =~= spec_rgb_to_yuyv(rgb@));
    }
    yuyv
}

} // verus!
