//! Immutable HSV color value with exact rational channels.
//!
//! Each channel (hue, saturation, value) is a fraction `num / den` in the
//! unit interval, kept exact so that the conversions to and from 8-bit RGB
//! can be specified and proved precisely. Producers keep every channel in
//! `[0, 1]`; hue may be exactly 1, which renders the same as hue 0.

use vstd::prelude::*;
use vstd::string::StringExecFns;
use vstd::arithmetic::div_mod::lemma_fundamental_div_mod_converse;
use vstd::arithmetic::div_mod::lemma_div_denominator;
use vstd::arithmetic::div_mod::lemma_div_is_ordered;
use vstd::arithmetic::div_mod::lemma_div_pos_is_pos;
use vstd::arithmetic::div_mod::lemma_multiply_divide_lt;
use vstd::arithmetic::div_mod::lemma_mod_division_less_than_divisor;
use vstd::arithmetic::div_mod::lemma_mod_bound;
use vstd::arithmetic::div_mod::lemma_div_of0;

verus! {

/// An exact fraction `num / den`, used for a color channel in `[0, 1]`.
#[derive(Clone, Copy, Debug, PartialEq, Eq, Structural)]
pub struct Frac {
    pub num: u32,
    pub den: u32,
}

/// A channel fraction is well formed when it lies in `[0, 1]` and its
/// denominator is positive.
pub open spec fn frac_wf(f: Frac) -> bool {
    1 <= f.den && f.num <= f.den
}

impl Frac {
    /// The fraction `num / den`; the caller keeps it inside the unit interval.
    pub fn new(num: u32, den: u32) -> (r: Frac)
        requires
            1 <= den,
            num <= den,
        ensures
            r == (Frac { num, den }),
            frac_wf(r),
    {
        Frac { num, den }
    }

    /// The fraction 0.
    pub fn zero() -> (r: Frac)
        ensures
            r == (Frac { num: 0u32, den: 1u32 }),
            frac_wf(r),
    {
        Frac { num: 0, den: 1 }
    }

    /// The fraction 1.
    pub fn one() -> (r: Frac)
        ensures
            r == (Frac { num: 1u32, den: 1u32 }),
            frac_wf(r),
    {
        Frac { num: 1, den: 1 }
    }
}

/// Immutable HSV color; every mutator returns a new value.
#[derive(Clone, Copy, Debug, PartialEq, Eq, Structural)]
pub struct Color {
    pub hue: Frac,
    pub saturation: Frac,
    pub value: Frac,
}

/// All three channels lie in `[0, 1]`.
pub open spec fn color_wf(c: Color) -> bool {
    frac_wf(c.hue) && frac_wf(c.saturation) && frac_wf(c.value)
}

impl Color {
    /// A copy with the hue replaced; no clamping, the caller keeps the
    /// channel inside `[0, 1]`.
    pub fn update_hue(&self, hue: Frac) -> (r: Color)
        ensures
            r == (Color { hue, saturation: self.saturation, value: self.value }),
    {
        Color { hue, saturation: self.saturation, value: self.value }
    }

    /// A copy with the saturation replaced; no clamping.
    pub fn update_saturation(&self, saturation: Frac) -> (r: Color)
        ensures
            r == (Color { hue: self.hue, saturation, value: self.value }),
    {
        Color { saturation, hue: self.hue, value: self.value }
    }

    /// A copy with the value replaced; no clamping.
    pub fn update_value(&self, value: Frac) -> (r: Color)
        ensures
            r == (Color { hue: self.hue, saturation: self.saturation, value }),
    {
        Color { value, saturation: self.saturation, hue: self.hue }
    }

    /// A color from the three HSV channels.
    pub fn from_hsv(hue: Frac, saturation: Frac, value: Frac) -> (r: Color)
        ensures
            r == (Color { hue, saturation, value }),
    {
        Color { hue, saturation, value }
    }
}

/// Which of the six sectors of the hue circle the hue falls in; hue exactly
/// 1 wraps around to sector 0 so that it renders the same as hue 0.
pub open spec fn sector_index(h: Frac) -> int {
    if h.num == h.den {
        0
    } else {
        6 * (h.num as int) / (h.den as int)
    }
}

/// The fractional position inside the sector, as a numerator over `h.den`.
pub open spec fn sector_offset(h: Frac) -> int {
    if h.num == h.den {
        0
    } else {
        6 * (h.num as int) % (h.den as int)
    }
}

/// The value channel scaled to `0..=255` and rounded down.
pub open spec fn chan_v(v: Frac) -> int {
    255 * (v.num as int) / (v.den as int)
}

/// `value * (1 - saturation)`, scaled to `0..=255` and rounded down.
pub open spec fn chan_p(s: Frac, v: Frac) -> int {
    255 * (v.num as int) * ((s.den as int) - (s.num as int)) / ((v.den as int) * (s.den as int))
}

/// `value * (1 - f * saturation)` where `f` is the fractional sector
/// position, scaled to `0..=255` and rounded down.
pub open spec fn chan_q(h: Frac, s: Frac, v: Frac) -> int {
    255 * (v.num as int) * ((h.den as int) * (s.den as int) - sector_offset(h) * (s.num as int))
        / ((v.den as int) * (h.den as int) * (s.den as int))
}

/// `value * (1 - (1 - f) * saturation)` where `f` is the fractional sector
/// position, scaled to `0..=255` and rounded down.
pub open spec fn chan_t(h: Frac, s: Frac, v: Frac) -> int {
    255 * (v.num as int) * ((h.den as int) * (s.den as int) - ((h.den as int) - sector_offset(h))
        * (s.num as int)) / ((v.den as int) * (h.den as int) * (s.den as int))
}

/// The exact RGB triple, each channel in `0..=255`, that the six-sector
/// HSV-to-RGB conversion produces for this color.
pub open spec fn rgb_spec(c: Color) -> (int, int, int) {
    let v = chan_v(c.value);
    let p = chan_p(c.saturation, c.value);
    let q = chan_q(c.hue, c.saturation, c.value);
    let t = chan_t(c.hue, c.saturation, c.value);
    let i = sector_index(c.hue);
    if i == 0 {
        (v, t, p)
    } else if i == 1 {
        (q, v, p)
    } else if i == 2 {
        (p, v, t)
    } else if i == 3 {
        (p, q, v)
    } else if i == 4 {
        (t, p, v)
    } else {
        (v, p, q)
    }
}

/// The largest of three channel intensities.
pub open spec fn max3(r: int, g: int, b: int) -> int {
    if r >= g && r >= b {
        r
    } else if g >= b {
        g
    } else {
        b
    }
}

/// The smallest of three channel intensities.
pub open spec fn min3(r: int, g: int, b: int) -> int {
    if r <= g && r <= b {
        r
    } else if g <= b {
        g
    } else {
        b
    }
}

/// The hue numerator over the denominator `6 * (max - min)`, already wrapped
/// into `[0, 1)`; meaningful only for chromatic inputs (`max != min`).
pub open spec fn hue_num_spec(r: int, g: int, b: int) -> int {
    let mx = max3(r, g, b);
    let mn = min3(r, g, b);
    let d = mx - mn;
    if r == mx {
        if g >= b {
            g - b
        } else {
            6 * d - (b - g)
        }
    } else if g == mx {
        2 * d + b - r
    } else {
        4 * d + r - g
    }
}

/// The exact HSV color that the RGB-to-HSV conversion produces for an 8-bit
/// RGB triple: value is `max / 255`, saturation `(max - min) / max`, and the
/// hue the standard sector formula, with hue and saturation 0 for achromatic
/// input.
pub open spec fn from_rgb_spec(r: u8, g: u8, b: u8) -> Color {
    let mx = max3(r as int, g as int, b as int);
    let mn = min3(r as int, g as int, b as int);
    if mx == mn {
        Color {
            hue: (Frac { num: 0u32, den: 1u32 }),
            saturation: (Frac { num: 0u32, den: 1u32 }),
            value: (Frac { num: mx as u32, den: 255u32 }),
        }
    } else {
        Color {
            hue: (Frac {
                num: hue_num_spec(r as int, g as int, b as int) as u32,
                den: (6 * (mx - mn)) as u32,
            }),
            saturation: (Frac { num: (mx - mn) as u32, den: mx as u32 }),
            value: (Frac { num: mx as u32, den: 255u32 }),
        }
    }
}

/// Division by a positive divisor cancels multiplication by it exactly.
proof fn lemma_exact_div(k: int, x: int)
    requires
        1 <= k,
    ensures
        k * x / k == x,
{
    assert(k * x == x * k + 0) by (nonlinear_arith);
    lemma_fundamental_div_mod_converse(k * x, k, x, 0);
}

/// A common positive factor of numerator and denominator cancels.
proof fn lemma_cancel_common(c: int, a: int, b: int)
    requires
        1 <= c,
        1 <= b,
        0 <= a,
    ensures
        c * a / (c * b) == a / b,
{
    lemma_exact_div(c, a);
    lemma_div_denominator(c * a, c, b);
}

/// The sector index is one of the six sectors and the offset lies inside it.
proof fn lemma_sector_bounds(h: Frac)
    requires
        frac_wf(h),
    ensures
        0 <= sector_index(h) <= 5,
        0 <= sector_offset(h) < h.den,
        6 * (h.num as int) == sector_index(h) * (h.den as int) + sector_offset(h) || h.num
            == h.den,
{
    let n = h.num as int;
    let d = h.den as int;
    if h.num != h.den {
        lemma_div_pos_is_pos(6 * n, d);
        assert(6 * n < d * 6);
        lemma_multiply_divide_lt(6 * n, d, 6);
        lemma_mod_division_less_than_divisor(6 * n, d);
        lemma_mod_bound(6 * n, d);
        vstd::arithmetic::div_mod::lemma_fundamental_div_mod(6 * n, d);
        assert(6 * n == d * (6 * n / d) + (6 * n) % d);
        assert(d * (6 * n / d) == (6 * n / d) * d) by (nonlinear_arith);
    }
}

/// `255 * a / b` stays inside `0..=255` when `a / b` lies in the unit
/// interval.
proof fn lemma_scaled_ratio_bounds(a: int, b: int)
    requires
        1 <= b,
        0 <= a <= b,
    ensures
        0 <= 255 * a / b <= 255,
{
    lemma_div_pos_is_pos(255 * a, b);
    lemma_exact_div(b, 255);
    assert(255 * a <= 255 * b) by (nonlinear_arith)
        requires
            0 <= a <= b,
    ;
    lemma_div_is_ordered(255 * a, 255 * b, b);
    assert(b * 255 == 255 * b);
}

/// Every channel of the RGB conversion lies in `0..=255`.
pub proof fn lemma_rgb_spec_bounds(c: Color)
    requires
        color_wf(c),
    ensures
        0 <= rgb_spec(c).0 <= 255,
        0 <= rgb_spec(c).1 <= 255,
        0 <= rgb_spec(c).2 <= 255,
{
    let hd = c.hue.den as int;
    let sn = c.saturation.num as int;
    let sd = c.saturation.den as int;
    let vn = c.value.num as int;
    let vd = c.value.den as int;
    let off = sector_offset(c.hue);
    lemma_sector_bounds(c.hue);
    assert(1 <= vd * sd && 1 <= vd * (hd * sd) && 1 <= hd * sd) by (nonlinear_arith)
        requires
            1 <= vd,
            1 <= sd,
            1 <= hd,
    ;
    lemma_scaled_ratio_bounds(vn, vd);
    assert(0 <= vn * (sd - sn) <= vd * sd) by (nonlinear_arith)
        requires
            0 <= vn <= vd,
            0 <= sn <= sd,
    ;
    lemma_scaled_ratio_bounds(vn * (sd - sn), vd * sd);
    assert(255 * vn * (sd - sn) == 255 * (vn * (sd - sn))) by (nonlinear_arith);
    assert(0 <= vn * (hd * sd - off * sn) <= vd * (hd * sd)) by (nonlinear_arith)
        requires
            0 <= vn <= vd,
            0 <= sn <= sd,
            0 <= off <= hd,
            1 <= sd,
            1 <= hd,
    ;
    lemma_scaled_ratio_bounds(vn * (hd * sd - off * sn), vd * (hd * sd));
    assert(255 * vn * (hd * sd - off * sn) == 255 * (vn * (hd * sd - off * sn)))
        by (nonlinear_arith);
    assert(vd * (hd * sd) == vd * hd * sd) by (nonlinear_arith);
    assert(0 <= vn * (hd * sd - (hd - off) * sn) <= vd * (hd * sd)) by (nonlinear_arith)
        requires
            0 <= vn <= vd,
            0 <= sn <= sd,
            0 <= off <= hd,
            1 <= sd,
            1 <= hd,
    ;
    lemma_scaled_ratio_bounds(vn * (hd * sd - (hd - off) * sn), vd * (hd * sd));
    assert(255 * vn * (hd * sd - (hd - off) * sn) == 255 * (vn * (hd * sd - (hd - off) * sn)))
        by (nonlinear_arith);
}

impl Color {
    /// The HSV color of an 8-bit RGB triple, each channel read as the
    /// fraction of 255. Achromatic input (all channels equal) yields hue 0
    /// and saturation 0.
    pub fn from_rgb(r: u8, g: u8, b: u8) -> (c: Color)
        ensures
            c == from_rgb_spec(r, g, b),
            color_wf(c),
    {
        let mx: u32 = if r >= g && r >= b {
            r as u32
        } else if g >= b {
            g as u32
        } else {
            b as u32
        };
        let mn: u32 = if r <= g && r <= b {
            r as u32
        } else if g <= b {
            g as u32
        } else {
            b as u32
        };
        if mx == mn {
            return Color {
                hue: Frac { num: 0, den: 1 },
                saturation: Frac { num: 0, den: 1 },
                value: Frac { num: mx, den: 255 },
            };
        }
        let d: u32 = mx - mn;
        let hue_num: u32 = if (r as u32) == mx {
            if g >= b {
                (g - b) as u32
            } else {
                6 * d - ((b - g) as u32)
            }
        } else if (g as u32) == mx {
            2 * d + (b as u32) - (r as u32)
        } else {
            4 * d + (r as u32) - (g as u32)
        };
        Color {
            hue: Frac { num: hue_num, den: 6 * d },
            saturation: Frac { num: d, den: mx },
            value: Frac { num: mx, den: 255 },
        }
    }

    /// The RGB triple of this color, each channel in `0..=255`, by the
    /// six-sector conversion; hue exactly 1 renders as hue 0.
    pub fn to_rgb_u8(&self) -> (rgb: (u8, u8, u8))
        requires
            color_wf(*self),
        ensures
            (rgb.0 as int, rgb.1 as int, rgb.2 as int) == rgb_spec(*self),
    {
        let h = self.hue;
        let s = self.saturation;
        let v = self.value;
        proof {
            lemma_sector_bounds(h);
            lemma_rgb_spec_bounds(*self);
        }
        let (i, off): (u32, u32) = if h.num == h.den {
            (0, 0)
        } else {
            let six: u64 = 6 * (h.num as u64);
            ((six / (h.den as u64)) as u32, (six % (h.den as u64)) as u32)
        };
        let hd: u128 = h.den as u128;
        let sn: u128 = s.num as u128;
        let sd: u128 = s.den as u128;
        let vn: u128 = v.num as u128;
        let vd: u128 = v.den as u128;
        let offw: u128 = off as u128;
        proof {
            assert(hd * sd < 0x10000000000000000) by (nonlinear_arith)
                requires
                    hd < 0x100000000,
                    sd < 0x100000000,
            ;
            assert(vd * hd < 0x10000000000000000) by (nonlinear_arith)
                requires
                    vd < 0x100000000,
                    hd < 0x100000000,
            ;
            assert(vd * sd < 0x10000000000000000) by (nonlinear_arith)
                requires
                    vd < 0x100000000,
                    sd < 0x100000000,
            ;
            assert(vd * hd * sd < 0x1000000000000000000000000) by (nonlinear_arith)
                requires
                    vd * hd < 0x10000000000000000,
                    sd < 0x100000000,
            ;
            assert(offw * sn <= hd * sd && (hd - offw) * sn <= hd * sd) by (nonlinear_arith)
                requires
                    0 <= offw <= hd,
                    0 <= sn <= sd,
            ;
            assert(255 * vn < 0x10000000000) by (nonlinear_arith)
                requires
                    vn < 0x100000000,
            ;
            assert(255 * vn * (hd * sd - offw * sn) <= 255 * vn * (hd * sd)
                && 255 * vn * (hd * sd - (hd - offw) * sn) <= 255 * vn * (hd * sd)
                && 255 * vn * (sd - sn) <= 255 * vn * sd) by (nonlinear_arith)
                requires
                    0 <= 255 * vn,
                    0 <= offw * sn <= hd * sd,
                    0 <= (hd - offw) * sn <= hd * sd,
                    0 <= sn <= sd,
            ;
            assert(255 * vn * (hd * sd) < 0x100000000000000000000000000000000)
                by (nonlinear_arith)
                requires
                    0 <= 255 * vn < 0x10000000000,
                    0 <= hd * sd < 0x10000000000000000,
            ;
            assert(255 * vn * sd < 0x100000000000000000000000000000000) by (nonlinear_arith)
                requires
                    0 <= 255 * vn < 0x10000000000,
                    0 <= sd < 0x100000000,
            ;
            assert(vd * sd >= 1 && vd * hd * sd >= 1) by (nonlinear_arith)
                requires
                    1 <= vd,
                    1 <= sd,
                    1 <= hd,
            ;
        }
        let cv: u8 = ((255 * vn) / vd) as u8;
        let cp: u8 = ((255 * vn * (sd - sn)) / (vd * sd)) as u8;
        let cq: u8 = ((255 * vn * (hd * sd - offw * sn)) / (vd * hd * sd)) as u8;
        let ct: u8 = ((255 * vn * (hd * sd - (hd - offw) * sn)) / (vd * hd * sd)) as u8;
        if i == 0 {
            (cv, ct, cp)
        } else if i == 1 {
            (cq, cv, cp)
        } else if i == 2 {
            (cp, cv, ct)
        } else if i == 3 {
            (cp, cq, cv)
        } else if i == 4 {
            (ct, cp, cv)
        } else {
            (cv, cp, cq)
        }
    }
}

/// An exact quotient evaluates to the cofactor.
proof fn lemma_div_eval(num: int, den: int, t: int)
    requires
        1 <= den,
        num == den * t,
    ensures
        num / den == t,
{
    lemma_exact_div(den, t);
}

/// Channel evaluation for a color produced by the chromatic branch of the
/// RGB-to-HSV conversion: saturation `d / mx`, value `mx / 255`, hue
/// denominator `6 * d`, and a sector offset that is the multiple `6 * k`.
/// All four candidate channels are then exact integers.
proof fn lemma_chromatic_channels(c: Color, mx: int, d: int, k: int)
    requires
        c.saturation.num as int == d,
        c.saturation.den as int == mx,
        c.value.num as int == mx,
        c.value.den as int == 255,
        c.hue.den as int == 6 * d,
        1 <= d,
        d <= mx,
        mx <= 255,
        sector_offset(c.hue) == 6 * k,
        0 <= k <= d,
    ensures
        chan_v(c.value) == mx,
        chan_p(c.saturation, c.value) == mx - d,
        chan_q(c.hue, c.saturation, c.value) == mx - k,
        chan_t(c.hue, c.saturation, c.value) == mx - d + k,
{
    let hd: int = c.hue.den as int;
    let sn: int = c.saturation.num as int;
    let sd: int = c.saturation.den as int;
    let vn: int = c.value.num as int;
    let vd: int = c.value.den as int;
    let off: int = sector_offset(c.hue);
    assert(1 <= vd * sd && 1 <= vd * hd * sd) by (nonlinear_arith)
        requires
            1 <= vd,
            1 <= sd,
            1 <= hd,
    ;
    lemma_div_eval(255 * vn, vd, mx);
    assert(chan_v(c.value) == mx);
    assert(255 * vn * (sd - sn) == (vd * sd) * (mx - d)) by (nonlinear_arith)
        requires
            vn == mx,
            vd == 255,
            sd == mx,
            sn == d,
    ;
    lemma_div_eval(255 * vn * (sd - sn), vd * sd, mx - d);
    assert(chan_p(c.saturation, c.value) == mx - d);
    assert(255 * vn * (hd * sd - off * sn) == (vd * hd * sd) * (mx - k)) by (nonlinear_arith)
        requires
            vn == mx,
            vd == 255,
            sd == mx,
            sn == d,
            hd == 6 * d,
            off == 6 * k,
    ;
    lemma_div_eval(255 * vn * (hd * sd - off * sn), vd * hd * sd, mx - k);
    assert(chan_q(c.hue, c.saturation, c.value) == mx - k);
    assert(255 * vn * (hd * sd - (hd - off) * sn) == (vd * hd * sd) * (mx - d + k))
        by (nonlinear_arith)
        requires
            vn == mx,
            vd == 255,
            sd == mx,
            sn == d,
            hd == 6 * d,
            off == 6 * k,
    ;
    lemma_div_eval(255 * vn * (hd * sd - (hd - off) * sn), vd * hd * sd, mx - d + k);
    assert(chan_t(c.hue, c.saturation, c.value) == mx - d + k);
}

/// Converting an 8-bit RGB triple to HSV and back reproduces the triple
/// exactly: the conversions are exact inverses on the 8-bit grid.
pub proof fn lemma_rgb_round_trip(r: u8, g: u8, b: u8)
    ensures
        rgb_spec(from_rgb_spec(r, g, b)) == (r as int, g as int, b as int),
{
    let ri: int = r as int;
    let gi: int = g as int;
    let bi: int = b as int;
    let mx: int = max3(ri, gi, bi);
    let mn: int = min3(ri, gi, bi);
    let c: Color = from_rgb_spec(r, g, b);
    if mx == mn {
        assert(ri == mx && gi == mx && bi == mx);
        assert(sector_index(c.hue) == 0);
        assert(sector_offset(c.hue) == 0);
        lemma_div_eval(255 * (c.value.num as int), 255int, mx);
        assert(chan_v(c.value) == mx);
        lemma_div_eval(255 * (c.value.num as int) * (1 - 0), 255int * 1, mx);
        assert(chan_p(c.saturation, c.value) == mx);
        lemma_div_eval(255 * (c.value.num as int) * (1 * 1 - 0 * 0), 255int * 1 * 1, mx);
        assert(chan_q(c.hue, c.saturation, c.value) == mx);
        lemma_div_eval(255 * (c.value.num as int) * (1 * 1 - (1 - 0) * 0), 255int * 1 * 1, mx);
        assert(chan_t(c.hue, c.saturation, c.value) == mx);
    } else {
        let d: int = mx - mn;
        let hn: int = hue_num_spec(ri, gi, bi);
        assert(0 <= mn && mx <= 255 && 1 <= d);
        assert(mn <= ri <= mx && mn <= gi <= mx && mn <= bi <= mx);
        assert(0 <= hn < 6 * d);
        assert(c.hue.num as int == hn && c.hue.den as int == 6 * d);
        assert(c.hue.num != c.hue.den);
        assert(c.saturation.num as int == d && c.saturation.den as int == mx);
        assert(c.value.num as int == mx && c.value.den as int == 255);
        if ri == mx {
            if gi >= bi {
                assert(mn == bi);
                let a: int = gi - bi;
                if a < d {
                    lemma_fundamental_div_mod_converse(6 * hn, 6 * d, 0, 6 * a);
                    assert(sector_index(c.hue) == 0 && sector_offset(c.hue) == 6 * a);
                    lemma_chromatic_channels(c, mx, d, a);
                } else {
                    assert(a == d);
                    lemma_fundamental_div_mod_converse(6 * hn, 6 * d, 1, 0);
                    assert(sector_index(c.hue) == 1 && sector_offset(c.hue) == 6 * 0);
                    lemma_chromatic_channels(c, mx, d, 0);
                }
            } else {
                assert(mn == gi);
                let e: int = bi - gi;
                assert(1 <= e <= d);
                assert(hn == 6 * d - e);
                lemma_fundamental_div_mod_converse(6 * hn, 6 * d, 5, 6 * (d - e));
                assert(sector_index(c.hue) == 5 && sector_offset(c.hue) == 6 * (d - e));
                lemma_chromatic_channels(c, mx, d, d - e);
            }
        } else if gi == mx {
            assert(ri < mx);
            assert(hn == 2 * d + bi - ri);
            if bi < ri {
                assert(mn == bi);
                lemma_fundamental_div_mod_converse(6 * hn, 6 * d, 1, 6 * (d + bi - ri));
                assert(sector_index(c.hue) == 1 && sector_offset(c.hue) == 6 * (d + bi - ri));
                lemma_chromatic_channels(c, mx, d, d + bi - ri);
            } else if bi < mx {
                assert(mn == ri);
                lemma_fundamental_div_mod_converse(6 * hn, 6 * d, 2, 6 * (bi - ri));
                assert(sector_index(c.hue) == 2 && sector_offset(c.hue) == 6 * (bi - ri));
                lemma_chromatic_channels(c, mx, d, bi - ri);
            } else {
                assert(bi == mx && mn == ri);
                assert(hn == 3 * d);
                lemma_fundamental_div_mod_converse(6 * hn, 6 * d, 3, 0);
                assert(sector_index(c.hue) == 3 && sector_offset(c.hue) == 6 * 0);
                lemma_chromatic_channels(c, mx, d, 0);
            }
        } else {
            assert(bi == mx && ri < mx && gi < mx);
            assert(hn == 4 * d + ri - gi);
            if ri < gi {
                assert(mn == ri);
                lemma_fundamental_div_mod_converse(6 * hn, 6 * d, 3, 6 * (d + ri - gi));
                assert(sector_index(c.hue) == 3 && sector_offset(c.hue) == 6 * (d + ri - gi));
                lemma_chromatic_channels(c, mx, d, d + ri - gi);
            } else {
                assert(mn == gi);
                lemma_fundamental_div_mod_converse(6 * hn, 6 * d, 4, 6 * (ri - gi));
                assert(sector_index(c.hue) == 4 && sector_offset(c.hue) == 6 * (ri - gi));
                lemma_chromatic_channels(c, mx, d, ri - gi);
            }
        }
    }
}

/// A hue of exactly 1 and a hue of exactly 0 render to the same RGB triple
/// for any shared saturation and value: the sector wraps around.
pub proof fn lemma_hue_wraparound(h1: Frac, h0: Frac, s: Frac, v: Frac)
    requires
        frac_wf(h1),
        frac_wf(h0),
        frac_wf(s),
        frac_wf(v),
        h1.num == h1.den,
        h0.num == 0,
    ensures
        rgb_spec(Color { hue: h1, saturation: s, value: v }) == rgb_spec(
            Color { hue: h0, saturation: s, value: v },
        ),
{
    let c1 = Color { hue: h1, saturation: s, value: v };
    let c0 = Color { hue: h0, saturation: s, value: v };
    let d0: int = h0.den as int;
    lemma_div_of0(d0);
    lemma_mod_bound(0, d0);
    vstd::arithmetic::div_mod::lemma_small_mod(0nat, d0 as nat);
    assert(sector_index(c1.hue) == 0 && sector_offset(c1.hue) == 0);
    assert(sector_index(c0.hue) == 0 && sector_offset(c0.hue) == 0);
    lemma_zero_offset_channels(h1, s, v);
    lemma_zero_offset_channels(h0, s, v);
}

/// With the sector offset at 0, the `q` channel collapses to the value
/// channel and the `t` channel collapses to the `p` channel, whatever the
/// hue denominator.
proof fn lemma_zero_offset_channels(h: Frac, s: Frac, v: Frac)
    requires
        frac_wf(h),
        frac_wf(s),
        frac_wf(v),
        sector_offset(h) == 0,
    ensures
        chan_q(h, s, v) == chan_v(v),
        chan_t(h, s, v) == chan_p(s, v),
{
    let hd: int = h.den as int;
    let sn: int = s.num as int;
    let sd: int = s.den as int;
    let vn: int = v.num as int;
    let vd: int = v.den as int;
    let off: int = sector_offset(h);
    assert(1 <= vd * sd && 0 <= 255 * vn * sd && 0 <= 255 * vn * (sd - sn) && 0 <= 255 * vn)
        by (nonlinear_arith)
        requires
            1 <= vd,
            1 <= sd,
            0 <= vn,
            0 <= sn <= sd,
    ;
    assert(255 * vn * (hd * sd - off * sn) == hd * (255 * vn * sd)) by (nonlinear_arith)
        requires
            off == 0,
    ;
    assert(vd * hd * sd == hd * (vd * sd)) by (nonlinear_arith);
    lemma_cancel_common(hd, 255 * vn * sd, vd * sd);
    assert(chan_q(h, s, v) == 255 * vn * sd / (vd * sd));
    assert(255 * vn * sd == sd * (255 * vn)) by (nonlinear_arith);
    assert(vd * sd == sd * vd) by (nonlinear_arith);
    lemma_cancel_common(sd, 255 * vn, vd);
    assert(chan_q(h, s, v) == chan_v(v));
    assert(255 * vn * (hd * sd - (hd - off) * sn) == hd * (255 * vn * (sd - sn)))
        by (nonlinear_arith)
        requires
            off == 0,
    ;
    lemma_cancel_common(hd, 255 * vn * (sd - sn), vd * sd);
    assert(chan_t(h, s, v) == chan_p(s, v));
}

/// Achromatic input always converts with saturation 0: equal channels give
/// `max == min`, so the divide-by-zero guard of the conversion is taken and
/// saturation (and hue) are fixed at 0.
pub proof fn lemma_achromatic_saturation_zero(r: u8, g: u8, b: u8)
    requires
        r == g && g == b,
    ensures
        from_rgb_spec(r, g, b).saturation.num == 0,
        from_rgb_spec(r, g, b).hue.num == 0,
{
}

/// The lowercase hexadecimal digit for a value in `0..=15`.
pub open spec fn hex_char(d: int) -> char {
    if d == 0 {
        '0'
    } else if d == 1 {
        '1'
    } else if d == 2 {
        '2'
    } else if d == 3 {
        '3'
    } else if d == 4 {
        '4'
    } else if d == 5 {
        '5'
    } else if d == 6 {
        '6'
    } else if d == 7 {
        '7'
    } else if d == 8 {
        '8'
    } else if d == 9 {
        '9'
    } else if d == 10 {
        'a'
    } else if d == 11 {
        'b'
    } else if d == 12 {
        'c'
    } else if d == 13 {
        'd'
    } else {
        if d == 14 {
            'e'
        } else {
            'f'
        }
    }
}

/// One of the sixteen lowercase hexadecimal digit characters.
pub open spec fn is_lower_hex_digit(ch: char) -> bool {
    ||| ch == '0'
    ||| ch == '1'
    ||| ch == '2'
    ||| ch == '3'
    ||| ch == '4'
    ||| ch == '5'
    ||| ch == '6'
    ||| ch == '7'
    ||| ch == '8'
    ||| ch == '9'
    ||| ch == 'a'
    ||| ch == 'b'
    ||| ch == 'c'
    ||| ch == 'd'
    ||| ch == 'e'
    ||| ch == 'f'
}

/// The seven-character hex form of a color: `#` followed by two lowercase
/// hex digits for each RGB channel, high digit first.
pub open spec fn hex_view(c: Color) -> Seq<char> {
    let rgb = rgb_spec(c);
    seq![
        '#',
        hex_char(rgb.0 / 16),
        hex_char(rgb.0 % 16),
        hex_char(rgb.1 / 16),
        hex_char(rgb.1 % 16),
        hex_char(rgb.2 / 16),
        hex_char(rgb.2 % 16),
    ]
}

/// Exactly seven characters: a `#` followed by six lowercase hex digits.
pub open spec fn is_hex_color_string(s: Seq<char>) -> bool {
    &&& s.len() == 7
    &&& s[0] == '#'
    &&& forall|i: int| 1 <= i < 7 ==> is_lower_hex_digit(#[trigger] s[i])
}

/// The one-character string for a hexadecimal digit value.
fn hex_digit_str(d: u8) -> (s: &'static str)
    requires
        d < 16,
    ensures
        s@ == seq![hex_char(d as int)],
{
    match d {
        0 => {
            proof {
                reveal_strlit("0");
                assert("0"@ =~= seq!['0']);
            }
            "0"
        },
        1 => {
            proof {
                reveal_strlit("1");
                assert("1"@ =~= seq!['1']);
            }
            "1"
        },
        2 => {
            proof {
                reveal_strlit("2");
                assert("2"@ =~= seq!['2']);
            }
            "2"
        },
        3 => {
            proof {
                reveal_strlit("3");
                assert("3"@ =~= seq!['3']);
            }
            "3"
        },
        4 => {
            proof {
                reveal_strlit("4");
                assert("4"@ =~= seq!['4']);
            }
            "4"
        },
        5 => {
            proof {
                reveal_strlit("5");
                assert("5"@ =~= seq!['5']);
            }
            "5"
        },
        6 => {
            proof {
                reveal_strlit("6");
                assert("6"@ =~= seq!['6']);
            }
            "6"
        },
        7 => {
            proof {
                reveal_strlit("7");
                assert("7"@ =~= seq!['7']);
            }
            "7"
        },
        8 => {
            proof {
                reveal_strlit("8");
                assert("8"@ =~= seq!['8']);
            }
            "8"
        },
        9 => {
            proof {
                reveal_strlit("9");
                assert("9"@ =~= seq!['9']);
            }
            "9"
        },
        10 => {
            proof {
                reveal_strlit("a");
                assert("a"@ =~= seq!['a']);
            }
            "a"
        },
        11 => {
            proof {
                reveal_strlit("b");
                assert("b"@ =~= seq!['b']);
            }
            "b"
        },
        12 => {
            proof {
                reveal_strlit("c");
                assert("c"@ =~= seq!['c']);
            }
            "c"
        },
        13 => {
            proof {
                reveal_strlit("d");
                assert("d"@ =~= seq!['d']);
            }
            "d"
        },
        14 => {
            proof {
                reveal_strlit("e");
                assert("e"@ =~= seq!['e']);
            }
            "e"
        },
        _ => {
            proof {
                reveal_strlit("f");
                assert("f"@ =~= seq!['f']);
            }
            "f"
        },
    }
}

/// Every hexadecimal digit value maps to a lowercase hex digit character.
proof fn lemma_hex_char_is_digit(d: int)
    requires
        0 <= d < 16,
    ensures
        is_lower_hex_digit(hex_char(d)),
{
}

impl Color {
    /// The CSS hex form of this color: `#` and six lowercase hex digits,
    /// derived from the 8-bit RGB conversion, leading zeros kept.
    pub fn to_hex(&self) -> (hex: String)
        requires
            color_wf(*self),
        ensures
            hex@ == hex_view(*self),
            is_hex_color_string(hex@),
    {
        let (r, g, b) = self.to_rgb_u8();
        let mut out: String = String::from_str("#");
        proof {
            reveal_strlit("#");
            assert("#"@ =~= seq!['#']);
        }
        out.append(hex_digit_str(r / 16));
        out.append(hex_digit_str(r % 16));
        out.append(hex_digit_str(g / 16));
        out.append(hex_digit_str(g % 16));
        out.append(hex_digit_str(b / 16));
        out.append(hex_digit_str(b % 16));
        proof {
            assert(out@ =~= hex_view(*self));
            assert forall|i: int| 1 <= i < 7 implies is_lower_hex_digit(#[trigger] out@[i]) by {
                let rgb = rgb_spec(*self);
                lemma_rgb_spec_bounds(*self);
                lemma_hex_char_is_digit(rgb.0 / 16);
                lemma_hex_char_is_digit(rgb.0 % 16);
                lemma_hex_char_is_digit(rgb.1 / 16);
                lemma_hex_char_is_digit(rgb.1 % 16);
                lemma_hex_char_is_digit(rgb.2 / 16);
                lemma_hex_char_is_digit(rgb.2 % 16);
            }
        }
        out
    }
}

} // verus!
