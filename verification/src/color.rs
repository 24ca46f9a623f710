//! Exact color arithmetic: unit fractions for saturation and value, and
//! an HSV-to-RGB conversion carried out on integer numerators over a
//! common denominator, so that no precision is lost anywhere.

use vstd::prelude::*;

verus! {

/// An exact fraction in the unit interval: the value `num / den`,
/// well-formed when `den > 0` and `num <= den`.
#[derive(Clone, Copy, Debug, PartialEq, Eq, Structural)]
pub struct UnitFrac {
    pub num: u32,
    pub den: u32,
}

impl UnitFrac {
    pub open spec fn wf(self) -> bool {
        self.den > 0 && self.num <= self.den
    }

    /// The fraction a pixel coordinate `x` maps to inside a span of `d`
    /// pixels: `x / d`, clamped into the unit interval.
    pub open spec fn spec_clamped(x: int, d: int) -> UnitFrac {
        UnitFrac {
            num: if x < 0 { 0 } else if x > d { d as u32 } else { x as u32 },
            den: d as u32,
        }
    }

    /// Maps a pixel coordinate into the unit interval as an exact
    /// fraction of the span, clamping coordinates outside the span.
    pub fn clamped(x: i64, d: u32) -> (r: UnitFrac)
        requires
            d > 0,
        ensures
            r == Self::spec_clamped(x as int, d as int),
            r.wf(),
    {
        let num: u32 = if x < 0 {
            0
        } else if x > d as i64 {
            d
        } else {
            x as u32
        };
        UnitFrac { num, den: d }
    }
}

/// One color channel as an exact fraction `num / den` in the unit
/// interval, well-formed when `den > 0` and `num <= den`.
#[derive(Clone, Copy, Debug, PartialEq, Eq, Structural)]
pub struct Channel {
    pub num: u128,
    pub den: u128,
}

impl Channel {
    pub open spec fn wf(self) -> bool {
        self.den > 0 && self.num <= self.den
    }
}

/// An exact RGBA color: four channel fractions.
#[derive(Clone, Copy, Debug, PartialEq, Eq, Structural)]
pub struct Rgba {
    pub r: Channel,
    pub g: Channel,
    pub b: Channel,
    pub a: Channel,
}

impl Rgba {
    pub open spec fn wf(self) -> bool {
        self.r.wf() && self.g.wf() && self.b.wf() && self.a.wf()
    }
}

/// The fixed clear color shown while the pointer is inside the window.
pub open spec fn spec_inside_color() -> Rgba {
    Rgba {
        r: Channel { num: 1, den: 10 },
        g: Channel { num: 2, den: 10 },
        b: Channel { num: 3, den: 10 },
        a: Channel { num: 1, den: 1 },
    }
}

/// The fixed clear color shown while the pointer is outside the window.
pub open spec fn spec_outside_color() -> Rgba {
    Rgba {
        r: Channel { num: 3, den: 10 },
        g: Channel { num: 2, den: 10 },
        b: Channel { num: 1, den: 10 },
        a: Channel { num: 1, den: 1 },
    }
}

pub fn inside_color() -> (c: Rgba)
    ensures
        c == spec_inside_color(),
{
    Rgba {
        r: Channel { num: 1, den: 10 },
        g: Channel { num: 2, den: 10 },
        b: Channel { num: 3, den: 10 },
        a: Channel { num: 1, den: 1 },
    }
}

pub fn outside_color() -> (c: Rgba)
    ensures
        c == spec_outside_color(),
{
    Rgba {
        r: Channel { num: 3, den: 10 },
        g: Channel { num: 2, den: 10 },
        b: Channel { num: 1, den: 10 },
        a: Channel { num: 1, den: 1 },
    }
}

/// The common denominator every HSV-derived channel is expressed over:
/// sixty sixtieths of a degree sector times both input denominators.
pub open spec fn hsv_den(sd: int, vd: int) -> int {
    60 * sd * vd
}

/// Numerator of `value * (1 - saturation)` over `hsv_den`: the floor all
/// three channels share.
pub open spec fn base_num(sn: int, sd: int, vn: int) -> int {
    60 * vn * (sd - sn)
}

/// Numerator of `value` itself over `hsv_den`: the ceiling a channel
/// reaches at the top of its sector.
pub open spec fn full_num(sd: int, vn: int) -> int {
    60 * vn * sd
}

/// Numerator of a channel climbing through its sector: the shared floor
/// plus chroma scaled by how far the hue has entered the sector.
pub open spec fn rise_num(h: int, sn: int, sd: int, vn: int) -> int {
    base_num(sn, sd, vn) + vn * sn * (h % 60)
}

/// Numerator of a channel descending through its sector: the shared
/// floor plus chroma scaled by how far the hue still has to go.
pub open spec fn fall_num(h: int, sn: int, sd: int, vn: int) -> int {
    base_num(sn, sd, vn) + vn * sn * (60 - h % 60)
}

/// The red numerator over `hsv_den`, by sector of the hue circle.
pub open spec fn red_num(h: int, sn: int, sd: int, vn: int) -> int {
    let sector = h / 60;
    if sector == 0 || sector == 5 {
        full_num(sd, vn)
    } else if sector == 1 {
        fall_num(h, sn, sd, vn)
    } else if sector == 4 {
        rise_num(h, sn, sd, vn)
    } else {
        base_num(sn, sd, vn)
    }
}

/// The green numerator over `hsv_den`, by sector of the hue circle.
pub open spec fn green_num(h: int, sn: int, sd: int, vn: int) -> int {
    let sector = h / 60;
    if sector == 1 || sector == 2 {
        full_num(sd, vn)
    } else if sector == 0 {
        rise_num(h, sn, sd, vn)
    } else if sector == 3 {
        fall_num(h, sn, sd, vn)
    } else {
        base_num(sn, sd, vn)
    }
}

/// The blue numerator over `hsv_den`, by sector of the hue circle.
pub open spec fn blue_num(h: int, sn: int, sd: int, vn: int) -> int {
    let sector = h / 60;
    if sector == 3 || sector == 4 {
        full_num(sd, vn)
    } else if sector == 2 {
        rise_num(h, sn, sd, vn)
    } else if sector == 5 {
        fall_num(h, sn, sd, vn)
    } else {
        base_num(sn, sd, vn)
    }
}

/// The exact color an HSV triple converts to: each channel the standard
/// sector formula, as one fraction over the common denominator, with a
/// fully opaque alpha channel.
pub open spec fn spec_hsv_rgba(h: int, s: UnitFrac, v: UnitFrac) -> Rgba {
    Rgba {
        r: Channel {
            num: red_num(h, s.num as int, s.den as int, v.num as int) as u128,
            den: hsv_den(s.den as int, v.den as int) as u128,
        },
        g: Channel {
            num: green_num(h, s.num as int, s.den as int, v.num as int) as u128,
            den: hsv_den(s.den as int, v.den as int) as u128,
        },
        b: Channel {
            num: blue_num(h, s.num as int, s.den as int, v.num as int) as u128,
            den: hsv_den(s.den as int, v.den as int) as u128,
        },
        a: Channel { num: 1, den: 1 },
    }
}

/// Converts an HSV triple to the exact RGBA color it denotes: hue in
/// whole degrees below 360, saturation and value as unit fractions.
pub fn hsv_to_rgba(h: u32, s: UnitFrac, v: UnitFrac) -> (c: Rgba)
    requires
        h < 360,
        s.wf(),
        v.wf(),
    ensures
        c == spec_hsv_rgba(h as int, s, v),
        c.wf(),
{
    let sn: u128 = s.num as u128;
    let sd: u128 = s.den as u128;
    let vn: u128 = v.num as u128;
    let vd: u128 = v.den as u128;
    proof {
        lemma_hsv_bounds(h as int, sn as int, sd as int, vn as int, vd as int);
    }
    let den: u128 = 60 * sd * vd;
    let base: u128 = 60 * vn * (sd - sn);
    let full: u128 = 60 * vn * sd;
    let f: u128 = (h % 60) as u128;
    let rise: u128 = base + vn * sn * f;
    let fall: u128 = base + vn * sn * (60 - f);
    let sector: u32 = h / 60;
    let (r, g, b): (u128, u128, u128) = if sector == 0 {
        (full, rise, base)
    } else if sector == 1 {
        (fall, full, base)
    } else if sector == 2 {
        (base, full, rise)
    } else if sector == 3 {
        (base, fall, full)
    } else if sector == 4 {
        (rise, base, full)
    } else {
        (full, base, fall)
    };
    Rgba {
        r: Channel { num: r, den },
        g: Channel { num: g, den },
        b: Channel { num: b, den },
        a: Channel { num: 1, den: 1 },
    }
}

/// Every intermediate value of the conversion is nonnegative, fits far
/// below the 128-bit limit, and each channel numerator lies between the
/// shared floor and the common denominator.
proof fn lemma_hsv_bounds(h: int, sn: int, sd: int, vn: int, vd: int)
    by (nonlinear_arith)
    requires
        0 <= h < 360,
        0 < sd < 0x100000000,
        0 <= sn <= sd,
        0 < vd < 0x100000000,
        0 <= vn <= vd,
    ensures
        0 < 60 * sd * vd < 0x100000000000000000000,
        0 <= 60 * vn * (sd - sn) <= 60 * sd * vd,
        0 <= 60 * vn * sd <= 60 * sd * vd,
        0 <= vn * sn < 0x10000000000000000,
        0 <= vn * sn * (h % 60),
        0 <= vn * sn * (60 - h % 60),
        60 * vn * (sd - sn) + vn * sn * (h % 60) <= 60 * vn * sd,
        60 * vn * (sd - sn) + vn * sn * (60 - h % 60) <= 60 * vn * sd,
{
}

/// With zero saturation the conversion is gray: all three channels are
/// the same fraction, whatever the hue.
pub proof fn lemma_zero_saturation_gray(h: int, s: UnitFrac, v: UnitFrac)
    requires
        0 <= h < 360,
        s.wf(),
        v.wf(),
        s.num == 0,
    ensures
        spec_hsv_rgba(h, s, v).r == spec_hsv_rgba(h, s, v).g,
        spec_hsv_rgba(h, s, v).g == spec_hsv_rgba(h, s, v).b,
{
    let sn = s.num as int;
    let sd = s.den as int;
    let vn = v.num as int;
    assert(60 * vn * (sd - sn) == 60 * vn * sd && vn * sn * (h % 60) == 0 && vn * sn * (60 - h
        % 60) == 0) by (nonlinear_arith)
        requires
            sn == 0,
    ;
}

} // verus!
