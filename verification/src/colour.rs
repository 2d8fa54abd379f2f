//! Colours in linear RGB, and the textual pixel codec.
//!
//! A colour holds three fixed-point channels, nominally in `[0, 1]` but free
//! to exceed that before gamma mapping. The codec gamma-corrects each channel
//! (square root), clamps it, quantizes it to a byte and writes the three
//! bytes as whitespace-separated decimal numbers.

use vstd::prelude::*;
use vstd::string::StringExecFns;
use crate::fixed::{
    fx_add, fx_sub, fx_mul, fx_sqrt, fx_wf,
    add_fx, sub_fx, mul_fx, sqrt_fx, SCALE,
};
use crate::interval::{Interval, spec_clamp};
use crate::random::{random_fx, random_fx_bounded};

verus! {

/// Mathematical model of a colour: unbounded fixed-point channels.
pub struct C3 {
    pub r: int,
    pub g: int,
    pub b: int,
}

/// A colour in linear RGB, each channel a fixed-point scalar.
#[derive(Clone, Copy, Debug, PartialEq, Eq, Structural)]
pub struct Colour {
    pub red: i64,
    pub green: i64,
    pub blue: i64,
}

impl View for Colour {
    type V = C3;

    open spec fn view(&self) -> C3 {
        C3 { r: self.red as int, g: self.green as int, b: self.blue as int }
    }
}

pub open spec fn c3_wf(c: C3) -> bool {
    fx_wf(c.r) && fx_wf(c.g) && fx_wf(c.b)
}

/// Every channel lies in `[0, 1]`.
pub open spec fn c3_unit_range(c: C3) -> bool {
    0 <= c.r <= SCALE && 0 <= c.g <= SCALE && 0 <= c.b <= SCALE
}

/// Attenuating one unit-range colour by another stays unit-range, and no
/// channel exceeds either factor.
pub proof fn lemma_c3_mul_unit(a: C3, b: C3)
    requires
        c3_unit_range(a),
        c3_unit_range(b),
    ensures
        c3_unit_range(c3_mul(a, b)),
{
    crate::fixed::lemma_fx_mul_unit(a.r, b.r);
    crate::fixed::lemma_fx_mul_unit(a.g, b.g);
    crate::fixed::lemma_fx_mul_unit(a.b, b.b);
}

pub open spec fn c3_black() -> C3 {
    C3 { r: 0, g: 0, b: 0 }
}

pub open spec fn c3_add(a: C3, b: C3) -> C3 {
    C3 { r: fx_add(a.r, b.r), g: fx_add(a.g, b.g), b: fx_add(a.b, b.b) }
}

pub open spec fn c3_sub(a: C3, b: C3) -> C3 {
    C3 { r: fx_sub(a.r, b.r), g: fx_sub(a.g, b.g), b: fx_sub(a.b, b.b) }
}

/// Channel-wise product: attenuation of one colour by another.
pub open spec fn c3_mul(a: C3, b: C3) -> C3 {
    C3 { r: fx_mul(a.r, b.r), g: fx_mul(a.g, b.g), b: fx_mul(a.b, b.b) }
}

/// Every channel scaled by the fixed-point factor `t`.
pub open spec fn c3_scale(t: int, a: C3) -> C3 {
    C3 { r: fx_mul(t, a.r), g: fx_mul(t, a.g), b: fx_mul(t, a.b) }
}

impl Colour {
    pub open spec fn wf(&self) -> bool {
        c3_wf(self@)
    }

    /// Creates a new `Colour` with the given red, green, and blue components.
    pub fn new(r: i64, g: i64, b: i64) -> (c: Colour)
        requires
            fx_wf(r as int),
            fx_wf(g as int),
            fx_wf(b as int),
        ensures
            c@ == (C3 { r: r as int, g: g as int, b: b as int }),
            c.wf(),
    {
        Colour { red: r, green: g, blue: b }
    }

    /// The colour with every channel zero.
    pub fn black() -> (c: Colour)
        ensures
            c@ == c3_black(),
            c.wf(),
    {
        Colour { red: 0, green: 0, blue: 0 }
    }

    /// Get the red channel of the colour.
    pub fn r(&self) -> (v: i64)
        ensures
            v == self.red,
    {
        self.red
    }

    /// Get the green channel of the colour.
    pub fn g(&self) -> (v: i64)
        ensures
            v == self.green,
    {
        self.green
    }

    /// Get the blue channel of the colour.
    pub fn b(&self) -> (v: i64)
        ensures
            v == self.blue,
    {
        self.blue
    }

    /// Generate a random colour with every channel in `[0, 1]`.
    pub fn random() -> (c: Colour)
        ensures
            c.wf(),
            0 <= c@.r <= SCALE,
            0 <= c@.g <= SCALE,
            0 <= c@.b <= SCALE,
    {
        Colour { red: random_fx(), green: random_fx(), blue: random_fx() }
    }

    /// Generate a random colour with each channel bounded: in `[min, max)`,
    /// or exactly `min` when the bounds coincide.
    pub fn random_bounded(min: i64, max: i64) -> (c: Colour)
        requires
            fx_wf(min as int),
            fx_wf(max as int),
            min <= max,
        ensures
            c.wf(),
            min == max ==> c@ == (C3 { r: min as int, g: min as int, b: min as int }),
            min < max ==> min <= c@.r < max && min <= c@.g < max && min <= c@.b < max,
    {
        if min == max {
            Colour { red: min, green: min, blue: min }
        } else {
            Colour {
                red: random_fx_bounded(min, max),
                green: random_fx_bounded(min, max),
                blue: random_fx_bounded(min, max),
            }
        }
    }

    /// Channel-wise sum.
    pub fn cadd(&self, o: &Colour) -> (c: Colour)
        requires
            self.wf(),
            o.wf(),
        ensures
            c@ == c3_add(self@, o@),
            c.wf(),
    {
        Colour {
            red: add_fx(self.red, o.red),
            green: add_fx(self.green, o.green),
            blue: add_fx(self.blue, o.blue),
        }
    }

    /// Channel-wise difference.
    pub fn csub(&self, o: &Colour) -> (c: Colour)
        requires
            self.wf(),
            o.wf(),
        ensures
            c@ == c3_sub(self@, o@),
            c.wf(),
    {
        Colour {
            red: sub_fx(self.red, o.red),
            green: sub_fx(self.green, o.green),
            blue: sub_fx(self.blue, o.blue),
        }
    }

    /// Channel-wise product: attenuation of one colour by another.
    pub fn cmul(&self, o: &Colour) -> (c: Colour)
        requires
            self.wf(),
            o.wf(),
        ensures
            c@ == c3_mul(self@, o@),
            c.wf(),
    {
        Colour {
            red: mul_fx(self.red, o.red),
            green: mul_fx(self.green, o.green),
            blue: mul_fx(self.blue, o.blue),
        }
    }

    /// Every channel scaled by the fixed-point factor `t`.
    pub fn cscale(&self, t: i64) -> (c: Colour)
        requires
            self.wf(),
            fx_wf(t as int),
        ensures
            c@ == c3_scale(t as int, self@),
            c.wf(),
    {
        Colour {
            red: mul_fx(t, self.red),
            green: mul_fx(t, self.green),
            blue: mul_fx(t, self.blue),
        }
    }

    /// The pixel text of this colour: three gamma-corrected, quantized
    /// channels as decimal bytes separated by single spaces.
    pub fn to_text(&self) -> (s: String)
        requires
            self.wf(),
        ensures
            s@ == colour_text(self@),
    {
        let rb: u64 = quantize(self.red);
        let gb: u64 = quantize(self.green);
        let bb: u64 = quantize(self.blue);
        let mut s: String = u64_to_dec(rb);
        let space: &str = " ";
        proof {
            reveal_strlit(" ");
            assert(space@ =~= seq![' ']);
        }
        s.append(space);
        let gs: String = u64_to_dec(gb);
        s.append(gs.as_str());
        s.append(space);
        let bs: String = u64_to_dec(bb);
        s.append(bs.as_str());
        proof {
            assert(s@ =~= colour_text(self@));
        }
        s
    }
}

/// Gamma correction (gamma two): the square root of a positive channel.
pub open spec fn gamma_s(x: int) -> int {
    if x > 0 {
        fx_sqrt(x)
    } else {
        0
    }
}

/// Converts a linear colour component to a gamma-corrected component.
fn linear_to_gamma(x: i64) -> (r: i64)
    requires
        fx_wf(x as int),
    ensures
        r as int == gamma_s(x as int),
        r >= 0,
        fx_wf(r as int),
{
    if x > 0 {
        sqrt_fx(x)
    } else {
        0
    }
}

/// The largest gamma-corrected intensity the codec lets through: just below
/// one, so that quantization stays within a byte.
pub const INTENSITY_MAX: i64 = 65470;

/// The byte a channel quantizes to: its gamma-corrected value, clamped to
/// `[0, INTENSITY_MAX]` and mapped onto `[0, 255]`.
pub open spec fn byte_of(x: int) -> int {
    spec_clamp(Interval { min: 0, max: INTENSITY_MAX }, gamma_s(x)) / 256
}

/// Quantize one channel to a byte value.
fn quantize(x: i64) -> (b: u64)
    requires
        fx_wf(x as int),
    ensures
        b as int == byte_of(x as int),
        b <= 255,
{
    let g: i64 = linear_to_gamma(x);
    let intensity: Interval = Interval::new(0, INTENSITY_MAX);
    let clamped: i64 = intensity.clamp(g);
    (clamped as u64) / 256
}

/// The decimal digit characters.
pub open spec fn dec_digit(d: int) -> char {
    if d == 0 {
        '0'
    } else if d == 1 {
        '1'
    } else if d == 2 {
        '2'
    } else if d == 3 {
        '3'
    } else if d == 4 {
        '4'
    } else if d == 5 {
        '5'
    } else if d == 6 {
        '6'
    } else if d == 7 {
        '7'
    } else if d == 8 {
        '8'
    } else {
        '9'
    }
}

/// The decimal representation of a nonnegative integer, as characters.
pub open spec fn dec_seq(n: int) -> Seq<char>
    decreases n,
{
    if n < 10 {
        seq![dec_digit(n)]
    } else {
        dec_seq(n / 10).push(dec_digit(n % 10))
    }
}

/// The single-character text of one decimal digit.
fn digit_str(d: u64) -> (s: &'static str)
    requires
        d < 10,
    ensures
        s@ == seq![dec_digit(d as int)],
{
    proof {
        reveal_strlit("0");
        reveal_strlit("1");
        reveal_strlit("2");
        reveal_strlit("3");
        reveal_strlit("4");
        reveal_strlit("5");
        reveal_strlit("6");
        reveal_strlit("7");
        reveal_strlit("8");
        reveal_strlit("9");
    }
    let s: &'static str = match d {
        0 => "0",
        1 => "1",
        2 => "2",
        3 => "3",
        4 => "4",
        5 => "5",
        6 => "6",
        7 => "7",
        8 => "8",
        _ => "9",
    };
    proof {
        assert(s@ =~= seq![dec_digit(d as int)]);
    }
    s
}

/// The decimal text of a nonnegative number.
pub fn u64_to_dec(n: u64) -> (s: String)
    ensures
        s@ == dec_seq(n as int),
    decreases n,
{
    if n < 10 {
        let mut s: String = String::new();
        s.append(digit_str(n));
        proof {
            assert(s@ =~= dec_seq(n as int));
        }
        s
    } else {
        let mut s: String = u64_to_dec(n / 10);
        s.append(digit_str(n % 10));
        proof {
            assert(s@ =~= dec_seq(n as int));
        }
        s
    }
}

/// The pixel text of a colour: three quantized channels in decimal,
/// separated by single spaces.
pub open spec fn colour_text(c: C3) -> Seq<char> {
    dec_seq(byte_of(c.r)) + seq![' '] + dec_seq(byte_of(c.g)) + seq![' ']
        + dec_seq(byte_of(c.b))
}

} // verus!
