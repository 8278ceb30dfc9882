//! Fixed-point plane geometry: vectors, rectangles and colors.
//!
//! All coordinates are signed 64-bit integers counted in milli-units: the
//! value 1000 stands for one logical unit of the interface. Additions wrap
//! around on overflow, which keeps every operation total and makes an offset
//! followed by its inverse restore the original value exactly.

use vstd::prelude::*;

verus! {

/// One logical unit expressed in milli-units.
pub const MILLI: i64 = 1000;

/// A point or extent in the plane, in milli-units.
#[derive(Clone, Copy, PartialEq, Eq, Structural, Debug)]
pub struct Vec2 {
    pub x: i64,
    pub y: i64,
}

/// An axis-aligned rectangle given by two corners.
#[derive(Clone, Copy, PartialEq, Eq, Structural, Debug)]
pub struct Rect {
    pub min: Vec2,
    pub max: Vec2,
}

/// A color in discrete sRGB with straight alpha.
#[derive(Clone, Copy, PartialEq, Eq, Structural, Debug)]
pub struct Color {
    pub r: u8,
    pub g: u8,
    pub b: u8,
    pub a: u8,
}

impl Vec2 {
    /// The componentwise wrapping sum of two vectors.
    pub open spec fn spec_plus(self, o: Vec2) -> Vec2 {
        Vec2 { x: self.x.wrapping_add(o.x), y: self.y.wrapping_add(o.y) }
    }

    /// The componentwise wrapping difference of two vectors.
    pub open spec fn spec_minus(self, o: Vec2) -> Vec2 {
        Vec2 { x: self.x.wrapping_sub(o.x), y: self.y.wrapping_sub(o.y) }
    }

    /// The componentwise wrapping negation of a vector.
    pub open spec fn spec_wneg(self) -> Vec2 {
        Vec2 { x: (0i64).wrapping_sub(self.x), y: (0i64).wrapping_sub(self.y) }
    }

    /// The componentwise maximum of two vectors.
    pub open spec fn spec_component_max(self, o: Vec2) -> Vec2 {
        Vec2 {
            x: if self.x >= o.x { self.x } else { o.x },
            y: if self.y >= o.y { self.y } else { o.y },
        }
    }

    pub fn zero() -> (r: Vec2)
        ensures
            r == (Vec2 { x: 0i64, y: 0i64 }),
    {
        Vec2 { x: 0, y: 0 }
    }

    pub fn plus(self, o: Vec2) -> (r: Vec2)
        ensures
            r == self.spec_plus(o),
    {
        Vec2 { x: self.x.wrapping_add(o.x), y: self.y.wrapping_add(o.y) }
    }

    pub fn minus(self, o: Vec2) -> (r: Vec2)
        ensures
            r == self.spec_minus(o),
    {
        Vec2 { x: self.x.wrapping_sub(o.x), y: self.y.wrapping_sub(o.y) }
    }

    pub fn wneg(self) -> (r: Vec2)
        ensures
            r == self.spec_wneg(),
    {
        Vec2 { x: 0i64.wrapping_sub(self.x), y: 0i64.wrapping_sub(self.y) }
    }

    pub fn component_max(self, o: Vec2) -> (r: Vec2)
        ensures
            r == self.spec_component_max(o),
    {
        Vec2 {
            x: if self.x >= o.x { self.x } else { o.x },
            y: if self.y >= o.y { self.y } else { o.y },
        }
    }
}

/// Adding a vector and then its wrapping negation restores the original
/// vector: the inversion used by every offsetting tree node is exact.
pub proof fn lemma_plus_wneg_cancels(v: Vec2, o: Vec2)
    ensures
        v.spec_plus(o.spec_wneg()).spec_plus(o) == v,
        v.spec_plus(o).spec_plus(o.spec_wneg()) == v,
{
}

impl Rect {
    /// The rectangle with its lower corner at the origin.
    pub open spec fn spec_new_origin(size: Vec2) -> Rect {
        Rect { min: Vec2 { x: 0i64, y: 0i64 }, max: size }
    }

    /// Inclusive containment under the L-infinity view of the rectangle.
    pub open spec fn spec_contains_linf(self, p: Vec2) -> bool {
        self.min.x <= p.x <= self.max.x && self.min.y <= p.y <= self.max.y
    }

    /// The componentwise wrapping extent of the rectangle.
    pub open spec fn spec_size(self) -> Vec2 {
        self.max.spec_minus(self.min)
    }

    pub fn new_origin(size: Vec2) -> (r: Rect)
        ensures
            r == Rect::spec_new_origin(size),
    {
        Rect { min: Vec2 { x: 0, y: 0 }, max: size }
    }

    pub fn contains_linf(self, p: Vec2) -> (r: bool)
        ensures
            r == self.spec_contains_linf(p),
    {
        self.min.x <= p.x && p.x <= self.max.x && self.min.y <= p.y && p.y <= self.max.y
    }

    pub fn size(self) -> (r: Vec2)
        ensures
            r == self.spec_size(),
    {
        self.max.minus(self.min)
    }
}

impl Color {
    /// A color from discrete sRGB channel values.
    pub fn from_discrete_srgb(r: u8, g: u8, b: u8, a: u8) -> (c: Color)
        ensures
            c == (Color { r, g, b, a }),
    {
        Color { r, g, b, a }
    }
}

/// Truncating division of `n` by a positive `d`: rounding is toward zero, as
/// the machine division instruction rounds.
pub open spec fn tdiv(n: int, d: int) -> int
    recommends
        d > 0,
{
    if n >= 0 {
        n / d
    } else {
        -((-n) / d)
    }
}

/// `x` pressed into the range of `i64`.
pub open spec fn sat64(x: int) -> i64 {
    if x > i64::MAX {
        i64::MAX
    } else if x < i64::MIN {
        i64::MIN
    } else {
        x as i64
    }
}

/// Division of nonnegative `a` by positive `b`.
pub fn div_nn(a: i64, b: i64) -> (r: i64)
    requires
        0 <= a,
        0 < b,
    ensures
        r == a as int / b as int,
{
    ((a as u64) / (b as u64)) as i64
}

/// `a * b / d` with the product taken exactly and the quotient truncated
/// toward zero, then pressed into `i64`.
pub fn muldiv(a: i64, b: i64, d: i64) -> (r: i64)
    requires
        0 < d,
    ensures
        r == sat64(tdiv(a as int * b as int, d as int)),
{
    let wa: i128 = a as i128;
    let wb: i128 = b as i128;
    let neg: bool = (wa < 0) != (wb < 0);
    let ma: u128 = if wa < 0 { (-wa) as u128 } else { wa as u128 };
    let mb: u128 = if wb < 0 { (-wb) as u128 } else { wb as u128 };
    proof {
        lemma_abs_mul(a as int, b as int);
        assert(ma as int == if a as int >= 0 { a as int } else { -(a as int) });
        assert(mb as int == if b as int >= 0 { b as int } else { -(b as int) });
        assert(ma * mb <= 0x8000_0000_0000_0000u128 * 0x8000_0000_0000_0000u128)
            by (nonlinear_arith)
            requires
                ma <= 0x8000_0000_0000_0000u128 && mb <= 0x8000_0000_0000_0000u128,
        ;
    }
    let m: u128 = ma * mb;
    let q: u128 = m / (d as u128);
    proof {
        let p = a as int * b as int;
        assert(m as int == if p >= 0 { p } else { -p });
        assert(q as int == (if p >= 0 { p } else { -p }) / d as int);
        if p >= 0 {
            assert(tdiv(p, d as int) == q as int);
        } else {
            assert(tdiv(p, d as int) == -(q as int));
        }
        if a as int >= 0 && b as int >= 0 {
            assert(p >= 0) by (nonlinear_arith)
                requires
                    a as int >= 0 && b as int >= 0 && p == a as int * b as int,
            ;
        } else if (a as int) < 0 && (b as int) < 0 {
            assert(p >= 0) by (nonlinear_arith)
                requires
                    (a as int) < 0 && (b as int) < 0 && p == a as int * b as int,
            ;
        } else {
            assert(p <= 0) by (nonlinear_arith)
                requires
                    ((a as int) < 0) != ((b as int) < 0) && p == a as int * b as int,
            ;
        }
    }
    if neg && q > 0 {
        if q > (i64::MAX as u128) + 1 {
            i64::MIN
        } else {
            (-(q as i128)) as i64
        }
    } else if !neg && q > 0 {
        if q > i64::MAX as u128 {
            i64::MAX
        } else {
            q as i64
        }
    } else {
        0
    }
}

/// The magnitude of a product is the product of the magnitudes.
proof fn lemma_abs_mul(a: int, b: int)
    ensures
        (if a >= 0 { a } else { -a }) * (if b >= 0 { b } else { -b }) == if a * b >= 0 {
            a * b
        } else {
            -(a * b)
        },
{
    if a >= 0 && b >= 0 {
        assert(a * b >= 0) by (nonlinear_arith)
            requires
                a >= 0 && b >= 0,
        ;
    } else if a >= 0 && b < 0 {
        assert(a * b <= 0 && a * (-b) == -(a * b)) by (nonlinear_arith)
            requires
                a >= 0 && b < 0,
        ;
        if a * b == 0 {
        }
    } else if a < 0 && b >= 0 {
        assert(a * b <= 0 && (-a) * b == -(a * b)) by (nonlinear_arith)
            requires
                a < 0 && b >= 0,
        ;
    } else {
        assert(a * b > 0 && (-a) * (-b) == a * b) by (nonlinear_arith)
            requires
                a < 0 && b < 0,
        ;
    }
}

} // verus!
