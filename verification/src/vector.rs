//! Points and vectors on the integer lattice, and vectors given by a
//! direction and a length.

use vstd::prelude::*;

verus! {

/// A position in the world, in whole world units.
#[derive(Clone, Copy, Debug, PartialEq, Eq, Structural)]
pub struct Point {
    pub x: i32,
    pub y: i32,
}

/// A displacement or direction on the lattice.
#[derive(Clone, Copy, Debug, PartialEq, Eq, Structural)]
pub struct Vector {
    pub x: i64,
    pub y: i64,
}

/// The largest component, in absolute value, of a direction that
/// [`Directed::resolve`] accepts.
pub const DIRECTION_LIMIT: i64 = 0x4_0000_0000;

/// The largest length that [`Directed::resolve`] accepts.
pub const MAGNITUDE_LIMIT: u32 = 1_000_000;

/// The displacement that leads from `from` to `to`.
pub open spec fn offset(from: Point, to: Point) -> Vector {
    Vector { x: (to.x - from.x) as i64, y: (to.y - from.y) as i64 }
}

/// `t` is the whole part of `magnitude * |component| / sqrt(norm2)`.
pub open spec fn is_scaled_part(t: int, magnitude: int, component: int, norm2: int) -> bool {
    &&& 0 <= t
    &&& t * t * norm2 <= magnitude * magnitude * (component * component)
    &&& magnitude * magnitude * (component * component) < (t + 1) * (t + 1) * norm2
}

/// `r` is `component` of a vector of squared length `norm2`, rescaled to the
/// length `magnitude` and rounded toward zero.
pub open spec fn is_scaled_component(r: int, magnitude: int, component: int, norm2: int) -> bool {
    &&& component >= 0 ==> is_scaled_part(r, magnitude, component, norm2)
    &&& component <= 0 ==> is_scaled_part(-r, magnitude, component, norm2)
}

/// Whether `p` moved by `v` is still a point of the lattice.
pub open spec fn on_lattice(p: Point, v: Vector) -> bool {
    i32::MIN <= p.x + v.x <= i32::MAX && i32::MIN <= p.y + v.y <= i32::MAX
}

/// `p` moved by `v`.
pub open spec fn translated(p: Point, v: Vector) -> Point {
    Point { x: (p.x + v.x) as i32, y: (p.y + v.y) as i32 }
}

impl Point {
    /// `self` moved by `v`, or `None` where that leaves the lattice.
    pub fn moved_by(&self, v: Vector) -> (p: Option<Point>)
        ensures
            p == (if on_lattice(*self, v) {
                Some(translated(*self, v))
            } else {
                None
            }),
            p matches Some(q) ==> q.x == self.x + v.x && q.y == self.y + v.y,
    {
        let x: i128 = self.x as i128 + v.x as i128;
        let y: i128 = self.y as i128 + v.y as i128;
        if -0x8000_0000 <= x && x <= 0x7fff_ffff && -0x8000_0000 <= y && y <= 0x7fff_ffff {
            Some(Point { x: x as i32, y: y as i32 })
        } else {
            None
        }
    }

    /// The displacement that leads from `self` to `to`.
    pub fn to(&self, to: Point) -> (d: Vector)
        ensures
            d == offset(*self, to),
            d.x == to.x - self.x,
            d.y == to.y - self.y,
    {
        let dx: i64 = to.x as i64 - self.x as i64;
        let dy: i64 = to.y as i64 - self.y as i64;
        Vector { x: dx, y: dy }
    }
}

impl Vector {
    /// Both components have a negative: neither is the least `i64`.
    pub open spec fn symmetric(self) -> bool {
        self.x > i64::MIN && self.y > i64::MIN
    }

    /// No component exceeds `limit` in absolute value.
    pub open spec fn within(self, limit: int) -> bool {
        -limit <= self.x <= limit && -limit <= self.y <= limit
    }

    /// The scalar product of `self` and `other`.
    pub open spec fn dot_spec(self, other: Vector) -> int {
        self.x * other.x + self.y * other.y
    }

    /// The square of the length of `self`.
    pub open spec fn norm2(self) -> int {
        self.x * self.x + self.y * self.y
    }

    /// `self` turned by a quarter, from the radial to the clockwise direction:
    /// `(y, -x)`.
    pub open spec fn tangent_spec(self) -> Vector {
        Vector { x: self.y, y: (-self.x) as i64 }
    }

    /// `self` reversed.
    pub open spec fn reversed_spec(self) -> Vector {
        Vector { x: (-self.x) as i64, y: (-self.y) as i64 }
    }

    /// Whether both components are zero.
    pub fn is_zero(&self) -> (z: bool)
        ensures
            z == (self.x == 0 && self.y == 0),
            z == (self.norm2() == 0),
    {
        proof {
            let x = self.x as int;
            let y = self.y as int;
            assert(x * x >= 0 && y * y >= 0 && (x != 0 ==> x * x > 0) && (y != 0 ==> y * y > 0))
                by (nonlinear_arith);
        }
        self.x == 0 && self.y == 0
    }

    /// The scalar product of `self` and `other`.
    pub fn dot(&self, other: &Vector) -> (p: i128)
        requires
            self.symmetric(),
            other.symmetric(),
        ensures
            p == self.dot_spec(*other),
    {
        proof {
            lemma_product_bound(self.x as int, other.x as int, i64::MAX as int);
            lemma_product_bound(self.y as int, other.y as int, i64::MAX as int);
        }
        let a: i128 = (self.x as i128) * (other.x as i128);
        let b: i128 = (self.y as i128) * (other.y as i128);
        a + b
    }

    /// The square of the length of `self`.
    pub fn length_squared(&self) -> (n: u128)
        ensures
            n == self.norm2(),
    {
        proof {
            lemma_product_bound(self.x as int, self.x as int, 0x8000_0000_0000_0000);
            lemma_product_bound(self.y as int, self.y as int, 0x8000_0000_0000_0000);
            let x = self.x as int;
            let y = self.y as int;
            assert(x * x >= 0 && y * y >= 0) by (nonlinear_arith);
        }
        let a: i128 = (self.x as i128) * (self.x as i128);
        let b: i128 = (self.y as i128) * (self.y as i128);
        a as u128 + b as u128
    }

    /// `self` turned by a quarter: `(y, -x)`.
    pub fn tangent(&self) -> (t: Vector)
        requires
            self.symmetric(),
        ensures
            t == self.tangent_spec(),
            t.x == self.y,
            t.y == -self.x,
    {
        Vector { x: self.y, y: -self.x }
    }

    /// `self` reversed.
    pub fn reversed(&self) -> (r: Vector)
        requires
            self.symmetric(),
        ensures
            r == self.reversed_spec(),
            r.x == -self.x,
            r.y == -self.y,
    {
        Vector { x: -self.x, y: -self.y }
    }
}

/// A product of two numbers within `limit` of zero is within `limit * limit`
/// of zero.
pub proof fn lemma_product_bound(a: int, b: int, limit: int)
    requires
        -limit <= a <= limit,
        -limit <= b <= limit,
    ensures
        -(limit * limit) <= a * b <= limit * limit,
{
    assert(-(limit * limit) <= a * b <= limit * limit) by (nonlinear_arith)
        requires
            -limit <= a <= limit,
            -limit <= b <= limit,
    ;
}

} // verus!
