//! Vectors given exactly, by a direction on the lattice and a length, and
//! their resolution to whole units.

use vstd::prelude::*;
use crate::vector::{Vector, DIRECTION_LIMIT, MAGNITUDE_LIMIT, is_scaled_component, is_scaled_part};

verus! {

/// The vector of length `magnitude` that points the way `along` points. Only
/// the direction of `along` counts, not its length. Where `along` is zero
/// there is no direction, and the vector is zero.
#[derive(Clone, Copy, Debug, PartialEq, Eq, Structural)]
pub struct Directed {
    pub along: Vector,
    pub magnitude: u32,
}

impl Directed {
    /// The direction and the length are small enough to resolve.
    pub open spec fn resolvable(self) -> bool {
        self.along.within(DIRECTION_LIMIT as int) && self.magnitude <= MAGNITUDE_LIMIT
    }

    /// `r` is this vector with each component rounded toward zero.
    pub open spec fn resolves_to(self, r: Vector) -> bool {
        if self.along.norm2() == 0 {
            r.x == 0 && r.y == 0
        } else {
            &&& is_scaled_component(
                r.x as int,
                self.magnitude as int,
                self.along.x as int,
                self.along.norm2(),
            )
            &&& is_scaled_component(
                r.y as int,
                self.magnitude as int,
                self.along.y as int,
                self.along.norm2(),
            )
        }
    }

    /// The components of this vector in whole units, each rounded toward
    /// zero.
    pub fn resolve(&self) -> (r: Vector)
        requires
            self.resolvable(),
        ensures
            self.resolves_to(r),
            r.within(self.magnitude as int),
            self.along.x == 0 ==> r.x == 0,
            self.along.y == 0 ==> r.y == 0,
            self.along.y == 0 && self.along.x > 0 ==> r.x == self.magnitude,
            self.along.y == 0 && self.along.x < 0 ==> r.x == -self.magnitude,
            self.along.x == 0 && self.along.y > 0 ==> r.y == self.magnitude,
            self.along.x == 0 && self.along.y < 0 ==> r.y == -self.magnitude,
    {
        proof {
            crate::vector::lemma_product_bound(
                self.along.x as int,
                self.along.x as int,
                DIRECTION_LIMIT as int,
            );
            crate::vector::lemma_product_bound(
                self.along.y as int,
                self.along.y as int,
                DIRECTION_LIMIT as int,
            );
        }
        if self.along.is_zero() {
            return Vector { x: 0, y: 0 };
        }
        let n: u128 = self.along.length_squared();
        proof {
            let x = self.along.x as int;
            let y = self.along.y as int;
            assert(x * x >= 0 && y * y >= 0) by (nonlinear_arith);
        }
        let x: i64 = scaled_component(self.magnitude, self.along.x, n);
        let y: i64 = scaled_component(self.magnitude, self.along.y, n);
        let r = Vector { x, y };
        proof {
            if self.along.x == 0 || self.along.y == 0 {
                law_axis_resolution_is_exact(*self, r);
            }
        }
        r
    }
}

impl Directed {
    /// Whether the direction and the length are small enough to resolve.
    pub fn can_resolve(&self) -> (yes: bool)
        ensures
            yes == self.resolvable(),
    {
        -DIRECTION_LIMIT <= self.along.x && self.along.x <= DIRECTION_LIMIT && -DIRECTION_LIMIT
            <= self.along.y && self.along.y <= DIRECTION_LIMIT && self.magnitude
            <= MAGNITUDE_LIMIT
    }

    /// The components of this vector in whole units, each rounded toward
    /// zero, or `None` where the direction or the length is too large to
    /// resolve.
    pub fn try_resolve(&self) -> (r: Option<Vector>)
        ensures
            r is Some <==> self.resolvable(),
            r is Some ==> self.resolves_to(r->0) && r->0.within(self.magnitude as int),
            r is Some && self.along.x == 0 ==> r->0.x == 0,
            r is Some && self.along.y == 0 ==> r->0.y == 0,
            r is Some && self.along.y == 0 && self.along.x > 0 ==> r->0.x == self.magnitude,
            r is Some && self.along.y == 0 && self.along.x < 0 ==> r->0.x == -self.magnitude,
            r is Some && self.along.x == 0 && self.along.y > 0 ==> r->0.y == self.magnitude,
            r is Some && self.along.x == 0 && self.along.y < 0 ==> r->0.y == -self.magnitude,
    {
        if self.can_resolve() {
            Some(self.resolve())
        } else {
            None
        }
    }
}

/// A vector resolves to one lattice vector only.
pub proof fn law_resolution_is_unique(d: Directed, r1: Vector, r2: Vector)
    requires
        d.resolves_to(r1),
        d.resolves_to(r2),
    ensures
        r1 == r2,
{
    let n = d.along.norm2();
    if n != 0 {
        let x = d.along.x as int;
        let y = d.along.y as int;
        assert(x * x >= 0 && y * y >= 0) by (nonlinear_arith);
        lemma_scaled_component_is_unique(r1.x as int, r2.x as int, d.magnitude as int, x, n);
        lemma_scaled_component_is_unique(r1.y as int, r2.y as int, d.magnitude as int, y, n);
    }
}

/// Only the direction of `along` counts, not its length: two vectors of the
/// same length whose directions are positive multiples of each other, `a`
/// times the one being `b` times the other, resolve to the same lattice
/// vector.
pub proof fn law_only_the_direction_counts(d1: Directed, d2: Directed, a: int, b: int, r: Vector)
    requires
        d1.magnitude == d2.magnitude,
        a > 0,
        b > 0,
        a * d1.along.x == b * d2.along.x,
        a * d1.along.y == b * d2.along.y,
        d1.resolves_to(r),
    ensures
        d2.resolves_to(r),
{
    let x1 = d1.along.x as int;
    let y1 = d1.along.y as int;
    let x2 = d2.along.x as int;
    let y2 = d2.along.y as int;
    let n1 = d1.along.norm2();
    let n2 = d2.along.norm2();
    let m = d1.magnitude as int;
    assert(x1 * x1 >= 0 && y1 * y1 >= 0 && x2 * x2 >= 0 && y2 * y2 >= 0) by (nonlinear_arith);
    assert((x1 == 0 <==> x2 == 0) && (y1 == 0 <==> y2 == 0) && (x1 > 0 <==> x2 > 0) && (y1 > 0
        <==> y2 > 0)) by (nonlinear_arith)
        requires
            a > 0,
            b > 0,
            a * x1 == b * x2,
            a * y1 == b * y2,
    ;
    assert((x1 != 0 ==> x1 * x1 > 0) && (y1 != 0 ==> y1 * y1 > 0) && (x2 != 0 ==> x2 * x2 > 0)
        && (y2 != 0 ==> y2 * y2 > 0)) by (nonlinear_arith);
    if n1 != 0 {
        assert(n2 > 0 && n1 > 0);
        assert((a * x1) * (a * x1) == a * a * (x1 * x1) && (a * y1) * (a * y1) == a * a * (y1
            * y1) && (b * x2) * (b * x2) == b * b * (x2 * x2) && (b * y2) * (b * y2) == b * b
            * (y2 * y2)) by (nonlinear_arith);
        assert(a * a * (x1 * x1) == b * b * (x2 * x2));
        assert(a * a * (y1 * y1) == b * b * (y2 * y2));
        assert(a * a * n1 == b * b * n2) by (nonlinear_arith)
            requires
                a * a * (x1 * x1) == b * b * (x2 * x2),
                a * a * (y1 * y1) == b * b * (y2 * y2),
                n1 == x1 * x1 + y1 * y1,
                n2 == x2 * x2 + y2 * y2,
        ;
        let tx = if x1 >= 0 {
            r.x as int
        } else {
            -r.x
        };
        let ty = if y1 >= 0 {
            r.y as int
        } else {
            -r.y
        };
        lemma_scaled_part_keeps_under_stretch(tx, m, x1, n1, x2, n2, a, b);
        lemma_scaled_part_keeps_under_stretch(ty, m, y1, n1, y2, n2, a, b);
        if x1 == 0 {
            lemma_scaled_part_keeps_under_stretch(-tx, m, x1, n1, x2, n2, a, b);
        }
        if y1 == 0 {
            lemma_scaled_part_keeps_under_stretch(-ty, m, y1, n1, y2, n2, a, b);
        }
    }
}

/// The whole part of a rescaled component stays the same where the vector is
/// stretched: `a` times the one vector is `b` times the other.
proof fn lemma_scaled_part_keeps_under_stretch(
    t: int,
    m: int,
    x1: int,
    n1: int,
    x2: int,
    n2: int,
    a: int,
    b: int,
)
    requires
        a > 0,
        b > 0,
        a * a * (x1 * x1) == b * b * (x2 * x2),
        a * a * n1 == b * b * n2,
        is_scaled_part(t, m, x1, n1),
    ensures
        is_scaled_part(t, m, x2, n2),
{
    let low1 = t * t * n1;
    let mid1 = m * m * (x1 * x1);
    let high1 = (t + 1) * (t + 1) * n1;
    let low2 = t * t * n2;
    let mid2 = m * m * (x2 * x2);
    let high2 = (t + 1) * (t + 1) * n2;
    let aa = a * a;
    let bb = b * b;
    assert(aa > 0 && bb > 0) by (nonlinear_arith)
        requires
            a > 0,
            b > 0,
            aa == a * a,
            bb == b * b,
    ;
    assert(aa * low1 == bb * low2) by (nonlinear_arith)
        requires
            aa * n1 == bb * n2,
            low1 == t * t * n1,
            low2 == t * t * n2,
    ;
    assert(aa * high1 == bb * high2) by (nonlinear_arith)
        requires
            aa * n1 == bb * n2,
            high1 == (t + 1) * (t + 1) * n1,
            high2 == (t + 1) * (t + 1) * n2,
    ;
    assert(aa * mid1 == bb * mid2) by (nonlinear_arith)
        requires
            aa * (x1 * x1) == bb * (x2 * x2),
            mid1 == m * m * (x1 * x1),
            mid2 == m * m * (x2 * x2),
    ;
    assert(low2 <= mid2 && mid2 < high2) by (nonlinear_arith)
        requires
            low1 <= mid1,
            mid1 < high1,
            aa > 0,
            bb > 0,
            aa * low1 == bb * low2,
            aa * mid1 == bb * mid2,
            aa * high1 == bb * high2,
    ;
}

/// Resolving keeps the length as well as whole units allow: the resolved
/// vector is not longer than the length asked for, and it would be longer if
/// each of its components were one unit farther from zero.
pub proof fn law_resolution_keeps_the_length(d: Directed, r: Vector)
    requires
        d.along.norm2() != 0,
        d.resolves_to(r),
    ensures
        r.norm2() <= d.magnitude * d.magnitude,
        d.magnitude * d.magnitude < r.norm2() + 2 * (abs_of(r.x as int) + abs_of(r.y as int)) + 2,
{
    let x = d.along.x as int;
    let y = d.along.y as int;
    let n = d.along.norm2();
    let m = d.magnitude as int;
    let rx = r.x as int;
    let ry = r.y as int;
    let tx = abs_of(rx);
    let ty = abs_of(ry);
    assert(x * x >= 0 && y * y >= 0) by (nonlinear_arith);
    assert(is_scaled_part(tx, m, x, n));
    assert(is_scaled_part(ty, m, y, n));
    assert(tx * tx == rx * rx && ty * ty == ry * ry) by (nonlinear_arith)
        requires
            tx == rx || tx == -rx,
            ty == ry || ty == -ry,
    ;
    assert((tx * tx + ty * ty) * n <= m * m * n) by (nonlinear_arith)
        requires
            tx * tx * n <= m * m * (x * x),
            ty * ty * n <= m * m * (y * y),
            n == x * x + y * y,
    ;
    assert(tx * tx + ty * ty <= m * m) by (nonlinear_arith)
        requires
            (tx * tx + ty * ty) * n <= m * m * n,
            n > 0,
    ;
    assert(m * m * n < ((tx + 1) * (tx + 1) + (ty + 1) * (ty + 1)) * n) by (nonlinear_arith)
        requires
            m * m * (x * x) < (tx + 1) * (tx + 1) * n,
            m * m * (y * y) < (ty + 1) * (ty + 1) * n,
            n == x * x + y * y,
    ;
    assert(m * m < (tx + 1) * (tx + 1) + (ty + 1) * (ty + 1)) by (nonlinear_arith)
        requires
            m * m * n < ((tx + 1) * (tx + 1) + (ty + 1) * (ty + 1)) * n,
            n > 0,
    ;
    assert((tx + 1) * (tx + 1) + (ty + 1) * (ty + 1) == tx * tx + ty * ty + 2 * (tx + ty) + 2)
        by (nonlinear_arith);
}

/// The absolute value of `v`.
pub open spec fn abs_of(v: int) -> int {
    if v < 0 {
        -v
    } else {
        v
    }
}

/// A vector along an axis resolves exactly: one component is the length,
/// with the sign of the direction, and the other is zero.
pub proof fn law_axis_resolution_is_exact(d: Directed, r: Vector)
    requires
        d.along.x == 0 || d.along.y == 0,
        d.along.x != 0 || d.along.y != 0,
        d.resolves_to(r),
    ensures
        d.along.x == 0 ==> r.x == 0,
        d.along.y == 0 ==> r.y == 0,
        d.along.x > 0 ==> r.x == d.magnitude,
        d.along.x < 0 ==> r.x == -d.magnitude,
        d.along.y > 0 ==> r.y == d.magnitude,
        d.along.y < 0 ==> r.y == -d.magnitude,
{
    let x = d.along.x as int;
    let y = d.along.y as int;
    let n = d.along.norm2();
    let m = d.magnitude as int;
    assert(n == x * x + y * y);
    assert(n > 0 && (x == 0 ==> n == y * y) && (y == 0 ==> n == x * x)) by (nonlinear_arith)
        requires
            n == x * x + y * y,
            x == 0 || y == 0,
            x != 0 || y != 0,
    ;
    let ex = if x > 0 {
        m
    } else if x < 0 {
        -m
    } else {
        0
    };
    let ey = if y > 0 {
        m
    } else if y < 0 {
        -m
    } else {
        0
    };
    lemma_full_component(m, x, n, ex);
    lemma_full_component(m, y, n, ey);
    lemma_scaled_component_is_unique(r.x as int, ex, m, x, n);
    lemma_scaled_component_is_unique(r.y as int, ey, m, y, n);
}

/// A component that is the whole vector keeps the whole length, and one that
/// is zero stays zero.
proof fn lemma_full_component(m: int, c: int, n: int, e: int)
    requires
        0 <= m,
        0 < n,
        c == 0 || n == c * c,
        e == (if c > 0 {
            m
        } else if c < 0 {
            -m
        } else {
            0
        }),
    ensures
        is_scaled_component(e, m, c, n),
{
    assert(is_scaled_component(e, m, c, n)) by (nonlinear_arith)
        requires
            0 <= m,
            0 < n,
            c == 0 || n == c * c,
            e == (if c > 0 {
                m
            } else if c < 0 {
                -m
            } else {
                0
            }),
    ;
}

/// Rescaling a component gives one whole number only.
pub proof fn lemma_scaled_component_is_unique(
    r1: int,
    r2: int,
    magnitude: int,
    component: int,
    norm2: int,
)
    requires
        norm2 > 0,
        is_scaled_component(r1, magnitude, component, norm2),
        is_scaled_component(r2, magnitude, component, norm2),
    ensures
        r1 == r2,
{
    if component >= 0 {
        lemma_scaled_part_is_unique(r1, r2, magnitude, component, norm2);
    } else {
        lemma_scaled_part_is_unique(-r1, -r2, magnitude, component, norm2);
    }
}

/// The whole part of a rescaled component is one number only.
pub proof fn lemma_scaled_part_is_unique(
    t1: int,
    t2: int,
    magnitude: int,
    component: int,
    norm2: int,
)
    requires
        norm2 > 0,
        is_scaled_part(t1, magnitude, component, norm2),
        is_scaled_part(t2, magnitude, component, norm2),
    ensures
        t1 == t2,
{
    let v = magnitude * magnitude * (component * component);
    if t1 < t2 {
        assert((t1 + 1) * (t1 + 1) * norm2 <= t2 * t2 * norm2) by (nonlinear_arith)
            requires
                0 <= t1,
                t1 + 1 <= t2,
                norm2 > 0,
        ;
    }
    if t2 < t1 {
        assert((t2 + 1) * (t2 + 1) * norm2 <= t1 * t1 * norm2) by (nonlinear_arith)
            requires
                0 <= t2,
                t2 + 1 <= t1,
                norm2 > 0,
        ;
    }
}

/// The whole part of the square root of `v`.
fn whole_root(v: u64) -> (t: u64)
    requires
        v <= 1_000_000_000_000,
    ensures
        t * t <= v < (t + 1) * (t + 1),
        t <= 1_000_000,
{
    let mut lo: u64 = 0;
    let mut hi: u64 = 1_000_001;
    while hi - lo > 1
        invariant
            lo < hi <= 1_000_001,
            lo * lo <= v < hi * hi,
        decreases hi - lo,
    {
        let mid: u64 = lo + (hi - lo) / 2;
        assert(mid * mid <= 1_000_001 * 1_000_001) by (nonlinear_arith)
            requires
                mid <= 1_000_001,
        ;
        if mid * mid <= v {
            lo = mid;
        } else {
            hi = mid;
        }
    }
    lo
}

/// The whole part of `magnitude * component / sqrt(norm2)`.
fn scaled_part(magnitude: u32, component: u64, norm2: u128) -> (t: u64)
    requires
        magnitude <= MAGNITUDE_LIMIT,
        component <= DIRECTION_LIMIT,
        0 < norm2,
        component * component <= norm2,
    ensures
        is_scaled_part(t as int, magnitude as int, component as int, norm2 as int),
        t <= magnitude,
{
    proof {
        crate::vector::lemma_product_bound(
            magnitude as int,
            magnitude as int,
            MAGNITUDE_LIMIT as int,
        );
        crate::vector::lemma_product_bound(
            component as int,
            component as int,
            DIRECTION_LIMIT as int,
        );
    }
    let mm: u128 = (magnitude as u128) * (magnitude as u128);
    let cc: u128 = (component as u128) * (component as u128);
    assert(mm * cc <= 1_000_000_000_000 * 0x100_0000_0000_0000_0000) by (nonlinear_arith)
        requires
            mm <= 1_000_000_000_000,
            cc <= 0x100_0000_0000_0000_0000,
    ;
    let num: u128 = mm * cc;
    let q: u128 = num / norm2;
    proof {
        vstd::arithmetic::div_mod::lemma_fundamental_div_mod(num as int, norm2 as int);
        vstd::arithmetic::div_mod::lemma_mod_bound(num as int, norm2 as int);
        let qi = q as int;
        let ni = norm2 as int;
        let r = (num as int) % ni;
        assert(num == ni * qi + r);
        assert(qi <= mm) by (nonlinear_arith)
            requires
                num == ni * qi + r,
                0 <= r,
                num == mm * cc,
                cc <= ni,
                0 < ni,
                0 <= mm,
        ;
    }
    let t: u64 = whole_root(q as u64);
    proof {
        let ti = t as int;
        let qi = q as int;
        let ni = norm2 as int;
        let r = (num as int) % ni;
        assert(ti * ti * ni <= ni * qi) by (nonlinear_arith)
            requires
                ti * ti <= qi,
                0 < ni,
        ;
        assert(ni * qi + ni <= (ti + 1) * (ti + 1) * ni) by (nonlinear_arith)
            requires
                qi + 1 <= (ti + 1) * (ti + 1),
                0 < ni,
        ;
        assert(magnitude * magnitude * (component * component) == num);
        assert(ti <= magnitude) by (nonlinear_arith)
            requires
                ti * ti <= qi,
                qi <= magnitude * magnitude,
                0 <= ti,
        ;
    }
    t
}

/// `component` of a vector of squared length `norm2`, rescaled to the length
/// `magnitude` and rounded toward zero.
fn scaled_component(magnitude: u32, component: i64, norm2: u128) -> (r: i64)
    requires
        magnitude <= MAGNITUDE_LIMIT,
        -DIRECTION_LIMIT <= component <= DIRECTION_LIMIT,
        0 < norm2,
        component * component <= norm2,
    ensures
        is_scaled_component(r as int, magnitude as int, component as int, norm2 as int),
        -magnitude <= r <= magnitude,
{
    if component == 0 {
        proof {
            let m = magnitude as int;
            let c = component as int;
            assert(m * m * (c * c) == 0) by (nonlinear_arith)
                requires
                    c == 0,
            ;
            assert(is_scaled_part(0, m, c, norm2 as int));
        }
        0
    } else if component > 0 {
        let t: u64 = scaled_part(magnitude, component as u64, norm2);
        t as i64
    } else {
        let c: i64 = -component;
        proof {
            let ci = c as int;
            let co = component as int;
            assert(ci * ci == co * co) by (nonlinear_arith)
                requires
                    ci == -co,
            ;
        }
        let t: u64 = scaled_part(magnitude, c as u64, norm2);
        proof {
            assert(is_scaled_part(t as int, magnitude as int, c as int, norm2 as int));
            assert(is_scaled_part(t as int, magnitude as int, component as int, norm2 as int));
        }
        -(t as i64)
    }
}

} // verus!
