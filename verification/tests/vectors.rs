use planet_gravity::directed::Directed;
use planet_gravity::vector::{Point, Vector};

fn v(x: i64, y: i64) -> Vector {
    Vector { x, y }
}

#[test]
fn offset_leads_from_one_point_to_the_other() {
    let a = Point { x: 3, y: -4 };
    let b = Point { x: -10, y: 6 };
    assert_eq!(a.to(b), v(-13, 10));
    assert_eq!(b.to(a), v(13, -10));
    assert_eq!(a.to(a), v(0, 0));
}

#[test]
fn offset_spans_the_whole_lattice() {
    let a = Point { x: i32::MIN, y: i32::MAX };
    let b = Point { x: i32::MAX, y: i32::MIN };
    assert_eq!(a.to(b), v(4_294_967_295, -4_294_967_295));
}

#[test]
fn moved_by_adds_and_stops_at_the_edge() {
    let p = Point { x: 10, y: 20 };
    assert_eq!(p.moved_by(v(-15, 5)), Some(Point { x: -5, y: 25 }));
    let edge = Point { x: i32::MAX, y: 0 };
    assert_eq!(edge.moved_by(v(1, 0)), None);
    assert_eq!(edge.moved_by(v(0, 1)), Some(Point { x: i32::MAX, y: 1 }));
    assert_eq!(edge.moved_by(v(i64::MAX, 0)), None);
    let low = Point { x: 0, y: i32::MIN };
    assert_eq!(low.moved_by(v(0, -1)), None);
}

#[test]
fn dot_and_length_are_exact() {
    assert_eq!(v(3, 4).dot(&v(-2, 5)), 14);
    assert_eq!(v(3, 4).length_squared(), 25);
    assert_eq!(v(0, 0).length_squared(), 0);
    let big = v(i64::MAX, -i64::MAX);
    let square = (i64::MAX as u128) * (i64::MAX as u128);
    assert_eq!(big.length_squared(), 2 * square);
    assert_eq!(big.dot(&v(1, 1)), 0);
    assert_eq!(big.dot(&big), 2 * (i64::MAX as i128) * (i64::MAX as i128));
    // the longest vector of all
    assert_eq!(v(i64::MIN, i64::MIN).length_squared(), 1u128 << 127);
}

#[test]
fn tangent_is_a_quarter_turn() {
    assert_eq!(v(0, -183).tangent(), v(-183, 0));
    assert_eq!(v(5, 2).tangent(), v(2, -5));
    assert_eq!(v(5, 2).tangent().dot(&v(5, 2)), 0);
    assert_eq!(v(5, 2).reversed(), v(-5, -2));
}

#[test]
fn is_zero_tells_the_zero_vector() {
    assert!(v(0, 0).is_zero());
    assert!(!v(0, 1).is_zero());
    assert!(!v(-1, 0).is_zero());
}

#[test]
fn resolve_is_exact_along_the_axes() {
    let down = Directed { along: v(0, -250), magnitude: 200_000 };
    assert_eq!(down.resolve(), v(0, -200_000));
    let right = Directed { along: v(7, 0), magnitude: 700 };
    assert_eq!(right.resolve(), v(700, 0));
    let left = Directed { along: v(-1, 0), magnitude: 30 };
    assert_eq!(left.resolve(), v(-30, 0));
}

#[test]
fn resolve_keeps_the_direction_and_the_length() {
    assert_eq!(Directed { along: v(3, 4), magnitude: 10 }.resolve(), v(6, 8));
    assert_eq!(Directed { along: v(-300, 400), magnitude: 5 }.resolve(), v(-3, 4));
    assert_eq!(Directed { along: v(5, -12), magnitude: 1_300 }.resolve(), v(500, -1_200));
}

#[test]
fn resolve_rounds_toward_zero() {
    // 100 / sqrt(2) = 70.71...
    assert_eq!(Directed { along: v(1, 1), magnitude: 100 }.resolve(), v(70, 70));
    assert_eq!(Directed { along: v(-1, -1), magnitude: 100 }.resolve(), v(-70, -70));
    assert_eq!(Directed { along: v(9, -9), magnitude: 100 }.resolve(), v(70, -70));
    // 1000 * 1 / sqrt(5) = 447.2..., 1000 * 2 / sqrt(5) = 894.4...
    assert_eq!(Directed { along: v(1, 2), magnitude: 1_000 }.resolve(), v(447, 894));
}

#[test]
fn resolve_goes_by_the_direction_alone() {
    for m in [1u32, 30, 700, 30_000, 200_000] {
        let short = Directed { along: v(3, -7), magnitude: m }.resolve();
        assert_eq!(Directed { along: v(6, -14), magnitude: m }.resolve(), short);
        assert_eq!(Directed { along: v(300_000, -700_000), magnitude: m }.resolve(), short);
        // two fifths and five halves of the same direction
        let a = Directed { along: v(10, 25), magnitude: m }.resolve();
        assert_eq!(Directed { along: v(4, 10), magnitude: m }.resolve(), a);
    }
    // another direction gives another vector
    assert_ne!(
        Directed { along: v(25, 62), magnitude: 200_000 }.resolve(),
        Directed { along: v(10, 25), magnitude: 200_000 }.resolve()
    );
}

#[test]
fn resolve_of_no_direction_is_zero() {
    assert_eq!(Directed { along: v(0, 0), magnitude: 200_000 }.resolve(), v(0, 0));
    assert_eq!(Directed { along: v(5, 5), magnitude: 0 }.resolve(), v(0, 0));
}

#[test]
fn resolve_works_at_its_limits() {
    let limit = 0x4_0000_0000;
    let d = Directed { along: v(limit, -limit), magnitude: 1_000_000 };
    assert!(d.can_resolve());
    // 1000000 / sqrt(2) = 707106.78...
    assert_eq!(d.resolve(), v(707_106, -707_106));
    let e = Directed { along: v(limit, 0), magnitude: 1_000_000 };
    assert_eq!(e.resolve(), v(1_000_000, 0));
}

#[test]
fn try_resolve_refuses_what_is_too_large() {
    let limit = 0x4_0000_0000;
    assert_eq!(Directed { along: v(limit + 1, 0), magnitude: 1 }.try_resolve(), None);
    assert_eq!(Directed { along: v(0, -limit - 1), magnitude: 1 }.try_resolve(), None);
    assert_eq!(Directed { along: v(1, 0), magnitude: 1_000_001 }.try_resolve(), None);
    assert!(!Directed { along: v(1, 0), magnitude: 1_000_001 }.can_resolve());
    assert_eq!(Directed { along: v(3, 4), magnitude: 10 }.try_resolve(), Some(v(6, 8)));
}

#[test]
fn resolved_vector_is_less_than_a_unit_short_in_each_component() {
    for (x, y, m) in [(1i64, 1i64, 100u32), (3, -7, 12_345), (-250, 1, 200_000), (9, 9, 1)] {
        let r = Directed { along: v(x, y), magnitude: m }.resolve();
        let m2 = (m as u128) * (m as u128);
        assert!(r.length_squared() <= m2);
        let grown = v(r.x.abs() + 1, r.y.abs() + 1);
        assert!(grown.length_squared() > m2);
    }
}

#[test]
fn resolved_vector_is_never_longer_than_the_length() {
    let mut x: i64 = -40;
    while x <= 40 {
        let mut y: i64 = -40;
        while y <= 40 {
            let r = Directed { along: v(x, y), magnitude: 1_000 }.resolve();
            let n = r.length_squared();
            assert!(n <= 1_000_000);
            if x != 0 || y != 0 {
                // each component is less than one unit short
                assert!(n > 998 * 998, "({}, {}) gave ({}, {})", x, y, r.x, r.y);
                assert!(r.x * x >= 0 && r.y * y >= 0);
            }
            y += 7;
        }
        x += 7;
    }
}
