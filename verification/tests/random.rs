use boids::random::{random_heading, random_point, random_range};
use boids::rect::Rect;

#[test]
fn random_range_stays_below_the_larger_bound() {
    let mut i = 0;
    while i < 200 {
        assert_eq!(random_range(0, 1), 0);
        assert_eq!(random_range(1, 0), 0);
        assert_eq!(random_range(-1, 0), -1);
        assert_eq!(random_range(i64::MAX - 1, i64::MAX), i64::MAX - 1);
        i += 1;
    }
}

#[test]
fn random_range_of_equal_bounds_is_the_bound() {
    assert_eq!(random_range(5, 5), 5);
    assert_eq!(random_range(0, 0), 0);
    assert_eq!(random_range(i64::MIN, i64::MIN), i64::MIN);
}

#[test]
fn random_range_takes_bounds_in_either_order() {
    let mut i = 0;
    while i < 500 {
        let a = random_range(-10, 10);
        assert!((-10..10).contains(&a));
        let b = random_range(10, -10);
        assert!((-10..10).contains(&b));
        let c = random_range(i64::MIN, i64::MAX);
        assert!(c < i64::MAX);
        i += 1;
    }
}

#[test]
fn random_range_does_not_repeat_one_number() {
    let first = random_range(0, 1_000_000_000_000);
    let mut differs = false;
    let mut i = 0;
    while i < 64 {
        if random_range(0, 1_000_000_000_000) != first {
            differs = true;
        }
        i += 1;
    }
    assert!(differs);
}

#[test]
fn random_range_reaches_both_halves() {
    let mut low = false;
    let mut high = false;
    let mut i = 0;
    while i < 256 {
        let r = random_range(0, 2);
        if r == 0 {
            low = true;
        } else {
            assert_eq!(r, 1);
            high = true;
        }
        i += 1;
    }
    assert!(low && high);
}

#[test]
fn random_point_lies_inside_the_rectangle() {
    let r = Rect::new(-8_000_000, 8_000_000, -6_000_000, 6_000_000).unwrap();
    let mut i = 0;
    while i < 500 {
        let p = random_point(&r);
        assert!(r.holds(p));
        assert!(p.x < r.right && p.y < r.top);
        i += 1;
    }
}

#[test]
fn random_point_of_a_rectangle_without_area_is_its_point() {
    let dot = Rect::new(3, 3, -4, -4).unwrap();
    assert_eq!(random_point(&dot).x, 3);
    assert_eq!(random_point(&dot).y, -4);
    let line = Rect::new(0, 10, 7, 7).unwrap();
    let p = random_point(&line);
    assert!(line.holds(p));
}

#[test]
fn random_heading_stays_within_its_reach() {
    let mut i = 0;
    while i < 500 {
        let v = random_heading(100_000);
        assert!(-100_000 <= v.x && v.x < 100_000);
        assert!(-100_000 <= v.y && v.y < 100_000);
        i += 1;
    }
    assert_eq!(random_heading(0).x, 0);
    assert_eq!(random_heading(0).y, 0);
}
