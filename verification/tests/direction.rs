use geometry::units::{FULL_TURN, HALF_TURN, UNITS_PER_DEGREE};
use geometry::{Axis, Direction};

#[test]
fn new_stores_the_angle_as_given() {
    assert_eq!(Direction::new(15_000).angle, 15_000);
    assert_eq!(Direction::new(-90_000).angle, -90_000);
    assert_eq!(Direction::new(720_500).angle, 720_500);
}

#[test]
fn from_degrees_counts_thousandths() {
    assert_eq!(Direction::from_degrees(0).angle, 0);
    assert_eq!(Direction::from_degrees(15).angle, 15_000);
    assert_eq!(Direction::from_degrees(359).angle, 359_000);
    assert_eq!(Direction::from_degrees(-45).angle, -45_000);
    assert_eq!(Direction::from_degrees(i16::MAX).angle, 32_767_000);
    assert_eq!(Direction::from_degrees(i16::MIN).angle, -32_768_000);
}

#[test]
fn new_random_is_a_whole_degree_in_range() {
    let mut seen_other_than_full_turn = false;
    let mut first: Option<i32> = None;
    let mut varied = false;
    for _ in 0..2_000 {
        let d = Direction::new_random();
        assert!(0 <= d.angle && d.angle < FULL_TURN);
        assert_eq!(d.angle % UNITS_PER_DEGREE, 0);
        if d.angle != FULL_TURN {
            seen_other_than_full_turn = true;
        }
        match first {
            None => first = Some(d.angle),
            Some(a) => {
                if a != d.angle {
                    varied = true;
                }
            }
        }
    }
    assert!(seen_other_than_full_turn);
    assert!(varied);
}

#[test]
fn reflect_vertical_on_the_right_half() {
    let mut d = Direction::new(15_000);
    d.reflect(Axis::Vertical);
    assert_eq!(d.angle, 165_000);
}

#[test]
fn reflect_horizontal_on_the_right_half() {
    let mut d = Direction::new(15_000);
    d.reflect(Axis::Horizontal);
    assert_eq!(d.angle, 345_000);
}

#[test]
fn reflect_vertical_on_the_left_half() {
    let mut d = Direction::new(200_000);
    d.reflect(Axis::Vertical);
    assert_eq!(d.angle, 340_000);
    let mut e = Direction::new(359_999);
    e.reflect(Axis::Vertical);
    assert_eq!(e.angle, 180_001);
}

#[test]
fn reflect_vertical_leaves_half_a_turn_alone() {
    let mut d = Direction::new(HALF_TURN);
    d.reflect(Axis::Vertical);
    assert_eq!(d.angle, HALF_TURN);
}

#[test]
fn reflect_vertical_at_the_cardinal_angles() {
    let mut up = Direction::new(0);
    up.reflect(Axis::Vertical);
    assert_eq!(up.angle, 180_000);
    let mut right = Direction::new(90_000);
    right.reflect(Axis::Vertical);
    assert_eq!(right.angle, 90_000);
    let mut left = Direction::new(270_000);
    left.reflect(Axis::Vertical);
    assert_eq!(left.angle, 270_000);
    let mut full = Direction::new(360_000);
    full.reflect(Axis::Vertical);
    assert_eq!(full.angle, 180_000);
}

#[test]
fn reflect_horizontal_is_not_renormalized() {
    let mut zero = Direction::new(0);
    zero.reflect(Axis::Horizontal);
    assert_eq!(zero.angle, 360_000);
    let mut full = Direction::new(360_000);
    full.reflect(Axis::Horizontal);
    assert_eq!(full.angle, 0);
    let mut over = Direction::new(400_000);
    over.reflect(Axis::Horizontal);
    assert_eq!(over.angle, -40_000);
}

#[test]
fn reflect_horizontal_at_the_cardinal_angles() {
    let mut right = Direction::new(90_000);
    right.reflect(Axis::Horizontal);
    assert_eq!(right.angle, 270_000);
    let mut down = Direction::new(180_000);
    down.reflect(Axis::Horizontal);
    assert_eq!(down.angle, 180_000);
    let mut left = Direction::new(270_000);
    left.reflect(Axis::Horizontal);
    assert_eq!(left.angle, 90_000);
}

#[test]
fn reflect_twice_restores_the_heading() {
    let mut a: i32 = 1;
    while a < FULL_TURN {
        let mut v = Direction::new(a);
        v.reflect(Axis::Vertical);
        v.reflect(Axis::Vertical);
        assert_eq!(v.angle, a);
        let mut h = Direction::new(a);
        h.reflect(Axis::Horizontal);
        h.reflect(Axis::Horizontal);
        assert_eq!(h.angle, a);
        a += 7_333;
    }
}

#[test]
fn reflect_near_the_ends_of_the_range() {
    let mut high = Direction::new(i32::MAX);
    high.reflect(Axis::Vertical);
    assert_eq!(high.angle, 540_000 - i32::MAX);
    let mut low = Direction::new(i32::MIN + FULL_TURN + 1);
    low.reflect(Axis::Horizontal);
    assert_eq!(low.angle, i32::MAX);
}

#[test]
fn difference_folds_every_half_turn() {
    let gap = Direction::difference(Direction::new(300_000), Direction::new(15_000));
    assert_eq!(gap, 105_000);
    assert_eq!(Direction::difference(Direction::new(10_000), Direction::new(20_000)), 10_000);
    assert_eq!(Direction::difference(Direction::new(10_000), Direction::new(200_000)), 10_000);
    assert_eq!(Direction::difference(Direction::new(0), Direction::new(200_000)), 20_000);
    assert_eq!(Direction::difference(Direction::new(0), Direction::new(20_000)), 20_000);
}

#[test]
fn difference_of_equal_and_opposite_headings_is_zero() {
    assert_eq!(Direction::difference(Direction::new(77_000), Direction::new(77_000)), 0);
    assert_eq!(Direction::difference(Direction::new(0), Direction::new(180_000)), 0);
    assert_eq!(Direction::difference(Direction::new(270_000), Direction::new(90_000)), 0);
    assert_eq!(Direction::difference(Direction::new(0), Direction::new(179_999)), 179_999);
}

#[test]
fn difference_is_symmetric_and_in_range() {
    let samples: [i32; 9] =
        [0, 1, 15_000, 179_999, 180_000, 300_000, 359_999, -123_456, 1_000_001];
    for a in samples {
        for b in samples {
            let ab = Direction::difference(Direction::new(a), Direction::new(b));
            let ba = Direction::difference(Direction::new(b), Direction::new(a));
            assert_eq!(ab, ba);
            assert!(0 <= ab && ab < HALF_TURN);
        }
    }
}

#[test]
fn difference_at_the_ends_of_the_range() {
    let gap = Direction::difference(Direction::new(i32::MAX), Direction::new(i32::MIN));
    assert_eq!(gap, 167_295);
    let back = Direction::difference(Direction::new(i32::MIN), Direction::new(i32::MAX));
    assert_eq!(back, 167_295);
}

#[test]
fn subtract_turns_counter_clockwise_and_wraps() {
    let mut d = Direction::new(10_000);
    d.subtract(20_000);
    assert_eq!(d.angle, 350_000);
    let mut e = Direction::new(350_000);
    e.subtract(20_000);
    assert_eq!(e.angle, 330_000);
    let mut f = Direction::new(20_000);
    f.subtract(20_000);
    assert_eq!(f.angle, 0);
    let mut g = Direction::new(0);
    g.subtract(-725_000);
    assert_eq!(g.angle, 5_000);
}

#[test]
fn add_turns_clockwise_and_wraps() {
    let mut d = Direction::new(350_000);
    d.add(20_000);
    assert_eq!(d.angle, 10_000);
    let mut e = Direction::new(10_000);
    e.add(20_000);
    assert_eq!(e.angle, 30_000);
    let mut f = Direction::new(340_000);
    f.add(20_000);
    assert_eq!(f.angle, 0);
}

#[test]
fn add_of_a_negative_amount_is_normalized() {
    let mut d = Direction::new(10_000);
    d.add(-20_000);
    assert_eq!(d.angle, 350_000);
    let mut e = Direction::new(-10_000);
    e.add(0);
    assert_eq!(e.angle, 350_000);
    let mut f = Direction::new(0);
    f.add(-720_000);
    assert_eq!(f.angle, 0);
}

#[test]
fn add_and_subtract_at_the_ends_of_the_range() {
    let mut d = Direction::new(i32::MAX);
    d.add(i32::MAX);
    assert_eq!(d.angle, 167_294);
    let mut e = Direction::new(i32::MIN);
    e.subtract(i32::MAX);
    assert_eq!(e.angle, 192_705);
    let mut f = Direction::new(i32::MIN);
    f.add(i32::MIN);
    assert_eq!(f.angle, 192_704);
}

#[test]
fn subtract_then_add_restores_a_normalized_heading() {
    let amounts: [i32; 8] = [0, 1, 359_999, 360_000, 1_234_567, -1, -987_654, i32::MAX];
    let mut a: i32 = 0;
    while a < FULL_TURN {
        for x in amounts {
            let mut d = Direction::new(a);
            d.subtract(x);
            d.add(x);
            assert_eq!(d.angle, a);
            let mut e = Direction::new(a);
            e.add(x);
            e.subtract(x);
            assert_eq!(e.angle, a);
        }
        a += 4_999;
    }
}

#[test]
fn is_cw_of_within_one_half() {
    assert!(Direction::new(100_000).is_cw_of(Direction::new(50_000)));
    assert!(!Direction::new(50_000).is_cw_of(Direction::new(100_000)));
    assert!(Direction::new(300_000).is_cw_of(Direction::new(200_000)));
    assert!(!Direction::new(200_000).is_cw_of(Direction::new(300_000)));
}

#[test]
fn is_cw_of_across_the_halves() {
    assert!(Direction::new(200_000).is_cw_of(Direction::new(100_000)));
    assert!(!Direction::new(100_000).is_cw_of(Direction::new(200_000)));
    assert!(Direction::new(10_000).is_cw_of(Direction::new(350_000)));
    assert!(!Direction::new(350_000).is_cw_of(Direction::new(10_000)));
}

#[test]
fn is_cw_of_is_false_for_equal_headings() {
    for a in [0, 15_000, 179_999, 180_000, 180_001, 359_999] {
        assert!(!Direction::new(a).is_cw_of(Direction::new(a)));
    }
}

#[test]
fn is_cw_of_is_false_for_opposite_headings() {
    let mut a: i32 = 0;
    while a < FULL_TURN {
        let mut opposite = Direction::new(a);
        opposite.add(HALF_TURN);
        assert!(!Direction::new(a).is_cw_of(opposite));
        assert!(!opposite.is_cw_of(Direction::new(a)));
        a += 1_250;
    }
}

#[test]
fn is_cw_of_is_false_at_exactly_half_a_turn() {
    for a in [0, 10_000, 179_999, 180_001, 270_000, 359_999] {
        assert!(!Direction::new(HALF_TURN).is_cw_of(Direction::new(a)));
        assert!(!Direction::new(a).is_cw_of(Direction::new(HALF_TURN)));
    }
}

#[test]
fn is_cw_of_holds_in_exactly_one_order() {
    let samples: [i32; 10] =
        [0, 1, 45_000, 90_000, 179_999, 180_001, 225_500, 270_000, 314_159, 359_999];
    for a in samples {
        for b in samples {
            if a == b || a - b == HALF_TURN || b - a == HALF_TURN {
                continue;
            }
            let ab = Direction::new(a).is_cw_of(Direction::new(b));
            let ba = Direction::new(b).is_cw_of(Direction::new(a));
            assert_ne!(ab, ba);
        }
    }
}

#[test]
fn is_cw_of_follows_the_shorter_arc() {
    let samples: [i32; 10] =
        [0, 1, 45_000, 90_000, 179_999, 180_001, 225_500, 270_000, 314_159, 359_999];
    for a in samples {
        for b in samples {
            let arc = (a - b).rem_euclid(FULL_TURN);
            let expected = 0 < arc && arc < HALF_TURN;
            assert_eq!(Direction::new(a).is_cw_of(Direction::new(b)), expected);
        }
    }
}

#[test]
fn axis_values_compare_by_variant() {
    assert_eq!(Axis::Vertical, Axis::Vertical);
    assert_eq!(Axis::Horizontal, Axis::Horizontal);
    assert_ne!(Axis::Vertical, Axis::Horizontal);
}
