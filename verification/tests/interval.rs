use mmvj::interval::{IntervalError, NumInterval};

// The intervals of these tests are written with decimal endpoints; they are
// held in hundredths, so that 9.9 is 990.
fn fx(v: f64) -> i64 {
    (v * 100.0).round() as i64
}

fn fx16(v: f64) -> i16 {
    (v * 100.0).round() as i16
}

fn fx32(v: f64) -> i32 {
    (v * 100.0).round() as i32
}

#[test]
fn test_construction_and_equality() {
    let r_f32 = NumInterval::new(fx16(10.0), fx16(20.0));
    let r_i32 = NumInterval::new(fx32(10.0), fx32(20.0));
    let r_f64 = NumInterval::new(fx(10.0), fx(20.0));
    assert_eq!(r_f32.from, fx16(10.0));
    assert_eq!(r_f32.to, fx16(20.0));
    assert_eq!(
        r_f32,
        r_i32.cast::<i16>().unwrap(),
        "i32/u32 construction failed to match f32 construction"
    );
    assert_eq!(
        r_f32,
        r_f64.cast::<i16>().unwrap(),
        "f64 construction failed to match f32 construction"
    );
    assert_ne!(
        r_f32,
        NumInterval::new(fx16(10.0), fx16(20.1)),
        "Ranges with different 'to' fields should be unequal"
    );
}

#[test]
fn test_size_based_ordering() {
    let r_small = NumInterval::new(10, 15);
    let r_medium_a = NumInterval::new(-10, 10);
    let r_medium_b = NumInterval::new(0, 20);
    let r_large = NumInterval::new(0, 30);
    assert_eq!(
        NumInterval::new(-10, 100),
        NumInterval::new(100, -10),
        "Ranges with r1.from == r2.to and r1.to == r2.from should compare as equal
            (because spans are equal and 'from' and 'to' members are set on constructions 
            such that from < to)."
    );
    assert!(
        r_small < r_medium_a,
        "Small range should be less than medium range"
    );
    assert!(
        r_large > r_medium_a,
        "Large range should be greater than medium range"
    );
    assert_eq!(
        r_medium_a.to - r_medium_a.from,
        r_medium_b.to - r_medium_b.from,
        "Sizes should be equal for tie-breaker test"
    );
    assert!(
        r_medium_a < r_medium_b,
        "Ranges of equal size should be ordered by 'from' value (-10 < 0)"
    );
    assert!(
        r_medium_a <= r_medium_b,
        "Ranges of equal size should be ordered by 'from' value (-10 <= 0)"
    );
    assert!(
        r_medium_b > r_medium_a,
        "Ranges of equal size should be ordered by 'from' value (0 > -10)"
    );
}

#[test]
fn test_containment() {
    let r = NumInterval::new(fx(10.0), fx(20.0));
    assert!(
        r.contains_inclusive(fx(10.0)),
        "Inclusive should contain 'from'"
    );
    assert!(
        r.contains_inclusive(fx(15.0)),
        "Inclusive should contain middle value"
    );
    assert!(
        r.contains_inclusive(fx(20.0)),
        "Inclusive should contain 'to'"
    );
    assert!(
        !r.contains_inclusive(fx(9.9)),
        "Inclusive should not contain value below 'from'"
    );
    assert!(
        !r.contains_inclusive(fx(20.1)),
        "Inclusive should not contain value above 'to'"
    );
    assert!(
        r.contains_exclusive(fx(10.0)),
        "Exclusive should contain 'from'"
    );
    assert!(
        r.contains_exclusive(fx(19.99)),
        "Exclusive should contain value just below 'to'"
    );
    assert!(
        !r.contains_exclusive(fx(9.9)),
        "Exclusive should not contain value below 'from'"
    );
    assert!(
        !r.contains_exclusive(fx(20.0)),
        "Exclusive should not contain 'to'"
    );
    assert!(
        !r.contains_exclusive(fx(20.1)),
        "Exclusive should not contain value above 'to'"
    );
}

#[test]
fn test_inversion() {
    let r = NumInterval::new(fx(-10.0), fx(15.0));
    assert_eq!(
        r.try_invert_value(fx(-1.0)).unwrap(),
        fx(6.0),
        "Inverting value inside range {r:?} failed."
    );
    assert!(
        r.try_invert_value(fx(-11.0)).is_err(),
        "Inverting value our of range {r:?} must return error."
    );
    let r = NumInterval::new(fx(10.0), fx(20.0));
    assert_eq!(
        r.try_invert_value(fx(15.0)).unwrap(),
        fx(15.0),
        "Inverting value inside range {r:?} failed"
    );
    assert_eq!(
        r.try_invert_value(fx(14.0)).unwrap(),
        fx(16.0),
        "Inverting value inside range {r:?} failed"
    );
    let r = NumInterval::new(fx(-10.0), fx(-20.0));
    assert_eq!(
        r.from,
        fx(-20.0),
        "Range {r:?} should get sorted on construction such that from < to."
    );
    assert_eq!(
        r.to,
        fx(-10.0),
        "Range {r:?} should get sorted on construction such that from < to."
    );
    assert_eq!(
        r.try_invert_value(fx(-15.0)).unwrap(),
        fx(-15.0),
        "Inverting value inside range {r:?} failed"
    );
    assert_eq!(
        r.try_invert_value(fx(-14.0)).unwrap(),
        fx(-16.0),
        "Inverting value inside range {r:?} failed"
    );
}

#[test]
fn test_clamping() {
    let r = NumInterval::new(fx(-10.0), fx(20.0));
    assert_eq!(
        r.clamp(fx(5.0)),
        fx(5.0),
        "Clamping value inside range failed"
    );
    assert_eq!(
        r.clamp(fx(-50.0)),
        fx(-10.0),
        "Clamping value below 'from' failed"
    );
    assert_eq!(
        r.clamp(fx(30.0)),
        fx(20.0),
        "Clamping value above 'to' failed"
    );
    assert_eq!(
        r.clamp(fx(-10.0)),
        fx(-10.0),
        "Clamping value at 'from' failed"
    );
    assert_eq!(
        r.clamp(fx(20.0)),
        fx(20.0),
        "Clamping value at 'to' failed"
    );
}

#[test]
fn inversion_error_names_the_cause() {
    let r = NumInterval::new(0_i32, 127);
    assert_eq!(r.try_invert_value(128), Err(IntervalError::OutOfRange));
    assert_eq!(r.try_invert_value(-1), Err(IntervalError::OutOfRange));
    assert_eq!(r.try_invert_value(0), Ok(127));
    assert_eq!(r.try_invert_value(127), Ok(0));
}

#[test]
fn clamp_lands_inside_and_inversion_is_an_involution() {
    for (x, y) in [(3_i32, 40), (40, 3), (-7, -7), (i32::MIN, i32::MAX)] {
        let r = NumInterval::new(x, y);
        let s = NumInterval::new(y, x);
        assert_eq!((r.from, r.to), (s.from, s.to));
        for v in [i32::MIN, -8, -7, 0, 3, 4, 21, 40, 41, i32::MAX] {
            let c = r.clamp(v);
            assert!(r.contains_inclusive(c));
            if r.contains_inclusive(v) {
                let i = r.try_invert_value(v).unwrap();
                assert!(r.contains_inclusive(i));
                assert_eq!(r.try_invert_value(i).unwrap(), v);
                assert_eq!(c, v);
            } else {
                assert!(r.try_invert_value(v).is_err());
            }
        }
    }
}

#[test]
fn inversion_near_the_limits_of_the_type_does_not_overflow() {
    let r = NumInterval::new(i32::MAX - 1, i32::MAX);
    assert_eq!(r.try_invert_value(i32::MAX).unwrap(), i32::MAX - 1);
    assert_eq!(r.midpoint(), i32::MAX - 1);
    let u = NumInterval::new(u64::MAX, u64::MAX - 10);
    assert_eq!(u.from, u64::MAX - 10);
    assert_eq!(u.try_invert_value(u64::MAX - 3).unwrap(), u64::MAX - 7);
    assert_eq!(u.midpoint(), u64::MAX - 5);
}

#[test]
fn clamp_and_invert_mirrors_the_clamped_value() {
    let r = NumInterval::new(0_i32, 127);
    assert_eq!(r.clamp_and_invert(200), 0);
    assert_eq!(r.clamp_and_invert(-5), 127);
    assert_eq!(r.clamp_and_invert(27), 100);
    let reversed = NumInterval { from: 10_i32, to: 0 };
    assert_eq!(reversed.clamp_and_invert(5), 5);
}

#[test]
fn midpoint_rounds_toward_zero() {
    assert_eq!(NumInterval::new(0_i32, 750).midpoint(), 375);
    assert_eq!(NumInterval::new(0_i32, 127).midpoint(), 63);
    assert_eq!(NumInterval::new(-127_i32, 0).midpoint(), -63);
    assert_eq!(NumInterval::new(-32768_i32, 32767).midpoint(), 0);
    assert_eq!(NumInterval::new(-3_i8, 2).midpoint(), 0);
}

#[test]
fn span_is_the_distance_between_the_endpoints() {
    assert_eq!(NumInterval::new(-10_i32, 20).span(), 30);
    assert_eq!(NumInterval::new(5_u8, 5).span(), 0);
    assert_eq!(NumInterval::new(i16::MIN, i16::MAX).span_w(), 65535);
    assert_eq!(NumInterval::new(i64::MIN, i64::MAX).span_w(), u64::MAX as i128);
}

#[test]
fn cast_succeeds_exactly_when_both_endpoints_fit() {
    let r = NumInterval::new(-10_i32, 300);
    assert!(r.cast::<u8>().is_none());
    assert!(r.cast::<i8>().is_none());
    assert!(r.cast::<u16>().is_none());
    let wide = r.cast::<i64>().unwrap();
    assert_eq!((wide.from, wide.to), (-10_i64, 300_i64));
    let narrow = NumInterval::new(0_i64, 255).cast::<u8>().unwrap();
    assert_eq!((narrow.from, narrow.to), (0_u8, 255_u8));
    assert!(NumInterval::new(0_i64, 256).cast::<u8>().is_none());
}

#[test]
fn ordering_goes_by_span_and_then_by_start() {
    let a = NumInterval::new(100_i32, 101);
    let b = NumInterval::new(-50_i32, -40);
    assert!(a < b);
    assert!(b > a);
    let c = NumInterval::new(-60_i32, -50);
    assert!(c < b);
    assert_eq!(c, b);
    assert_eq!(
        a.partial_cmp(&NumInterval::new(100, 101)),
        Some(std::cmp::Ordering::Equal)
    );
}

#[test]
fn integrating_mouse_movement_from_the_midpoint() {
    let range = NumInterval::new(0_i32, 750);
    let mut state = range.midpoint();
    let mut outputs = Vec::new();
    for delta in [10, 10, -5] {
        state = range.clamp(state + delta);
        outputs.push(state);
    }
    assert_eq!(outputs, vec![385, 395, 390]);
    assert_eq!(range.clamp(745 + 10), 750);
    assert_eq!(range.clamp(3 - 10), 0);
}
