use particles::interp::lerp;
use particles::interp::lerp_color;
use particles::interp::lerp_vec2;
use particles::units::div_floor;
use particles::units::saturate;
use particles::units::Color;
use particles::units::Ratio;
use particles::units::Vec2;
use particles::units::ONE;

fn ratio(num: u64, den: u64) -> Ratio {
    Ratio { num, den }
}

#[test]
fn lerp_of_equal_ends_is_that_value() {
    for num in 0..=7u64 {
        assert_eq!(lerp(5 * ONE, 5 * ONE, ratio(num, 7)), 5 * ONE);
        assert_eq!(lerp(-3, -3, ratio(num, 7)), -3);
    }
    assert_eq!(lerp(i64::MIN, i64::MIN, ratio(1, u64::MAX)), i64::MIN);
    assert_eq!(lerp(i64::MAX, i64::MAX, ratio(u64::MAX - 1, u64::MAX)), i64::MAX);
}

#[test]
fn lerp_at_zero_is_first_end() {
    assert_eq!(lerp(2 * ONE, 9 * ONE, ratio(0, 4)), 2 * ONE);
    assert_eq!(lerp(i64::MIN, i64::MAX, ratio(0, u64::MAX)), i64::MIN);
}

#[test]
fn lerp_at_one_is_second_end() {
    assert_eq!(lerp(2 * ONE, 9 * ONE, ratio(4, 4)), 9 * ONE);
    assert_eq!(lerp(i64::MIN, i64::MAX, ratio(u64::MAX, u64::MAX)), i64::MAX);
}

#[test]
fn lerp_quarter_way() {
    assert_eq!(lerp(0, 10 * ONE, ratio(1, 4)), 10 * ONE / 4);
    assert_eq!(lerp(10 * ONE, 0, ratio(1, 4)), 30 * ONE / 4);
    assert_eq!(lerp(-4, 4, ratio(1, 2)), 0);
}

#[test]
fn lerp_rounds_down() {
    assert_eq!(lerp(0, 1, ratio(1, 2)), 0);
    assert_eq!(lerp(0, -1, ratio(1, 2)), -1);
    assert_eq!(lerp(0, -3, ratio(1, 2)), -2);
    assert_eq!(lerp(0, 3, ratio(1, 2)), 1);
}

#[test]
fn lerp_stays_between_its_ends() {
    for num in 0..=10u64 {
        let v = lerp(-7, 13, ratio(num, 10));
        assert!(-7 <= v && v <= 13);
        let w = lerp(13, -7, ratio(num, 10));
        assert!(-7 <= w && w <= 13);
    }
}

#[test]
fn lerp_vec2_goes_axis_by_axis() {
    let a = Vec2 { x: 0, y: 100 };
    let b = Vec2 { x: 40, y: -100 };
    assert_eq!(lerp_vec2(a, b, ratio(1, 4)), Vec2 { x: 10, y: 50 });
    assert_eq!(lerp_vec2(a, b, ratio(0, 4)), a);
    assert_eq!(lerp_vec2(a, b, ratio(4, 4)), b);
}

#[test]
fn lerp_color_goes_channel_by_channel() {
    let a = Color { r: ONE, g: 0, b: 0, a: ONE };
    let b = Color { r: 0, g: ONE, b: ONE / 2, a: 0 };
    assert_eq!(
        lerp_color(a, b, ratio(1, 2)),
        Color { r: ONE / 2, g: ONE / 2, b: ONE / 4, a: ONE / 2 }
    );
    assert_eq!(lerp_color(a, b, ratio(0, 9)), a);
    assert_eq!(lerp_color(a, b, ratio(9, 9)), b);
    assert_eq!(lerp_color(a, a, ratio(5, 9)), a);
}

#[test]
fn div_floor_rounds_towards_minus_infinity() {
    assert_eq!(div_floor(7, 2), 3);
    assert_eq!(div_floor(-7, 2), -4);
    assert_eq!(div_floor(-8, 2), -4);
    assert_eq!(div_floor(-1, 1_000_000_000), -1);
    assert_eq!(div_floor(0, 5), 0);
    assert_eq!(div_floor(i128::MIN, 1), i128::MIN);
    assert_eq!(div_floor(i128::MIN, 2), i128::MIN / 2);
    assert_eq!(div_floor(i128::MAX, i128::MAX), 1);
}

#[test]
fn saturate_stops_at_the_ends() {
    assert_eq!(saturate(0), 0);
    assert_eq!(saturate(-5), -5);
    assert_eq!(saturate(i64::MAX as i128), i64::MAX);
    assert_eq!(saturate(i64::MAX as i128 + 1), i64::MAX);
    assert_eq!(saturate(i64::MIN as i128 - 1), i64::MIN);
    assert_eq!(saturate(i128::MIN), i64::MIN);
}
