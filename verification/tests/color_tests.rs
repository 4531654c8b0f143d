use render_core::color::{wrap_channel, ClearColor, RawColor, UNIT};
use render_core::input::InputState;

#[test]
fn wrap_keeps_values_below_one() {
    assert_eq!(wrap_channel(0), 0);
    assert_eq!(wrap_channel(1), 1);
    assert_eq!(wrap_channel(999_999), 999_999);
}

#[test]
fn wrap_drops_whole_units() {
    assert_eq!(wrap_channel(1_000_000), 0);
    assert_eq!(wrap_channel(1_500_000), 500_000);
    assert_eq!(wrap_channel(200_300_000), 300_000);
    assert_eq!(wrap_channel(100_000_000), 0);
}

#[test]
fn wrap_clamps_negative_values_to_zero() {
    assert_eq!(wrap_channel(-200_000), 0);
    assert_eq!(wrap_channel(-1), 0);
    assert_eq!(wrap_channel(i128::MIN), 0);
}

#[test]
fn wrap_stays_in_range_at_the_limits() {
    assert!(wrap_channel(i128::MAX) < UNIT);
    assert_eq!(wrap_channel(i128::MAX), (i128::MAX % 1_000_000) as u32);
}

#[test]
fn clear_color_is_opaque_and_wrapped() {
    let color = ClearColor::wrap(RawColor { r: 100_000_000, g: 200_300_000, b: 0 });
    assert_eq!(color, ClearColor { r: 0, g: 300_000, b: 0, a: 1_000_000 });
}

#[test]
fn clear_color_wraps_each_channel_alone() {
    let color = ClearColor::wrap(RawColor { r: -5, g: 2_250_000, b: 999_999 });
    assert_eq!(color, ClearColor { r: 0, g: 250_000, b: 999_999, a: UNIT });
}

#[test]
fn cursor_gives_red_green_and_their_sum() {
    let mut input = InputState::new();
    input.move_cursor(1_250_000, 2_500_000);
    assert_eq!(input.clear_input(), RawColor { r: 1_250_000, g: 2_500_000, b: 3_750_000 });
    assert_eq!(
        ClearColor::wrap(input.clear_input()),
        ClearColor { r: 250_000, g: 500_000, b: 750_000, a: UNIT }
    );
}

#[test]
fn cursor_sum_does_not_overflow() {
    let mut input = InputState::new();
    input.move_cursor(i64::MAX, i64::MAX);
    let raw = input.clear_input();
    assert_eq!(raw.b, 2 * (i64::MAX as i128));
    let color = ClearColor::wrap(raw);
    assert!(color.r < UNIT && color.g < UNIT && color.b < UNIT);
    input.move_cursor(i64::MIN, i64::MIN);
    assert_eq!(ClearColor::wrap(input.clear_input()), ClearColor { r: 0, g: 0, b: 0, a: UNIT });
}
