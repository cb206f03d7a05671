use firecore_gui::fixed::{clamp_wide, exceeds, reaches, saturating_difference, saturating_scale,
    saturating_sum};
use firecore_gui::graphics::{Color, Point};
use firecore_gui::input::{down, pressed, Context, Control, ControlSet, DeviceState};

const ALL: [Control; 8] = [
    Control::A,
    Control::B,
    Control::Up,
    Control::Down,
    Control::Left,
    Control::Right,
    Control::Start,
    Control::Select,
];

#[test]
fn empty_frame_reports_nothing() {
    let ctx = Context::new();
    for control in ALL {
        assert!(!pressed(&ctx, control));
        assert!(!down(&ctx, control));
    }
    assert_eq!(ctx.keyboard, DeviceState::new());
}

#[test]
fn control_set_holds_what_was_inserted() {
    for control in ALL {
        let mut set = ControlSet::new();
        assert!(!set.contains(control));
        set.insert(control);
        for other in ALL {
            assert_eq!(set.contains(other), other == control);
        }
        set.insert(control);
        assert!(set.contains(control));
    }
}

#[test]
fn pressed_reads_keyboard_and_gamepad() {
    for control in ALL {
        let mut keys = Context::new();
        keys.keyboard.pressed.insert(control);
        let mut pad = Context::new();
        pad.gamepad.pressed.insert(control);
        for other in ALL {
            assert_eq!(pressed(&keys, other), other == control);
            assert_eq!(pressed(&pad, other), other == control);
            assert!(!down(&keys, other));
            assert!(!down(&pad, other));
        }
    }
}

#[test]
fn down_reads_keyboard_and_gamepad() {
    for control in ALL {
        let mut keys = Context::new();
        keys.keyboard.down.insert(control);
        let mut pad = Context::new();
        pad.gamepad.down.insert(control);
        for other in ALL {
            assert_eq!(down(&keys, other), other == control);
            assert_eq!(down(&pad, other), other == control);
            assert!(!pressed(&keys, other));
            assert!(!pressed(&pad, other));
        }
    }
}

#[test]
fn saturating_arithmetic_stops_at_the_bounds() {
    assert_eq!(clamp_wide(5), 5);
    assert_eq!(clamp_wide(i64::MAX as i128 + 1), i64::MAX);
    assert_eq!(clamp_wide(i64::MIN as i128 - 1), i64::MIN);
    assert_eq!(saturating_sum(2, 3), 5);
    assert_eq!(saturating_sum(i64::MAX, 1), i64::MAX);
    assert_eq!(saturating_sum(i64::MIN, -1), i64::MIN);
    assert_eq!(saturating_difference(2, 3), -1);
    assert_eq!(saturating_difference(i64::MIN, 1), i64::MIN);
    assert_eq!(saturating_difference(0, i64::MIN), i64::MAX);
    assert_eq!(saturating_scale(34, 30), 1020);
    assert_eq!(saturating_scale(-2, 7500), -15000);
    assert_eq!(saturating_scale(i64::MAX, 2), i64::MAX);
    assert_eq!(saturating_scale(i64::MIN, 65535), i64::MIN);
    assert_eq!(saturating_scale(i64::MAX, 0), 0);
}

#[test]
fn distances_from_zero_compare_without_overflow() {
    assert!(reaches(5, 5));
    assert!(reaches(-5, 5));
    assert!(reaches(5, -5));
    assert!(!reaches(4, -5));
    assert!(reaches(i64::MIN, i64::MAX));
    assert!(!reaches(i64::MAX, i64::MIN));
    assert!(reaches(0, 0));
    assert!(!exceeds(5, 5));
    assert!(exceeds(-6, 5));
    assert!(exceeds(i64::MIN, i64::MAX));
    assert!(!exceeds(0, 0));
}

#[test]
fn named_colors() {
    assert_eq!(Color::white(), Color { r: 255, g: 255, b: 255, a: 255 });
    assert_eq!(Color::black(), Color { r: 0, g: 0, b: 0, a: 255 });
    assert_eq!(Color::gray(), Color { r: 130, g: 130, b: 130, a: 255 });
    assert_eq!(Color::red(), Color { r: 230, g: 41, b: 55, a: 255 });
    assert_eq!(Color::rgb(1, 2, 3), Color { r: 1, g: 2, b: 3, a: 255 });
    assert_eq!(Color::default(), Color { r: 0, g: 0, b: 0, a: 0 });
    assert_eq!(Point::default(), Point::new(0, 0));
}
