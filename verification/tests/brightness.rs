use battery_applet::brightness::{
    clamp_keyboard_brightness, clamp_screen_brightness, display_icon_name, percent_label,
    screen_brightness_level, slider_brightness, slider_position, BrightnessLevel, FULL,
    SCREEN_MIN,
};

#[test]
fn screen_levels_by_example() {
    assert_eq!(screen_brightness_level(5), BrightnessLevel::Off);
    assert_eq!(screen_brightness_level(200), BrightnessLevel::Low);
    assert_eq!(screen_brightness_level(500), BrightnessLevel::Medium);
    assert_eq!(screen_brightness_level(900), BrightnessLevel::High);
}

#[test]
fn screen_level_steps() {
    assert_eq!(screen_brightness_level(10), BrightnessLevel::Off);
    assert_eq!(screen_brightness_level(11), BrightnessLevel::Low);
    assert_eq!(screen_brightness_level(332), BrightnessLevel::Low);
    assert_eq!(screen_brightness_level(333), BrightnessLevel::Medium);
    assert_eq!(screen_brightness_level(665), BrightnessLevel::Medium);
    assert_eq!(screen_brightness_level(666), BrightnessLevel::High);
    assert_eq!(screen_brightness_level(1000), BrightnessLevel::High);
}

#[test]
fn screen_brightness_is_clamped() {
    assert_eq!(SCREEN_MIN, 10);
    assert_eq!(FULL, 1000);
    assert_eq!(clamp_screen_brightness(0), 10);
    assert_eq!(clamp_screen_brightness(-400), 10);
    assert_eq!(clamp_screen_brightness(10), 10);
    assert_eq!(clamp_screen_brightness(11), 11);
    assert_eq!(clamp_screen_brightness(999), 999);
    assert_eq!(clamp_screen_brightness(1000), 1000);
    assert_eq!(clamp_screen_brightness(1001), 1000);
    assert_eq!(clamp_screen_brightness(i64::MAX), 1000);
    assert_eq!(screen_brightness_level(0), BrightnessLevel::Off);
    assert_eq!(screen_brightness_level(-1), BrightnessLevel::Off);
    assert_eq!(screen_brightness_level(5000), BrightnessLevel::High);
}

#[test]
fn keyboard_brightness_is_clamped() {
    assert_eq!(clamp_keyboard_brightness(0), 0);
    assert_eq!(clamp_keyboard_brightness(-1), 0);
    assert_eq!(clamp_keyboard_brightness(5), 5);
    assert_eq!(clamp_keyboard_brightness(1000), 1000);
    assert_eq!(clamp_keyboard_brightness(1500), 1000);
}

#[test]
fn slider_positions_are_hundredths() {
    assert_eq!(slider_brightness(0), 0);
    assert_eq!(slider_brightness(1), 10);
    assert_eq!(slider_brightness(50), 500);
    assert_eq!(slider_brightness(100), 1000);
    assert_eq!(slider_brightness(-3), -30);
    assert_eq!(slider_brightness(i32::MAX), 21_474_836_470);
    assert_eq!(slider_brightness(i32::MIN), -21_474_836_480);
}

#[test]
fn screen_level_never_rises_as_brightness_falls() {
    fn rank(level: BrightnessLevel) -> u8 {
        match level {
            BrightnessLevel::Off => 0,
            BrightnessLevel::Low => 1,
            BrightnessLevel::Medium => 2,
            BrightnessLevel::High => 3,
        }
    }
    let mut above: u8 = 3;
    let mut value: i64 = 1100;
    while value >= -100 {
        let now = rank(screen_brightness_level(value));
        assert!(now <= above);
        above = now;
        value -= 1;
    }
    assert_eq!(above, 0);
}

#[test]
fn level_words() {
    assert_eq!(BrightnessLevel::Off.name(), "off");
    assert_eq!(BrightnessLevel::Low.name(), "low");
    assert_eq!(BrightnessLevel::Medium.name(), "medium");
    assert_eq!(BrightnessLevel::High.name(), "high");
}

#[test]
fn display_icon_names() {
    assert_eq!(
        display_icon_name(BrightnessLevel::Off),
        "cosmic-applet-battery-display-brightness-off-symbolic"
    );
    assert_eq!(
        display_icon_name(BrightnessLevel::Low),
        "cosmic-applet-battery-display-brightness-low-symbolic"
    );
    assert_eq!(
        display_icon_name(BrightnessLevel::Medium),
        "cosmic-applet-battery-display-brightness-medium-symbolic"
    );
    assert_eq!(
        display_icon_name(BrightnessLevel::High),
        "cosmic-applet-battery-display-brightness-high-symbolic"
    );
}

#[test]
fn slider_position_is_the_tenth_part() {
    assert_eq!(slider_position(0), 0);
    assert_eq!(slider_position(9), 0);
    assert_eq!(slider_position(10), 1);
    assert_eq!(slider_position(509), 50);
    assert_eq!(slider_position(1000), 100);
    assert_eq!(slider_position(-9), 0);
    assert_eq!(slider_position(-10), -1);
    assert_eq!(slider_position(-19), -1);
    assert_eq!(slider_position(21_474_836_470), i32::MAX);
    assert_eq!(slider_position(21_474_836_469), i32::MAX - 1);
    assert_eq!(slider_position(i64::MAX), i32::MAX);
    assert_eq!(slider_position(-21_474_836_479), i32::MIN + 1);
    assert_eq!(slider_position(-21_474_836_480), i32::MIN);
    assert_eq!(slider_position(i64::MIN), i32::MIN);
}

#[test]
fn slider_shows_the_position_that_was_set() {
    let mut position: i32 = 0;
    while position <= 100 {
        let kept = clamp_keyboard_brightness(slider_brightness(position));
        assert_eq!(slider_position(kept), position);
        if position >= 1 {
            let shown = clamp_screen_brightness(slider_brightness(position));
            assert_eq!(slider_position(shown), position);
        }
        position += 1;
    }
    assert_eq!(slider_position(clamp_screen_brightness(slider_brightness(0))), 1);
}

#[test]
fn labels_round_to_whole_percent() {
    assert_eq!(percent_label(0), "0%");
    assert_eq!(percent_label(4), "0%");
    assert_eq!(percent_label(5), "0%");
    assert_eq!(percent_label(6), "1%");
    assert_eq!(percent_label(10), "1%");
    assert_eq!(percent_label(15), "2%");
    assert_eq!(percent_label(25), "2%");
    assert_eq!(percent_label(35), "4%");
    assert_eq!(percent_label(124), "12%");
    assert_eq!(percent_label(125), "12%");
    assert_eq!(percent_label(126), "13%");
    assert_eq!(percent_label(135), "14%");
    assert_eq!(percent_label(500), "50%");
    assert_eq!(percent_label(995), "100%");
    assert_eq!(percent_label(1000), "100%");
    assert_eq!(percent_label(-4), "-0%");
    assert_eq!(percent_label(-15), "-2%");
    assert_eq!(percent_label(-500), "-50%");
    assert_eq!(percent_label(i64::MAX), "922337203685477581%");
    assert_eq!(percent_label(i64::MIN), "-922337203685477581%");
}

#[test]
fn labels_agree_with_float_formatting() {
    for value in [0i64, 10, 125, 250, 375, 500, 625, 750, 875, 1000, -125, -250] {
        let share = value as f64 / 1000.0;
        assert_eq!(percent_label(value), format!("{:.0}%", share * 100.0));
    }
}
