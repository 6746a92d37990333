use battery_applet::battery::{battery_icon_name, battery_level, clamp_battery_percent};

const LEVELS: [u8; 9] = [0, 5, 10, 20, 35, 50, 80, 90, 100];

#[test]
fn level_steps_without_limit() {
    assert_eq!(battery_level(0, false), 0);
    assert_eq!(battery_level(5, false), 0);
    assert_eq!(battery_level(6, false), 5);
    assert_eq!(battery_level(9, false), 5);
    assert_eq!(battery_level(10, false), 10);
    assert_eq!(battery_level(14, false), 10);
    assert_eq!(battery_level(15, false), 20);
    assert_eq!(battery_level(20, false), 20);
    assert_eq!(battery_level(21, false), 35);
    assert_eq!(battery_level(35, false), 35);
    assert_eq!(battery_level(36, false), 50);
    assert_eq!(battery_level(65, false), 50);
    assert_eq!(battery_level(66, false), 80);
    assert_eq!(battery_level(80, false), 80);
    assert_eq!(battery_level(81, false), 90);
    assert_eq!(battery_level(95, false), 90);
    assert_eq!(battery_level(96, false), 100);
    assert_eq!(battery_level(100, false), 100);
}

#[test]
fn level_steps_with_limit() {
    assert_eq!(battery_level(100, true), 80);
    assert_eq!(battery_level(96, true), 80);
    assert_eq!(battery_level(81, true), 80);
    assert_eq!(battery_level(66, true), 80);
    assert_eq!(battery_level(65, true), 50);
    assert_eq!(battery_level(21, true), 35);
    assert_eq!(battery_level(15, true), 20);
    assert_eq!(battery_level(10, true), 10);
    assert_eq!(battery_level(6, true), 5);
    assert_eq!(battery_level(0, true), 0);
}

#[test]
fn level_never_rises_as_charge_falls() {
    for limit in [false, true] {
        let mut above: u8 = battery_level(100, limit);
        let mut percent: i64 = 100;
        while percent >= 0 {
            let level = battery_level(percent, limit);
            assert!(level <= above);
            assert!(LEVELS.contains(&level));
            if limit {
                assert!(level <= 80);
            }
            above = level;
            percent -= 1;
        }
    }
}

#[test]
fn limit_only_cuts_the_top() {
    let mut percent: i64 = -5;
    while percent <= 105 {
        let free = battery_level(percent, false);
        let limited = battery_level(percent, true);
        if free > 80 {
            assert_eq!(limited, 80);
        } else {
            assert_eq!(limited, free);
        }
        percent += 1;
    }
}

#[test]
fn charge_off_the_scale_is_clamped() {
    assert_eq!(clamp_battery_percent(150), 100);
    assert_eq!(clamp_battery_percent(-10), 0);
    assert_eq!(clamp_battery_percent(0), 0);
    assert_eq!(clamp_battery_percent(100), 100);
    assert_eq!(clamp_battery_percent(42), 42);
    assert_eq!(clamp_battery_percent(i64::MAX), 100);
    assert_eq!(clamp_battery_percent(i64::MIN), 0);
    assert_eq!(battery_level(150, false), battery_level(100, false));
    assert_eq!(battery_level(150, false), 100);
    assert_eq!(battery_level(150, true), 80);
    assert_eq!(battery_level(-10, false), battery_level(0, false));
    assert_eq!(battery_level(-10, false), 0);
    assert_eq!(battery_level(i64::MIN, true), 0);
}

#[test]
fn icon_name_on_battery() {
    assert_eq!(
        battery_icon_name(50, false, true),
        "cosmic-applet-battery-level-50-symbolic"
    );
    assert_eq!(
        battery_icon_name(0, false, true),
        "cosmic-applet-battery-level-0-symbolic"
    );
    assert_eq!(
        battery_icon_name(100, false, true),
        "cosmic-applet-battery-level-100-symbolic"
    );
}

#[test]
fn icon_name_charging() {
    assert_eq!(
        battery_icon_name(90, false, false),
        "cosmic-applet-battery-level-90-charging-symbolic"
    );
    assert_eq!(
        battery_icon_name(5, false, false),
        "cosmic-applet-battery-level-5-charging-symbolic"
    );
}

#[test]
fn icon_name_limited() {
    assert_eq!(
        battery_icon_name(80, true, true),
        "cosmic-applet-battery-level-80-limited-symbolic"
    );
    assert_eq!(
        battery_icon_name(80, true, false),
        "cosmic-applet-battery-level-80-limited-charging-symbolic"
    );
    assert_eq!(
        battery_icon_name(35, true, false),
        "cosmic-applet-battery-level-35-limited-charging-symbolic"
    );
}

#[test]
fn icon_names_are_all_different() {
    let mut names: Vec<String> = Vec::new();
    for level in LEVELS {
        for limit in [false, true] {
            for on_battery in [false, true] {
                let name = battery_icon_name(level, limit, on_battery);
                assert!(!names.contains(&name));
                names.push(name);
            }
        }
    }
    assert_eq!(names.len(), 36);
}

#[test]
fn levels_agree_with_the_ladder_on_fractions() {
    fn ladder(percent: f64, limit: bool) -> u8 {
        let p = percent.clamp(0.0, 100.0);
        if p > 95.0 && !limit {
            100
        } else if p > 80.0 && !limit {
            90
        } else if p > 65.0 {
            80
        } else if p > 35.0 {
            50
        } else if p > 20.0 {
            35
        } else if p > 14.0 {
            20
        } else if p > 9.0 {
            10
        } else if p > 5.0 {
            5
        } else {
            0
        }
    }
    for limit in [false, true] {
        let mut tenths: i64 = -50;
        while tenths <= 1050 {
            let percent = tenths as f64 / 10.0;
            assert_eq!(battery_level(percent.ceil() as i64, limit), ladder(percent, limit));
            tenths += 1;
        }
    }
}
