//! Screen and keyboard brightness: the scale, and the icon of the screen's
//! brightness.
//!
//! Brightness is given in thousandths of full brightness.

use vstd::prelude::*;
use vstd::string::StringExecFns;
use crate::text::{decimal, push_decimal};

verus! {

/// Full brightness.
pub const FULL: i64 = 1000;

/// The dimmest that the screen is ever set to: one hundredth of full.
pub const SCREEN_MIN: i64 = 10;

/// The four looks of the screen brightness icon.
#[derive(Clone, Copy, Debug, PartialEq, Eq, Structural)]
pub enum BrightnessLevel {
    Off,
    Low,
    Medium,
    High,
}

/// `value` brought into the screen's scale, from `SCREEN_MIN` to `FULL`.
pub open spec fn clamp_screen(value: int) -> int {
    if value < SCREEN_MIN {
        SCREEN_MIN as int
    } else if value > FULL {
        FULL as int
    } else {
        value
    }
}

/// `value` brought into the keyboard's scale, from 0 to `FULL`.
pub open spec fn clamp_keyboard(value: int) -> int {
    if value < 0 {
        0
    } else if value > FULL {
        FULL as int
    } else {
        value
    }
}

/// The look for a screen brightness of `value`, once on the scale: off below
/// 11 thousandths, low below 333, medium below 666, high from there on.
pub open spec fn screen_level_of(value: int) -> BrightnessLevel {
    let v = clamp_screen(value);
    if v < 11 {
        BrightnessLevel::Off
    } else if v < 333 {
        BrightnessLevel::Low
    } else if v < 666 {
        BrightnessLevel::Medium
    } else {
        BrightnessLevel::High
    }
}

/// The place of a look in the order from off to high.
pub open spec fn rank(level: BrightnessLevel) -> nat {
    match level {
        BrightnessLevel::Off => 0,
        BrightnessLevel::Low => 1,
        BrightnessLevel::Medium => 2,
        BrightnessLevel::High => 3,
    }
}

/// The word for a look in the icon's name.
pub open spec fn level_word(level: BrightnessLevel) -> Seq<char> {
    match level {
        BrightnessLevel::Off => "off"@,
        BrightnessLevel::Low => "low"@,
        BrightnessLevel::Medium => "medium"@,
        BrightnessLevel::High => "high"@,
    }
}

/// The name of the screen brightness icon for a look.
pub open spec fn display_icon_name_of(level: BrightnessLevel) -> Seq<char> {
    "cosmic-applet-battery-display-brightness-"@ + level_word(level) + "-symbolic"@
}

/// The slider position, in hundredths of full, that shows a brightness of
/// `value`: the tenth part of `value`, rounded towards zero, and no further
/// out than an `i32` reaches.
pub open spec fn slider_position_of(value: int) -> int {
    let hundredths = if value >= 0 {
        value / 10
    } else {
        -((-value) / 10)
    };
    if hundredths > i32::MAX {
        i32::MAX as int
    } else if hundredths < i32::MIN {
        i32::MIN as int
    } else {
        hundredths
    }
}

/// `magnitude` thousandths in whole hundredths, rounded to the nearest, and a
/// half to the even neighbour.
pub open spec fn rounded_percent(magnitude: nat) -> nat {
    let whole = magnitude / 10;
    let rest = magnitude % 10;
    if rest > 5 || (rest == 5 && whole % 2 == 1) {
        whole + 1
    } else {
        whole
    }
}

/// The label beside a slider: the brightness in whole percent of full, with a
/// minus sign for a brightness below zero, and a percent sign.
pub open spec fn percent_label_of(value: int) -> Seq<char> {
    (if value < 0 {
        seq!['-']
    } else {
        Seq::<char>::empty()
    }) + decimal(rounded_percent((if value < 0 { -value } else { value }) as nat)) + seq!['%']
}

impl BrightnessLevel {
    /// The word for this look in the icon's name.
    pub fn name(self) -> (word: &'static str)
        ensures
            word@ == level_word(self),
    {
        match self {
            BrightnessLevel::Off => "off",
            BrightnessLevel::Low => "low",
            BrightnessLevel::Medium => "medium",
            BrightnessLevel::High => "high",
        }
    }
}

/// Brings a screen brightness into the scale from `SCREEN_MIN` to `FULL`.
pub fn clamp_screen_brightness(value: i64) -> (clamped: i64)
    ensures
        clamped == clamp_screen(value as int),
        SCREEN_MIN <= clamped <= FULL,
{
    if value < SCREEN_MIN {
        SCREEN_MIN
    } else if value > FULL {
        FULL
    } else {
        value
    }
}

/// Brings a keyboard brightness into the scale from 0 to `FULL`.
pub fn clamp_keyboard_brightness(value: i64) -> (clamped: i64)
    ensures
        clamped == clamp_keyboard(value as int),
        0 <= clamped <= FULL,
{
    if value < 0 {
        0
    } else if value > FULL {
        FULL
    } else {
        value
    }
}

/// The brightness that a slider position, in hundredths of full, stands for.
pub fn slider_brightness(position: i32) -> (value: i64)
    ensures
        value == position as int * 10,
{
    let wide: i64 = position as i64;
    wide * 10
}

/// The slider position that shows a brightness of `value`.
pub fn slider_position(value: i64) -> (position: i32)
    ensures
        position == slider_position_of(value as int),
{
    if value >= 0 {
        let hundredths: i64 = value / 10;
        if hundredths > 2_147_483_647 {
            i32::MAX
        } else {
            hundredths as i32
        }
    } else if value <= -21_474_836_480 {
        i32::MIN
    } else {
        let hundredths: i64 = (-value) / 10;
        (-hundredths) as i32
    }
}

/// The label beside a slider for a brightness of `value`.
pub fn percent_label(value: i64) -> (label: String)
    ensures
        label@ == percent_label_of(value as int),
{
    proof {
        reveal_strlit("-");
        reveal_strlit("%");
    }
    let mut label = String::new();
    let magnitude: u64 = if value >= 0 {
        value as u64
    } else {
        label.append("-");
        let below: u64 = (-(value + 1)) as u64;
        below + 1
    };
    let whole: u64 = magnitude / 10;
    let rest: u64 = magnitude % 10;
    let rounded: u64 = if rest > 5 || (rest == 5 && whole % 2 == 1) {
        whole + 1
    } else {
        whole
    };
    push_decimal(&mut label, rounded);
    label.append("%");
    assert(label@ =~= percent_label_of(value as int));
    label
}

/// The look of the icon for a screen brightness of `value`.
pub fn screen_brightness_level(value: i64) -> (level: BrightnessLevel)
    ensures
        level == screen_level_of(value as int),
{
    let v: i64 = clamp_screen_brightness(value);
    if v < 11 {
        BrightnessLevel::Off
    } else if v < 333 {
        BrightnessLevel::Low
    } else if v < 666 {
        BrightnessLevel::Medium
    } else {
        BrightnessLevel::High
    }
}

/// The name of the screen brightness icon.
pub fn display_icon_name(level: BrightnessLevel) -> (name: String)
    ensures
        name@ == display_icon_name_of(level),
{
    let mut name = String::from_str("cosmic-applet-battery-display-brightness-");
    name.append(level.name());
    name.append("-symbolic");
    name
}

/// A dimmer screen never gets a brighter look.
pub proof fn screen_level_is_monotone(dimmer: int, brighter: int)
    requires
        dimmer <= brighter,
    ensures
        rank(screen_level_of(dimmer)) <= rank(screen_level_of(brighter)),
{
}

/// A slider set to a position on its scale, from 0 to 100, shows that very
/// position again.
pub proof fn slider_shows_what_was_set(position: int)
    requires
        0 <= position <= 100,
    ensures
        slider_position_of(clamp_keyboard(position * 10)) == position,
        position >= 1 ==> slider_position_of(clamp_screen(position * 10)) == position,
{
}

/// A value off the screen's scale looks as the nearest end of the scale does:
/// nothing is dimmer than `SCREEN_MIN`, which still counts as off.
pub proof fn screen_level_ignores_excess(value: int)
    ensures
        screen_level_of(value) == screen_level_of(clamp_screen(value)),
        value <= SCREEN_MIN ==> screen_level_of(value) == BrightnessLevel::Off,
        value >= FULL ==> screen_level_of(value) == BrightnessLevel::High,
{
}

} // verus!
