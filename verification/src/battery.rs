//! The battery icon: which charge level it draws and what the icon is called.
//!
//! Charge is given in whole percent. A reading above the scale counts as full
//! and one below it as empty.

use vstd::prelude::*;
use vstd::string::StringExecFns;
use crate::text::{decimal, push_decimal};

verus! {

/// `percent` brought into the scale from 0 to 100.
pub open spec fn clamp_percent(percent: int) -> int {
    if percent < 0 {
        0
    } else if percent > 100 {
        100
    } else {
        percent
    }
}

/// The level drawn for a charge of `percent`: the first step of the ladder
/// that the charge, once on the scale, lies strictly above. While the charging
/// limit is on, the two highest levels are never drawn.
pub open spec fn level_of(percent: int, charging_limit: bool) -> nat {
    let p = clamp_percent(percent);
    if p > 95 && !charging_limit {
        100
    } else if p > 80 && !charging_limit {
        90
    } else if p > 65 {
        80
    } else if p > 35 {
        50
    } else if p > 20 {
        35
    } else if p > 14 {
        20
    } else if p > 9 {
        10
    } else if p > 5 {
        5
    } else {
        0
    }
}

/// Whether `level` is one of the levels for which an icon exists.
pub open spec fn is_level(level: nat) -> bool {
    level == 0 || level == 5 || level == 10 || level == 20 || level == 35 || level == 50
        || level == 80 || level == 90 || level == 100
}

/// The name of the icon for `level`: the level, then `limited-` while the
/// charging limit is on, then `charging-` unless the machine runs on battery.
pub open spec fn icon_name_of(level: nat, charging_limit: bool, on_battery: bool) -> Seq<char> {
    "cosmic-applet-battery-level-"@ + decimal(level) + "-"@ + (if charging_limit {
        "limited-"@
    } else {
        Seq::<char>::empty()
    }) + (if on_battery {
        Seq::<char>::empty()
    } else {
        "charging-"@
    }) + "symbolic"@
}

/// Brings a charge reading into the scale from 0 to 100.
pub fn clamp_battery_percent(percent: i64) -> (clamped: i64)
    ensures
        clamped == clamp_percent(percent as int),
{
    if percent < 0 {
        0
    } else if percent > 100 {
        100
    } else {
        percent
    }
}

/// The level that the icon draws for a charge of `percent`.
pub fn battery_level(percent: i64, charging_limit: bool) -> (level: u8)
    ensures
        level == level_of(percent as int, charging_limit),
        is_level(level as nat),
        charging_limit ==> level <= 80,
{
    let p: i64 = clamp_battery_percent(percent);
    if p > 95 && !charging_limit {
        100
    } else if p > 80 && !charging_limit {
        90
    } else if p > 65 {
        80
    } else if p > 35 {
        50
    } else if p > 20 {
        35
    } else if p > 14 {
        20
    } else if p > 9 {
        10
    } else if p > 5 {
        5
    } else {
        0
    }
}

/// The name of the battery icon.
pub fn battery_icon_name(level: u8, charging_limit: bool, on_battery: bool) -> (name: String)
    ensures
        name@ == icon_name_of(level as nat, charging_limit, on_battery),
{
    let mut name = String::from_str("cosmic-applet-battery-level-");
    push_decimal(&mut name, level as u64);
    name.append("-");
    if charging_limit {
        name.append("limited-");
    }
    if !on_battery {
        name.append("charging-");
    }
    name.append("symbolic");
    assert(name@ =~= icon_name_of(level as nat, charging_limit, on_battery));
    name
}

/// A lower charge never draws a higher level, and while the charging limit is
/// on no level above 80 is drawn.
pub proof fn level_is_monotone(lower: int, higher: int, charging_limit: bool)
    requires
        lower <= higher,
    ensures
        level_of(lower, charging_limit) <= level_of(higher, charging_limit),
        level_of(lower, true) <= 80,
        level_of(higher, true) <= 80,
{
}

/// Turning the charging limit on never raises the level, and changes it only
/// where one of the two highest levels would be drawn.
pub proof fn limit_lowers_level(percent: int)
    ensures
        level_of(percent, true) <= level_of(percent, false),
        level_of(percent, false) <= 80 ==> level_of(percent, true) == level_of(percent, false),
        level_of(percent, false) > 80 ==> level_of(percent, true) == 80,
{
}

/// A reading off the scale draws what the nearest end of the scale draws.
pub proof fn level_ignores_excess(percent: int, charging_limit: bool)
    ensures
        level_of(percent, charging_limit) == level_of(clamp_percent(percent), charging_limit),
        percent >= 100 ==> level_of(percent, charging_limit) == level_of(100, charging_limit),
        percent <= 0 ==> level_of(percent, charging_limit) == 0,
{
}

/// The icon's name tells the level, the charging limit and the power source
/// apart: two names are the same only if all three are.
pub proof fn icon_name_tells_all(
    level: nat,
    charging_limit: bool,
    on_battery: bool,
    other_level: nat,
    other_limit: bool,
    other_on_battery: bool,
)
    requires
        is_level(level),
        is_level(other_level),
        icon_name_of(level, charging_limit, on_battery) == icon_name_of(
            other_level,
            other_limit,
            other_on_battery,
        ),
    ensures
        level == other_level,
        charging_limit == other_limit,
        on_battery == other_on_battery,
{
    reveal_strlit("cosmic-applet-battery-level-");
    reveal_strlit("-");
    reveal_strlit("limited-");
    reveal_strlit("charging-");
    reveal_strlit("symbolic");
    reveal_with_fuel(decimal, 3);
    let a = icon_name_of(level, charging_limit, on_battery);
    let b = icon_name_of(other_level, other_limit, other_on_battery);
    let da = decimal(level);
    let db = decimal(other_level);
    let na: int = da.len() as int;
    let nb: int = db.len() as int;
    assert(a[28] == da[0]);
    assert(b[28] == db[0]);
    assert(a[28 + na] == '-');
    assert(b[28 + nb] == '-');
    assert(na == nb) by {
        if na < nb {
            assert(b[28 + na] == db[na]);
        } else if nb < na {
            assert(a[28 + nb] == da[nb]);
        }
    }
    assert(level == other_level) by {
        assert(a[29] == b[29]);
        assert(a[30] == b[30]);
    }
    let k: int = 29 + na;
    assert(a[k] == b[k]);
    assert(charging_limit == other_limit);
    if charging_limit {
        assert(a[k + 8] == b[k + 8]);
    }
}

} // verus!
