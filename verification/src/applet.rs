//! The applet's state and how it answers each message.
//!
//! The applet itself performs nothing. Each message yields the next state and
//! a list of actions, in the order in which the caller is to perform them.

use vstd::prelude::*;
use vstd::string::StringExecFns;
use crate::battery::{
    battery_icon_name, battery_level, clamp_battery_percent, clamp_percent, icon_name_of,
    level_of,
};
use crate::brightness::{
    clamp_keyboard, clamp_keyboard_brightness, clamp_screen, clamp_screen_brightness,
    display_icon_name, display_icon_name_of, screen_brightness_level, screen_level_of,
    slider_brightness, FULL, SCREEN_MIN,
};
use crate::duration::{duration_text, format_seconds};
use crate::text::{decimal, push_decimal};

verus! {

/// The power profile that the machine runs in.
#[derive(Clone, Copy, Debug, PartialEq, Eq, Structural)]
pub enum Power {
    Battery,
    Balanced,
    Performance,
}

/// What can be asked of a backlight.
#[derive(Clone, Copy, Debug, PartialEq, Eq, Structural)]
pub enum BacklightRequest {
    /// Report the current brightness.
    Get,
    /// Set the brightness, in thousandths of full.
    SetTo(i64),
}

/// What can be asked of the power profile service.
#[derive(Clone, Copy, Debug, PartialEq, Eq, Structural)]
pub enum PowerProfileRequest {
    /// Report the current profile.
    Get,
    /// Switch to a profile.
    SetTo(Power),
}

/// What the caller is to do after a message.
#[derive(Clone, Copy, Debug, PartialEq, Eq, Structural)]
pub enum Action {
    /// Move the animations on to the present.
    AdvanceTimeline,
    /// Start the animation of the charging limit's switch.
    StartLimitAnimation,
    /// Send a request to the keyboard backlight.
    Keyboard(BacklightRequest),
    /// Send a request to the screen backlight.
    Screen(BacklightRequest),
    /// Send a request to the power profile service.
    Profile(PowerProfileRequest),
    /// Open the popup under this id.
    OpenPopup(u128),
    /// Close the popup with this id.
    ClosePopup(u128),
    /// Log the error that the message carried.
    LogError,
}

/// What the applet is told: the user's input and what the devices report.
/// Charge is in whole percent, brightness in thousandths of full, a slider's
/// position in hundredths of full.
#[derive(Clone, Copy, Debug, PartialEq, Eq, Structural)]
pub enum Message {
    TogglePopup,
    Update { on_battery: bool, percent: i64, time_to_empty: i64 },
    SetKbdBrightness(i32),
    SetScreenBrightness(i32),
    SetChargingLimit(bool),
    UpdateKbdBrightness(i64),
    UpdateScreenBrightness(i64),
    OpenBatterySettings,
    InitKbdBacklight(i64),
    InitScreenBacklight(i64),
    Errored,
    InitProfile(Power),
    Profile(Power),
    SelectProfile(Power),
    Frame,
}

/// The applet's state.
#[derive(Clone, Debug)]
pub struct BatteryApplet {
    pub icon_name: String,
    pub display_icon_name: String,
    pub charging_limit: bool,
    pub battery_percent: i64,
    pub on_battery: bool,
    /// Seconds until the battery is empty.
    pub time_remaining: u64,
    pub kbd_brightness: i64,
    pub screen_brightness: i64,
    /// The id of the popup while it is open.
    pub popup: Option<u128>,
    /// The highest popup id given out so far.
    pub id_ctr: u128,
    /// Whether the screen backlight has announced itself.
    pub screen_connected: bool,
    /// Whether the keyboard backlight has announced itself.
    pub kbd_connected: bool,
    pub power_profile: Power,
    /// Whether the power profile service has announced itself.
    pub profile_connected: bool,
}

/// The state as plain values.
pub ghost struct AppletState {
    pub icon_name: Seq<char>,
    pub display_icon_name: Seq<char>,
    pub charging_limit: bool,
    pub battery_percent: int,
    pub on_battery: bool,
    pub time_remaining: nat,
    pub kbd_brightness: int,
    pub screen_brightness: int,
    pub popup: Option<nat>,
    pub id_ctr: nat,
    pub screen_connected: bool,
    pub kbd_connected: bool,
    pub power_profile: Power,
    pub profile_connected: bool,
}

impl View for BatteryApplet {
    type V = AppletState;

    open spec fn view(&self) -> AppletState {
        AppletState {
            icon_name: self.icon_name@,
            display_icon_name: self.display_icon_name@,
            charging_limit: self.charging_limit,
            battery_percent: self.battery_percent as int,
            on_battery: self.on_battery,
            time_remaining: self.time_remaining as nat,
            kbd_brightness: self.kbd_brightness as int,
            screen_brightness: self.screen_brightness as int,
            popup: match self.popup {
                Some(id) => Some(id as nat),
                None => None,
            },
            id_ctr: self.id_ctr as nat,
            screen_connected: self.screen_connected,
            kbd_connected: self.kbd_connected,
            power_profile: self.power_profile,
            profile_connected: self.profile_connected,
        }
    }
}

/// The state before any message.
pub open spec fn initial_state() -> AppletState {
    AppletState {
        icon_name: "battery-symbolic"@,
        display_icon_name: "display-brightness-symbolic"@,
        charging_limit: false,
        battery_percent: 0,
        on_battery: false,
        time_remaining: 0,
        kbd_brightness: 0,
        screen_brightness: 0,
        popup: None,
        id_ctr: 0,
        screen_connected: false,
        kbd_connected: false,
        power_profile: Power::Balanced,
        profile_connected: false,
    }
}

/// What holds of every state that the applet reaches: charge and screen
/// brightness are on their scales, and an open popup has an id that was given
/// out.
pub open spec fn well_formed(s: AppletState) -> bool {
    &&& 0 <= s.battery_percent <= 100
    &&& 0 <= s.screen_brightness <= FULL
    &&& s.popup matches Some(id) ==> 1 <= id <= s.id_ctr
}

/// The state after a battery reading: the charge, brought into its scale, and
/// the icon for it.
pub open spec fn with_battery(s: AppletState, percent: int, on_battery: bool) -> AppletState {
    AppletState {
        on_battery,
        battery_percent: clamp_percent(percent),
        icon_name: icon_name_of(level_of(percent, s.charging_limit), s.charging_limit, on_battery),
        ..s
    }
}

/// The state after a screen brightness reading: the brightness, brought into
/// its scale, and the icon for it.
pub open spec fn with_display(s: AppletState, value: int) -> AppletState {
    AppletState {
        screen_brightness: clamp_screen(value),
        display_icon_name: display_icon_name_of(screen_level_of(value)),
        ..s
    }
}

/// The state after the charging limit was switched: the battery icon is drawn
/// anew for the charge that the state holds.
pub open spec fn with_charging_limit(s: AppletState, limit: bool) -> AppletState {
    with_battery(AppletState { charging_limit: limit, ..s }, s.battery_percent, s.on_battery)
}

/// A signed 64-bit number read as an unsigned one of the same bits.
pub open spec fn reinterpret_unsigned(value: int) -> nat {
    if value >= 0 {
        value as nat
    } else {
        (value + 0x1_0000_0000_0000_0000) as nat
    }
}

/// The state after a message.
pub open spec fn next_state(s: AppletState, message: Message) -> AppletState {
    match message {
        Message::SetKbdBrightness(position) => AppletState {
            kbd_brightness: clamp_keyboard(position as int * 10),
            ..s
        },
        Message::SetScreenBrightness(position) => with_display(s, position as int * 10),
        Message::SetChargingLimit(limit) => with_charging_limit(s, limit),
        Message::TogglePopup => match s.popup {
            Some(_) => AppletState { popup: None, ..s },
            None => AppletState { popup: Some((s.id_ctr + 1) as nat), id_ctr: s.id_ctr + 1, ..s },
        },
        Message::Update { on_battery, percent, time_to_empty } => AppletState {
            time_remaining: reinterpret_unsigned(time_to_empty as int),
            ..with_battery(s, percent as int, on_battery)
        },
        Message::UpdateKbdBrightness(value) => AppletState { kbd_brightness: value as int, ..s },
        Message::InitKbdBacklight(value) => AppletState {
            kbd_connected: true,
            kbd_brightness: value as int,
            ..s
        },
        Message::InitScreenBacklight(value) => AppletState {
            screen_connected: true,
            ..with_display(s, value as int)
        },
        Message::UpdateScreenBrightness(value) => with_display(s, value as int),
        Message::InitProfile(profile) => AppletState {
            profile_connected: true,
            power_profile: profile,
            ..s
        },
        Message::Profile(profile) => AppletState { power_profile: profile, ..s },
        Message::Frame
        | Message::OpenBatterySettings
        | Message::Errored
        | Message::SelectProfile(_) => s,
    }
}

/// `action` if `condition` holds, else nothing.
pub open spec fn only_if(condition: bool, action: Action) -> Seq<Action> {
    if condition {
        seq![action]
    } else {
        Seq::<Action>::empty()
    }
}

/// The requests for the current brightness, to each backlight that has
/// announced itself: the keyboard's first.
pub open spec fn ask_backlights(s: AppletState) -> Seq<Action> {
    only_if(s.kbd_connected, Action::Keyboard(BacklightRequest::Get)) + only_if(
        s.screen_connected,
        Action::Screen(BacklightRequest::Get),
    )
}

/// What the caller is to do after a message that came in state `s`, in order.
/// A request goes only to a device that has announced itself.
pub open spec fn actions_of(s: AppletState, message: Message) -> Seq<Action> {
    match message {
        Message::Frame => seq![Action::AdvanceTimeline],
        Message::SetKbdBrightness(position) => only_if(
            s.kbd_connected,
            Action::Keyboard(BacklightRequest::SetTo(clamp_keyboard(position as int * 10) as i64)),
        ),
        Message::SetScreenBrightness(position) => only_if(
            s.screen_connected,
            Action::Screen(BacklightRequest::SetTo(clamp_screen(position as int * 10) as i64)),
        ),
        Message::SetChargingLimit(_) => seq![Action::StartLimitAnimation],
        Message::Errored => seq![Action::LogError],
        Message::TogglePopup => match s.popup {
            Some(id) => seq![Action::ClosePopup(id as u128)],
            None => ask_backlights(s) + only_if(
                s.profile_connected,
                Action::Profile(PowerProfileRequest::Get),
            ) + seq![Action::OpenPopup((s.id_ctr + 1) as u128)],
        },
        Message::InitKbdBacklight(_) => seq![Action::Keyboard(BacklightRequest::Get)],
        Message::InitScreenBacklight(_) => seq![Action::Screen(BacklightRequest::Get)],
        Message::Profile(_) => ask_backlights(s),
        Message::SelectProfile(profile) => only_if(
            s.profile_connected,
            Action::Profile(PowerProfileRequest::SetTo(profile)),
        ),
        Message::OpenBatterySettings
        | Message::Update { .. }
        | Message::UpdateKbdBrightness(_)
        | Message::UpdateScreenBrightness(_)
        | Message::InitProfile(_) => Seq::<Action>::empty(),
    }
}

/// Whether a message can be taken in state `s`: always, unless it opens a
/// popup and the popup ids have run out.
pub open spec fn can_take(s: AppletState, message: Message) -> bool {
    message is TogglePopup && s.popup is None ==> s.id_ctr < u128::MAX
}

/// The line under the applet's title: the charge alone while on mains, else
/// the time that is left, the caller's words for "until empty", and the charge
/// in brackets.
pub open spec fn description_of(
    s: AppletState,
    until_empty: Seq<char>,
    minutes_unit: Seq<char>,
    seconds_unit: Seq<char>,
) -> Seq<char> {
    if !s.on_battery {
        decimal(s.battery_percent as nat) + seq!['%']
    } else {
        duration_text(s.time_remaining, minutes_unit, seconds_unit) + seq![' '] + until_empty
            + seq![' ', '('] + decimal(s.battery_percent as nat) + seq!['%', ')']
    }
}

/// An `i64` read as the `u64` of the same bits.
pub fn to_unsigned(value: i64) -> (bits: u64)
    ensures
        bits == reinterpret_unsigned(value as int),
{
    if value >= 0 {
        value as u64
    } else {
        let below: u64 = (-(value + 1)) as u64;
        u64::MAX - below
    }
}

impl BatteryApplet {
    /// The applet before any message: placeholder icons, nothing connected,
    /// no popup.
    pub fn new() -> (applet: BatteryApplet)
        ensures
            applet@ == initial_state(),
            well_formed(applet@),
    {
        BatteryApplet {
            icon_name: String::from_str("battery-symbolic"),
            display_icon_name: String::from_str("display-brightness-symbolic"),
            charging_limit: false,
            battery_percent: 0,
            on_battery: false,
            time_remaining: 0,
            kbd_brightness: 0,
            screen_brightness: 0,
            popup: None,
            id_ctr: 0,
            screen_connected: false,
            kbd_connected: false,
            power_profile: Power::Balanced,
            profile_connected: false,
        }
    }

    /// Takes a battery reading: keeps the charge, brought into its scale, and
    /// names the icon for it.
    pub fn update_battery(&mut self, percent: i64, on_battery: bool)
        ensures
            final(self)@ == with_battery(old(self)@, percent as int, on_battery),
    {
        self.on_battery = on_battery;
        self.battery_percent = clamp_battery_percent(percent);
        let level: u8 = battery_level(percent, self.charging_limit);
        self.icon_name = battery_icon_name(level, self.charging_limit, on_battery);
    }

    /// Takes a screen brightness reading: keeps the brightness, brought into
    /// its scale, and names the icon for it.
    pub fn update_display(&mut self, value: i64)
        ensures
            final(self)@ == with_display(old(self)@, value as int),
    {
        self.screen_brightness = clamp_screen_brightness(value);
        self.display_icon_name = display_icon_name(screen_brightness_level(value));
    }

    /// Switches the charging limit and names the battery icon anew.
    pub fn set_charging_limit(&mut self, limit: bool)
        ensures
            final(self)@ == with_charging_limit(old(self)@, limit),
    {
        self.charging_limit = limit;
        let percent: i64 = self.battery_percent;
        let on_battery: bool = self.on_battery;
        self.update_battery(percent, on_battery);
    }

    /// Whether this state is well-formed.
    pub fn is_well_formed(&self) -> (yes: bool)
        ensures
            yes == well_formed(self@),
    {
        let popup_known: bool = match self.popup {
            Some(id) => 1 <= id && id <= self.id_ctr,
            None => true,
        };
        0 <= self.battery_percent && self.battery_percent <= 100 && 0 <= self.screen_brightness
            && self.screen_brightness <= FULL && popup_known
    }

    /// Whether `update` can take `message` in this state: always, unless the
    /// message opens a popup and the popup ids have run out.
    pub fn accepts(&self, message: Message) -> (yes: bool)
        ensures
            yes == can_take(self@, message),
    {
        match message {
            Message::TogglePopup => self.popup.is_some() || self.id_ctr < u128::MAX,
            _ => true,
        }
    }

    /// Takes a message: moves to the next state and returns what the caller is
    /// to do, in order. The one message that cannot always be taken is the one
    /// that opens a popup, once every popup id has been given out: `accepts`
    /// tells.
    pub fn update(&mut self, message: Message) -> (actions: Vec<Action>)
        requires
            can_take(old(self)@, message),
        ensures
            final(self)@ == next_state(old(self)@, message),
            actions@ == actions_of(old(self)@, message),
            well_formed(old(self)@) ==> well_formed(final(self)@),
    {
        let mut actions: Vec<Action> = Vec::new();
        match message {
            Message::Frame => {
                actions.push(Action::AdvanceTimeline);
            },
            Message::SetKbdBrightness(position) => {
                self.kbd_brightness = clamp_keyboard_brightness(slider_brightness(position));
                if self.kbd_connected {
                    actions.push(Action::Keyboard(BacklightRequest::SetTo(self.kbd_brightness)));
                }
            },
            Message::SetScreenBrightness(position) => {
                self.update_display(slider_brightness(position));
                if self.screen_connected {
                    actions.push(Action::Screen(BacklightRequest::SetTo(self.screen_brightness)));
                }
            },
            Message::SetChargingLimit(limit) => {
                actions.push(Action::StartLimitAnimation);
                self.set_charging_limit(limit);
            },
            Message::OpenBatterySettings => {},
            Message::Errored => {
                actions.push(Action::LogError);
            },
            Message::TogglePopup => {
                match self.popup {
                    Some(id) => {
                        self.popup = None;
                        actions.push(Action::ClosePopup(id));
                    },
                    None => {
                        self.push_backlight_queries(&mut actions);
                        if self.profile_connected {
                            actions.push(Action::Profile(PowerProfileRequest::Get));
                        }
                        self.id_ctr = self.id_ctr + 1;
                        self.popup = Some(self.id_ctr);
                        actions.push(Action::OpenPopup(self.id_ctr));
                    },
                }
            },
            Message::Update { on_battery, percent, time_to_empty } => {
                self.update_battery(percent, on_battery);
                self.time_remaining = to_unsigned(time_to_empty);
            },
            Message::UpdateKbdBrightness(value) => {
                self.kbd_brightness = value;
            },
            Message::InitKbdBacklight(value) => {
                actions.push(Action::Keyboard(BacklightRequest::Get));
                self.kbd_connected = true;
                self.kbd_brightness = value;
            },
            Message::InitScreenBacklight(value) => {
                actions.push(Action::Screen(BacklightRequest::Get));
                self.screen_connected = true;
                self.update_display(value);
            },
            Message::UpdateScreenBrightness(value) => {
                self.update_display(value);
            },
            Message::InitProfile(profile) => {
                self.profile_connected = true;
                self.power_profile = profile;
            },
            Message::Profile(profile) => {
                self.power_profile = profile;
                self.push_backlight_queries(&mut actions);
            },
            Message::SelectProfile(profile) => {
                if self.profile_connected {
                    actions.push(Action::Profile(PowerProfileRequest::SetTo(profile)));
                }
            },
        }
        assert(actions@ =~= actions_of(old(self)@, message));
        actions
    }

    /// Adds a request for the current brightness to each backlight that has
    /// announced itself.
    fn push_backlight_queries(&self, actions: &mut Vec<Action>)
        ensures
            final(actions)@ == old(actions)@ + ask_backlights(self@),
    {
        if self.kbd_connected {
            actions.push(Action::Keyboard(BacklightRequest::Get));
        }
        if self.screen_connected {
            actions.push(Action::Screen(BacklightRequest::Get));
        }
        assert(final(actions)@ =~= old(actions)@ + ask_backlights(self@));
    }

    /// Whether `profile` is the one to be marked as chosen.
    pub fn is_selected(&self, profile: Power) -> (selected: bool)
        ensures
            selected == (self@.power_profile == profile),
    {
        self.power_profile == profile
    }

    /// The line under the applet's title, with the caller's words for "until
    /// empty" and for the units of time.
    pub fn description(&self, until_empty: &str, minutes_unit: &str, seconds_unit: &str) -> (text:
        String)
        requires
            well_formed(self@),
        ensures
            text@ == description_of(self@, until_empty@, minutes_unit@, seconds_unit@),
    {
        proof {
            reveal_strlit("%");
            reveal_strlit(" ");
            reveal_strlit(" (");
            reveal_strlit("%)");
        }
        let percent: u64 = self.battery_percent as u64;
        if !self.on_battery {
            let mut text = String::new();
            push_decimal(&mut text, percent);
            text.append("%");
            assert(text@ =~= description_of(self@, until_empty@, minutes_unit@, seconds_unit@));
            text
        } else {
            let mut text = format_seconds(self.time_remaining, minutes_unit, seconds_unit);
            text.append(" ");
            text.append(until_empty);
            text.append(" (");
            push_decimal(&mut text, percent);
            text.append("%)");
            assert(text@ =~= description_of(self@, until_empty@, minutes_unit@, seconds_unit@));
            text
        }
    }
}

/// Every message that can be taken leaves a well-formed state well-formed.
pub proof fn update_keeps_well_formed(s: AppletState, message: Message)
    requires
        well_formed(s),
    ensures
        well_formed(next_state(s, message)),
{
}

/// After a battery reading the icon is the one for the charge and the
/// switches that the state holds, and it stays so when the charging limit is
/// switched.
pub proof fn battery_icon_follows_state(s: AppletState, percent: int, on_battery: bool, limit: bool)
    ensures
        ({
            let t = with_battery(s, percent, on_battery);
            t.icon_name == icon_name_of(
                level_of(t.battery_percent, t.charging_limit),
                t.charging_limit,
                t.on_battery,
            )
        }),
        ({
            let u = with_charging_limit(with_battery(s, percent, on_battery), limit);
            &&& u.battery_percent == clamp_percent(percent)
            &&& u.icon_name == icon_name_of(level_of(percent, limit), limit, on_battery)
        }),
{
}

/// After a screen brightness reading the icon is the one for the brightness
/// that the state holds, and taking the same reading again changes nothing.
pub proof fn display_icon_follows_state(s: AppletState, value: int)
    ensures
        ({
            let t = with_display(s, value);
            t.display_icon_name == display_icon_name_of(screen_level_of(t.screen_brightness))
        }),
        with_display(with_display(s, value), value) == with_display(s, value),
        with_display(s, clamp_screen(value)) == with_display(s, value),
{
}

/// A request goes only to a device that has announced itself, now or before.
pub proof fn requests_need_connection(s: AppletState, message: Message, i: int)
    requires
        0 <= i < actions_of(s, message).len(),
    ensures
        actions_of(s, message)[i] is Keyboard ==> next_state(s, message).kbd_connected,
        actions_of(s, message)[i] is Screen ==> next_state(s, message).screen_connected,
        actions_of(s, message)[i] is Profile ==> next_state(s, message).profile_connected,
        actions_of(s, message)[i] is Keyboard && !(message is InitKbdBacklight)
            ==> s.kbd_connected,
        actions_of(s, message)[i] is Screen && !(message is InitScreenBacklight)
            ==> s.screen_connected,
        actions_of(s, message)[i] is Profile ==> s.profile_connected,
{
}

/// A device that has announced itself stays connected.
pub proof fn connections_last(s: AppletState, message: Message)
    ensures
        s.kbd_connected ==> next_state(s, message).kbd_connected,
        s.screen_connected ==> next_state(s, message).screen_connected,
        s.profile_connected ==> next_state(s, message).profile_connected,
{
}

/// A brightness that is sent to a backlight is on that backlight's scale, and
/// it is the brightness that the state then holds.
pub proof fn sent_brightness_is_on_scale(s: AppletState, message: Message, i: int, value: i64)
    requires
        0 <= i < actions_of(s, message).len(),
    ensures
        actions_of(s, message)[i] == Action::Keyboard(BacklightRequest::SetTo(value)) ==> 0
            <= value <= FULL && next_state(s, message).kbd_brightness == value,
        actions_of(s, message)[i] == Action::Screen(BacklightRequest::SetTo(value))
            ==> SCREEN_MIN <= value <= FULL && next_state(s, message).screen_brightness == value,
{
}

/// Toggling the popup opens it under a fresh id when it is closed and closes
/// it when it is open: two toggles leave it as it was, with one more id given
/// out if it was closed.
pub proof fn toggle_opens_then_closes(s: AppletState)
    requires
        well_formed(s),
        s.popup is None,
        can_take(s, Message::TogglePopup),
    ensures
        ({
            let opened = next_state(s, Message::TogglePopup);
            let closed = next_state(opened, Message::TogglePopup);
            &&& opened.popup == Some((s.id_ctr + 1) as nat)
            &&& actions_of(opened, Message::TogglePopup) == seq![
                Action::ClosePopup((s.id_ctr + 1) as u128),
            ]
            &&& closed == AppletState { id_ctr: s.id_ctr + 1, ..s }
        }),
{
}

} // verus!
