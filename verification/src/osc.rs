//! The parameter protocol: typed named parameters exchanged with the
//! remote peer, and the router that maps each recognized inbound
//! parameter to a configuration update or a scheduler event.
//!
//! A parameter carries one value: a flag, or a scaled count standing for
//! the wire's fractional time encoding (see [`crate::codec`]). Outbound
//! packets for flag parameters are framed here through the OSC encoder;
//! inbound packets are decoded by the transport edge, which hands the
//! router one path and one value at a time.

use vstd::prelude::*;
use vstd::string::StrSliceExecFns;
use vstd::string::StringExecFns;

use crate::codec::spec_clamp;
use crate::codec::wire_to_hour;
use crate::codec::wire_to_minute;
use crate::types::AlarmSettings;
use crate::types::AppState;
use crate::types::TimerEvent;

verus! {

/// One named, typed value exchanged with the remote peer.
#[derive(Clone, Copy, PartialEq, Eq, Structural, Debug)]
pub enum WireValue {
    /// A boolean parameter.
    Bool(bool),
    /// A fractional parameter, as the scaled count of hundredths that
    /// rounding the wire fraction yields.
    Scaled(i32),
}

/// A named parameter with exactly one value, constructed per send or
/// receive and not retained.
#[derive(Debug)]
pub struct ParameterMessage {
    pub path: String,
    pub value: WireValue,
}

/// Inbound path of the wake hour.
pub open spec fn spec_hour_path() -> Seq<char> {
    "/avatar/parameters/AlarmSetHour"@
}

/// Inbound path of the wake minute.
pub open spec fn spec_minute_path() -> Seq<char> {
    "/avatar/parameters/AlarmSetMinute"@
}

/// Inbound path of the armed flag.
pub open spec fn spec_is_on_path() -> Seq<char> {
    "/avatar/parameters/AlarmIsOn"@
}

/// Inbound path of the snooze button.
pub open spec fn spec_snooze_path() -> Seq<char> {
    "/avatar/parameters/SnoozePressed"@
}

/// Inbound path of the stop button.
pub open spec fn spec_stop_path() -> Seq<char> {
    "/avatar/parameters/StopPressed"@
}

/// Outbound path of the firing flag.
pub open spec fn spec_fire_path() -> Seq<char> {
    "/avatar/parameters/AlarmShouldFire"@
}

pub fn alarm_set_hour_path() -> (r: &'static str)
    ensures
        r@ == spec_hour_path(),
{
    "/avatar/parameters/AlarmSetHour"
}

pub fn alarm_set_minute_path() -> (r: &'static str)
    ensures
        r@ == spec_minute_path(),
{
    "/avatar/parameters/AlarmSetMinute"
}

pub fn alarm_is_on_path() -> (r: &'static str)
    ensures
        r@ == spec_is_on_path(),
{
    "/avatar/parameters/AlarmIsOn"
}

pub fn snooze_pressed_path() -> (r: &'static str)
    ensures
        r@ == spec_snooze_path(),
{
    "/avatar/parameters/SnoozePressed"
}

pub fn stop_pressed_path() -> (r: &'static str)
    ensures
        r@ == spec_stop_path(),
{
    "/avatar/parameters/StopPressed"
}

pub fn alarm_should_fire_path() -> (r: &'static str)
    ensures
        r@ == spec_fire_path(),
{
    "/avatar/parameters/AlarmShouldFire"
}

/// Character-for-character string comparison.
pub fn str_eq(a: &str, b: &str) -> (r: bool)
    ensures
        r == (a@ == b@),
{
    let a_len = a.unicode_len();
    let b_len = b.unicode_len();
    if a_len != b_len {
        return false;
    }
    let mut i: usize = 0;
    while i < a_len
        invariant
            a_len == a@.len(),
            b_len == b@.len(),
            a_len == b_len,
            i <= a_len,
            forall|j: int| 0 <= j < i ==> a@[j] == b@[j],
        decreases a_len - i,
    {
        if a.get_char(i) != b.get_char(i) {
            return false;
        }
        i = i + 1;
    }
    proof {
        assert(a@ =~= b@);
    }
    true
}

/// What one inbound parameter means: a configuration update, a button
/// press, or nothing.
#[derive(Clone, Copy, PartialEq, Eq, Structural, Debug)]
pub enum RoutedAction {
    /// Store this wake hour; `resend` says the wire value was out of
    /// range and the corrected value is to be announced back to the peer.
    SetHour { hour: i32, resend: bool },
    /// Store this wake minute, with the same correction rule.
    SetMinute { minute: i32, resend: bool },
    /// Store the armed flag.
    SetIsOn { is_on: bool },
    /// Record the snooze button's raw state; `inject` says the press is
    /// accepted as a scheduler event because the alarm was ringing.
    SnoozeButton { pressed: bool, inject: bool },
    /// Record the stop button's raw state, with the same gate.
    StopButton { pressed: bool, inject: bool },
    /// Unrecognized path or wrong argument type: ignored.
    Ignore,
}

/// The routing table: which action each recognized path and value yields.
/// Presses are accepted as events only while the alarm rings; time
/// values are clamped and an out-of-range one is marked for correction.
pub open spec fn spec_route(path: Seq<char>, value: WireValue, is_ringing: bool) -> RoutedAction {
    if path == spec_hour_path() {
        match value {
            WireValue::Scaled(scaled) => RoutedAction::SetHour {
                hour: spec_clamp(scaled as int, 0, 23) as i32,
                resend: scaled != spec_clamp(scaled as int, 0, 23),
            },
            _ => RoutedAction::Ignore,
        }
    } else if path == spec_minute_path() {
        match value {
            WireValue::Scaled(scaled) => RoutedAction::SetMinute {
                minute: spec_clamp(scaled as int, 0, 59) as i32,
                resend: scaled != spec_clamp(scaled as int, 0, 59),
            },
            _ => RoutedAction::Ignore,
        }
    } else if path == spec_is_on_path() {
        match value {
            WireValue::Bool(is_on) => RoutedAction::SetIsOn { is_on },
            _ => RoutedAction::Ignore,
        }
    } else if path == spec_snooze_path() {
        match value {
            WireValue::Bool(pressed) => RoutedAction::SnoozeButton {
                pressed,
                inject: pressed && is_ringing,
            },
            _ => RoutedAction::Ignore,
        }
    } else if path == spec_stop_path() {
        match value {
            WireValue::Bool(pressed) => RoutedAction::StopButton {
                pressed,
                inject: pressed && is_ringing,
            },
            _ => RoutedAction::Ignore,
        }
    } else {
        RoutedAction::Ignore
    }
}

/// Map one decoded inbound parameter to its action, gated on whether the
/// alarm is ringing now.
pub fn route_message(path: &str, value: &WireValue, is_ringing: bool) -> (action: RoutedAction)
    ensures
        action == spec_route(path@, *value, is_ringing),
{
    if str_eq(path, alarm_set_hour_path()) {
        match value {
            WireValue::Scaled(scaled) => {
                let hour = wire_to_hour(*scaled);
                RoutedAction::SetHour { hour, resend: *scaled != hour }
            },
            _ => RoutedAction::Ignore,
        }
    } else if str_eq(path, alarm_set_minute_path()) {
        match value {
            WireValue::Scaled(scaled) => {
                let minute = wire_to_minute(*scaled);
                RoutedAction::SetMinute { minute, resend: *scaled != minute }
            },
            _ => RoutedAction::Ignore,
        }
    } else if str_eq(path, alarm_is_on_path()) {
        match value {
            WireValue::Bool(is_on) => RoutedAction::SetIsOn { is_on: *is_on },
            _ => RoutedAction::Ignore,
        }
    } else if str_eq(path, snooze_pressed_path()) {
        match value {
            WireValue::Bool(pressed) => RoutedAction::SnoozeButton {
                pressed: *pressed,
                inject: *pressed && is_ringing,
            },
            _ => RoutedAction::Ignore,
        }
    } else if str_eq(path, stop_pressed_path()) {
        match value {
            WireValue::Bool(pressed) => RoutedAction::StopButton {
                pressed: *pressed,
                inject: *pressed && is_ringing,
            },
            _ => RoutedAction::Ignore,
        }
    } else {
        RoutedAction::Ignore
    }
}

/// An action's stored values sit in their valid ranges. The router only
/// produces such actions.
pub open spec fn spec_action_wf(action: RoutedAction) -> bool {
    match action {
        RoutedAction::SetHour { hour, .. } => 0 <= hour <= 23,
        RoutedAction::SetMinute { minute, .. } => 0 <= minute <= 59,
        _ => true,
    }
}

/// The state change each action performs: one field, nothing else.
pub open spec fn spec_apply(s: AppState, action: RoutedAction) -> AppState {
    match action {
        RoutedAction::SetHour { hour, .. } => AppState { alarm_set_hour: hour, ..s },
        RoutedAction::SetMinute { minute, .. } => AppState { alarm_set_minute: minute, ..s },
        RoutedAction::SetIsOn { is_on } => AppState { alarm_is_on: is_on, ..s },
        RoutedAction::SnoozeButton { pressed, .. } => AppState { snooze_pressed: pressed, ..s },
        RoutedAction::StopButton { pressed, .. } => AppState { stop_pressed: pressed, ..s },
        RoutedAction::Ignore => s,
    }
}

/// Perform an action's state change.
pub fn apply_routed_action(state: &mut AppState, action: &RoutedAction)
    requires
        old(state).wf(),
        spec_action_wf(*action),
    ensures
        *final(state) == spec_apply(*old(state), *action),
        final(state).wf(),
{
    match action {
        RoutedAction::SetHour { hour, .. } => {
            state.alarm_set_hour = *hour;
        },
        RoutedAction::SetMinute { minute, .. } => {
            state.alarm_set_minute = *minute;
        },
        RoutedAction::SetIsOn { is_on } => {
            state.alarm_is_on = *is_on;
        },
        RoutedAction::SnoozeButton { pressed, .. } => {
            state.snooze_pressed = *pressed;
        },
        RoutedAction::StopButton { pressed, .. } => {
            state.stop_pressed = *pressed;
        },
        RoutedAction::Ignore => {},
    }
}

/// The router's actions always carry values in range.
pub proof fn lemma_route_wf(path: Seq<char>, value: WireValue, is_ringing: bool)
    ensures
        spec_action_wf(spec_route(path, value, is_ringing)),
{
}

/// Route one decoded inbound parameter and perform its state change in
/// one step, gated on whether the alarm rings now. The returned action
/// tells the caller what else the parameter asks for: a correction to
/// resend, a re-arm, or a scheduler event.
pub fn route_and_apply(state: &mut AppState, path: &str, value: &WireValue) -> (action:
    RoutedAction)
    requires
        old(state).wf(),
    ensures
        action == spec_route(path@, *value, old(state).is_ringing),
        *final(state) == spec_apply(*old(state), action),
        final(state).wf(),
{
    let action = route_message(path, value, state.is_ringing);
    proof {
        lemma_route_wf(path@, *value, state.is_ringing);
    }
    apply_routed_action(state, &action);
    action
}

/// The scheduler event an accepted press injects, if any.
pub fn action_injects_event(action: &RoutedAction) -> (e: Option<TimerEvent>)
    ensures
        (*action matches RoutedAction::SnoozeButton { inject: true, .. }) ==> e == Some(
            TimerEvent::SnoozeEnd,
        ),
        (*action matches RoutedAction::StopButton { inject: true, .. }) ==> e == Some(
            TimerEvent::Stop,
        ),
        !(*action matches RoutedAction::SnoozeButton { inject: true, .. }) && !(
        *action matches RoutedAction::StopButton { inject: true, .. }) ==> e is None,
{
    match action {
        RoutedAction::SnoozeButton { inject: true, .. } => Some(TimerEvent::SnoozeEnd),
        RoutedAction::StopButton { inject: true, .. } => Some(TimerEvent::Stop),
        _ => None,
    }
}

/// Whether the action changed the configuration, so the wake timer must
/// be recomputed and re-armed.
pub fn action_requires_rearm(action: &RoutedAction) -> (r: bool)
    ensures
        r == (*action is SetHour || *action is SetMinute || *action is SetIsOn),
{
    match action {
        RoutedAction::SetHour { .. } => true,
        RoutedAction::SetMinute { .. } => true,
        RoutedAction::SetIsOn { .. } => true,
        _ => false,
    }
}

/// A button press received while the alarm is not ringing updates the
/// raw pressed flag alone: no scheduler event is injected and no other
/// state moves.
pub proof fn lemma_press_while_silent(s: AppState, pressed: bool)
    requires
        !s.is_ringing,
    ensures
        spec_route(spec_snooze_path(), WireValue::Bool(pressed), s.is_ringing)
            == (RoutedAction::SnoozeButton { pressed, inject: false }),
        spec_route(spec_stop_path(), WireValue::Bool(pressed), s.is_ringing)
            == (RoutedAction::StopButton { pressed, inject: false }),
        spec_apply(s, RoutedAction::SnoozeButton { pressed, inject: false }) == (AppState {
            snooze_pressed: pressed,
            ..s
        }),
        spec_apply(s, RoutedAction::StopButton { pressed, inject: false }) == (AppState {
            stop_pressed: pressed,
            ..s
        }),
{
    reveal_strlit("/avatar/parameters/SnoozePressed");
    reveal_strlit("/avatar/parameters/StopPressed");
    reveal_strlit("/avatar/parameters/AlarmSetHour");
    reveal_strlit("/avatar/parameters/AlarmSetMinute");
    reveal_strlit("/avatar/parameters/AlarmIsOn");
    assert(spec_snooze_path().len() == 32);
    assert(spec_stop_path().len() == 30);
    assert(spec_hour_path().len() == 31);
    assert(spec_minute_path().len() == 33);
    assert(spec_is_on_path().len() == 28);
}

/// What the OSC encoder yields for a packet holding one boolean
/// parameter: a function of the path and the value alone.
pub uninterp spec fn osc_bool_packet_bytes(path: Seq<char>, value: bool) -> Seq<u8>;

/// Relies on rosc::encoder::encode: encoding into a byte vector cannot
/// fail (the vector output is infallible), and the bytes are a function
/// of the message alone.
#[verifier::external_body]
fn encode_bool_message(path: &str, value: bool) -> (r: Vec<u8>)
    ensures
        r@ == osc_bool_packet_bytes(path@, value),
{
    let message = rosc::OscMessage {
        addr: path.to_string(),
        args: vec![rosc::OscType::Bool(value)],
    };
    match rosc::encoder::encode(&rosc::OscPacket::Message(message)) {
        Ok(bytes) => bytes,
        Err(_) => Vec::new(),
    }
}

/// The firing-flag parameter, as sent to the peer.
pub fn alarm_should_fire_message(value: bool) -> (m: ParameterMessage)
    ensures
        m.path@ == spec_fire_path(),
        m.value == WireValue::Bool(value),
{
    ParameterMessage {
        path: String::from_str(alarm_should_fire_path()),
        value: WireValue::Bool(value),
    }
}

/// The encoded packet announcing the firing flag, ready to send.
pub fn alarm_fire_packet(value: bool) -> (r: Vec<u8>)
    ensures
        r@ == osc_bool_packet_bytes(spec_fire_path(), value),
{
    encode_bool_message(alarm_should_fire_path(), value)
}

/// The heartbeat bundle's content: the whole configuration restated to
/// the peer, clamped, in this declared order — the receiver applies the
/// members in order, each on its own.
pub fn heartbeat_messages(settings: &AlarmSettings) -> (msgs: Vec<ParameterMessage>)
    ensures
        msgs@.len() == 3,
        msgs@[0].path@ == spec_hour_path(),
        msgs@[0].value == WireValue::Scaled(spec_clamp(settings.alarm_hour as int, 0, 23) as i32),
        msgs@[1].path@ == spec_minute_path(),
        msgs@[1].value == WireValue::Scaled(
            spec_clamp(settings.alarm_minute as int, 0, 59) as i32,
        ),
        msgs@[2].path@ == spec_is_on_path(),
        msgs@[2].value == WireValue::Bool(settings.alarm_is_on),
{
    let hour = crate::codec::hour_to_wire(settings.alarm_hour);
    let minute = crate::codec::minute_to_wire(settings.alarm_minute);
    let mut msgs: Vec<ParameterMessage> = Vec::new();
    msgs.push(
        ParameterMessage {
            path: String::from_str(alarm_set_hour_path()),
            value: WireValue::Scaled(hour),
        },
    );
    msgs.push(
        ParameterMessage {
            path: String::from_str(alarm_set_minute_path()),
            value: WireValue::Scaled(minute),
        },
    );
    msgs.push(
        ParameterMessage {
            path: String::from_str(alarm_is_on_path()),
            value: WireValue::Bool(settings.alarm_is_on),
        },
    );
    msgs
}

} // verus!
