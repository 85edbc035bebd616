use vrc_osc_alarm::osc::action_injects_event;
use vrc_osc_alarm::osc::action_requires_rearm;
use vrc_osc_alarm::osc::alarm_fire_packet;
use vrc_osc_alarm::osc::alarm_should_fire_message;
use vrc_osc_alarm::osc::apply_routed_action;
use vrc_osc_alarm::osc::heartbeat_messages;
use vrc_osc_alarm::osc::route_and_apply;
use vrc_osc_alarm::osc::route_message;
use vrc_osc_alarm::osc::str_eq;
use vrc_osc_alarm::osc::RoutedAction;
use vrc_osc_alarm::osc::WireValue;
use vrc_osc_alarm::types::AlarmSettings;
use vrc_osc_alarm::types::AppState;
use vrc_osc_alarm::types::TimerEvent;

const HOUR_PATH: &str = "/avatar/parameters/AlarmSetHour";
const MINUTE_PATH: &str = "/avatar/parameters/AlarmSetMinute";
const IS_ON_PATH: &str = "/avatar/parameters/AlarmIsOn";
const SNOOZE_PATH: &str = "/avatar/parameters/SnoozePressed";
const STOP_PATH: &str = "/avatar/parameters/StopPressed";

#[test]
fn str_eq_agrees_with_equality() {
    assert!(str_eq("abc", "abc"));
    assert!(!str_eq("abc", "abd"));
    assert!(!str_eq("abc", "abcd"));
    assert!(str_eq("", ""));
    assert!(!str_eq("", "a"));
}

#[test]
fn route_hour_in_range() {
    let action = route_message(HOUR_PATH, &WireValue::Scaled(7), false);
    assert_eq!(action, RoutedAction::SetHour { hour: 7, resend: false });
}

#[test]
fn route_hour_out_of_range_clamps_and_resends() {
    let action = route_message(HOUR_PATH, &WireValue::Scaled(99), false);
    assert_eq!(action, RoutedAction::SetHour { hour: 23, resend: true });
    let action = route_message(HOUR_PATH, &WireValue::Scaled(-2), false);
    assert_eq!(action, RoutedAction::SetHour { hour: 0, resend: true });
}

#[test]
fn route_minute_clamps() {
    let action = route_message(MINUTE_PATH, &WireValue::Scaled(30), true);
    assert_eq!(action, RoutedAction::SetMinute { minute: 30, resend: false });
    let action = route_message(MINUTE_PATH, &WireValue::Scaled(75), true);
    assert_eq!(action, RoutedAction::SetMinute { minute: 59, resend: true });
}

#[test]
fn route_is_on() {
    let action = route_message(IS_ON_PATH, &WireValue::Bool(true), false);
    assert_eq!(action, RoutedAction::SetIsOn { is_on: true });
}

#[test]
fn route_wrong_argument_type_is_ignored() {
    assert_eq!(route_message(HOUR_PATH, &WireValue::Bool(true), false), RoutedAction::Ignore);
    assert_eq!(route_message(IS_ON_PATH, &WireValue::Scaled(1), false), RoutedAction::Ignore);
    assert_eq!(route_message(SNOOZE_PATH, &WireValue::Scaled(1), true), RoutedAction::Ignore);
}

#[test]
fn route_unknown_path_is_ignored() {
    let action = route_message("/avatar/parameters/SomethingElse", &WireValue::Bool(true), true);
    assert_eq!(action, RoutedAction::Ignore);
}

#[test]
fn press_while_ringing_injects_event() {
    let snooze = route_message(SNOOZE_PATH, &WireValue::Bool(true), true);
    assert_eq!(snooze, RoutedAction::SnoozeButton { pressed: true, inject: true });
    assert_eq!(action_injects_event(&snooze), Some(TimerEvent::SnoozeEnd));

    let stop = route_message(STOP_PATH, &WireValue::Bool(true), true);
    assert_eq!(stop, RoutedAction::StopButton { pressed: true, inject: true });
    assert_eq!(action_injects_event(&stop), Some(TimerEvent::Stop));
}

#[test]
fn press_while_silent_is_flag_only() {
    let snooze = route_message(SNOOZE_PATH, &WireValue::Bool(true), false);
    assert_eq!(snooze, RoutedAction::SnoozeButton { pressed: true, inject: false });
    assert_eq!(action_injects_event(&snooze), None);

    let stop = route_message(STOP_PATH, &WireValue::Bool(true), false);
    assert_eq!(stop, RoutedAction::StopButton { pressed: true, inject: false });
    assert_eq!(action_injects_event(&stop), None);
}

#[test]
fn release_while_ringing_is_flag_only() {
    let snooze = route_message(SNOOZE_PATH, &WireValue::Bool(false), true);
    assert_eq!(snooze, RoutedAction::SnoozeButton { pressed: false, inject: false });
    assert_eq!(action_injects_event(&snooze), None);
}

#[test]
fn apply_press_while_silent_touches_only_the_flag() {
    let mut state = AppState::default();
    let before = state.clone();
    apply_routed_action(
        &mut state,
        &RoutedAction::SnoozeButton { pressed: true, inject: false },
    );
    assert!(state.snooze_pressed);
    assert_eq!(state.stop_pressed, before.stop_pressed);
    assert_eq!(state.is_ringing, before.is_ringing);
    assert_eq!(state.snooze_count, before.snooze_count);
    assert_eq!(state.alarm_is_on, before.alarm_is_on);
    assert_eq!(state.alarm_set_hour, before.alarm_set_hour);
    assert_eq!(state.alarm_set_minute, before.alarm_set_minute);
}

#[test]
fn route_and_apply_stores_a_clamped_hour() {
    let mut state = AppState::default();
    let action = route_and_apply(&mut state, HOUR_PATH, &WireValue::Scaled(99));
    assert_eq!(action, RoutedAction::SetHour { hour: 23, resend: true });
    assert_eq!(state.alarm_set_hour, 23);
}

#[test]
fn route_and_apply_press_while_silent_sets_flag_only() {
    let mut state = AppState::default();
    let action = route_and_apply(&mut state, STOP_PATH, &WireValue::Bool(true));
    assert_eq!(action, RoutedAction::StopButton { pressed: true, inject: false });
    assert!(state.stop_pressed);
    assert!(!state.is_ringing);
    assert_eq!(state.snooze_count, 0);
}

#[test]
fn apply_configuration_actions() {
    let mut state = AppState::default();
    apply_routed_action(&mut state, &RoutedAction::SetHour { hour: 9, resend: false });
    apply_routed_action(&mut state, &RoutedAction::SetMinute { minute: 45, resend: false });
    apply_routed_action(&mut state, &RoutedAction::SetIsOn { is_on: true });
    assert_eq!(state.alarm_set_hour, 9);
    assert_eq!(state.alarm_set_minute, 45);
    assert!(state.alarm_is_on);
}

#[test]
fn configuration_actions_require_rearm_and_presses_do_not() {
    assert!(action_requires_rearm(&RoutedAction::SetHour { hour: 1, resend: false }));
    assert!(action_requires_rearm(&RoutedAction::SetMinute { minute: 1, resend: false }));
    assert!(action_requires_rearm(&RoutedAction::SetIsOn { is_on: false }));
    assert!(!action_requires_rearm(&RoutedAction::SnoozeButton { pressed: true, inject: true }));
    assert!(!action_requires_rearm(&RoutedAction::StopButton { pressed: true, inject: true }));
    assert!(!action_requires_rearm(&RoutedAction::Ignore));
}

#[test]
fn fire_message_names_the_fire_path() {
    let message = alarm_should_fire_message(true);
    assert_eq!(message.path, "/avatar/parameters/AlarmShouldFire");
    assert_eq!(message.value, WireValue::Bool(true));
}

#[test]
fn fire_packet_decodes_back_to_the_same_parameter() {
    for value in [true, false] {
        let bytes = alarm_fire_packet(value);
        let (rest, packet) = rosc::decoder::decode_udp(&bytes).unwrap();
        assert!(rest.is_empty());
        match packet {
            rosc::OscPacket::Message(message) => {
                assert_eq!(message.addr, "/avatar/parameters/AlarmShouldFire");
                assert_eq!(message.args, vec![rosc::OscType::Bool(value)]);
            }
            other => panic!("expected a message packet, got {:?}", other),
        }
    }
}

#[test]
fn heartbeat_lists_the_whole_configuration_in_order() {
    let settings = AlarmSettings {
        alarm_hour: 6,
        alarm_minute: 30,
        alarm_is_on: true,
        max_snoozes: 5,
        ringing_duration_minutes: 15,
        snooze_duration_minutes: 9,
    };
    let messages = heartbeat_messages(&settings);
    assert_eq!(messages.len(), 3);
    assert_eq!(messages[0].path, HOUR_PATH);
    assert_eq!(messages[0].value, WireValue::Scaled(6));
    assert_eq!(messages[1].path, MINUTE_PATH);
    assert_eq!(messages[1].value, WireValue::Scaled(30));
    assert_eq!(messages[2].path, IS_ON_PATH);
    assert_eq!(messages[2].value, WireValue::Bool(true));
}

#[test]
fn heartbeat_clamps_out_of_range_settings() {
    let settings = AlarmSettings {
        alarm_hour: 99,
        alarm_minute: -5,
        alarm_is_on: false,
        max_snoozes: 5,
        ringing_duration_minutes: 15,
        snooze_duration_minutes: 9,
    };
    let messages = heartbeat_messages(&settings);
    assert_eq!(messages[0].value, WireValue::Scaled(23));
    assert_eq!(messages[1].value, WireValue::Scaled(0));
}
