use vrc_osc_alarm::types::AlarmSettings;
use vrc_osc_alarm::types::AppState;

#[test]
fn app_state_default_matches_stock_configuration() {
    let state = AppState::default();
    assert_eq!(state.alarm_set_hour, 0);
    assert_eq!(state.alarm_set_minute, 0);
    assert!(!state.alarm_is_on);
    assert!(!state.snooze_pressed);
    assert!(!state.stop_pressed);
    assert!(!state.is_ringing);
    assert_eq!(state.snooze_count, 0);
    assert_eq!(state.max_snoozes, 5);
    assert_eq!(state.ringing_duration_minutes, 15);
    assert_eq!(state.snooze_duration_minutes, 9);
    assert!(state.last_osc_received.is_none());
    assert!(state.last_osc_sent.is_none());
}

#[test]
fn settings_default_matches_stock_configuration() {
    let settings = AlarmSettings::default();
    assert_eq!(settings.alarm_hour, 7);
    assert_eq!(settings.alarm_minute, 0);
    assert!(!settings.alarm_is_on);
    assert_eq!(settings.max_snoozes, 5);
    assert_eq!(settings.ringing_duration_minutes, 15);
    assert_eq!(settings.snooze_duration_minutes, 9);
}

#[test]
fn update_alarm_config_clamps_the_time() {
    let mut settings = AlarmSettings::default();
    settings.update_alarm_config(30, -10, true);
    assert_eq!(settings.alarm_hour, 23);
    assert_eq!(settings.alarm_minute, 0);
    assert!(settings.alarm_is_on);
    assert_eq!(settings.max_snoozes, 5);
}

#[test]
fn update_timer_config_clamps_each_duration() {
    let mut settings = AlarmSettings::default();
    settings.update_timer_config(0, 1000, 0);
    assert_eq!(settings.max_snoozes, 1);
    assert_eq!(settings.ringing_duration_minutes, 60);
    assert_eq!(settings.snooze_duration_minutes, 1);

    settings.update_timer_config(50, 30, 50);
    assert_eq!(settings.max_snoozes, 20);
    assert_eq!(settings.ringing_duration_minutes, 30);
    assert_eq!(settings.snooze_duration_minutes, 30);
    assert_eq!(settings.alarm_hour, 7);
}

#[test]
fn sanitize_repairs_a_wild_settings_file() {
    let mut settings = AlarmSettings {
        alarm_hour: -4,
        alarm_minute: 200,
        alarm_is_on: true,
        max_snoozes: 0,
        ringing_duration_minutes: 0,
        snooze_duration_minutes: 1000,
    };
    settings.sanitize();
    assert_eq!(settings.alarm_hour, 0);
    assert_eq!(settings.alarm_minute, 59);
    assert!(settings.alarm_is_on);
    assert_eq!(settings.max_snoozes, 1);
    assert_eq!(settings.ringing_duration_minutes, 1);
    assert_eq!(settings.snooze_duration_minutes, 30);
}

#[test]
fn apply_settings_copies_configuration_and_resets_progress() {
    let settings = AlarmSettings {
        alarm_hour: 6,
        alarm_minute: 45,
        alarm_is_on: true,
        max_snoozes: 3,
        ringing_duration_minutes: 10,
        snooze_duration_minutes: 5,
    };
    let mut state = AppState {
        snooze_count: 2,
        is_ringing: true,
        ..AppState::default()
    };
    state.apply_settings(&settings);
    assert_eq!(state.alarm_set_hour, 6);
    assert_eq!(state.alarm_set_minute, 45);
    assert!(state.alarm_is_on);
    assert_eq!(state.snooze_count, 0);
    assert_eq!(state.max_snoozes, 3);
    assert_eq!(state.ringing_duration_minutes, 10);
    assert_eq!(state.snooze_duration_minutes, 5);
    assert!(state.is_ringing);
}
