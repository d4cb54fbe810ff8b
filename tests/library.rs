use aws_cloud_controller::aws::parse_aws_profiles;
use aws_cloud_controller::config::{AlertConfig, AppConfig};
use aws_cloud_controller::event::{map_key_event, AppEvent, Key, KeyPress};
use aws_cloud_controller::logger::{LogLevel, LogManager, MAX_LOG_ENTRIES};
use aws_cloud_controller::settings::{default_log_level, Settings, SettingsField};
use aws_cloud_controller::text::{clock_time_string, contains_text, decimal_string, two_digit_string};

#[test]
fn refresh_interval_cycles_and_wraps() {
    let mut s = Settings::default();
    s.refresh_interval_secs = 300;
    s.cycle_refresh_interval(true);
    assert_eq!(s.refresh_interval_secs, 15);
    s.cycle_refresh_interval(false);
    assert_eq!(s.refresh_interval_secs, 300);
    s.refresh_interval_secs = 45;
    s.cycle_refresh_interval(true);
    assert_eq!(s.refresh_interval_secs, 120);
    s.refresh_interval_secs = 45;
    s.cycle_refresh_interval(false);
    assert_eq!(s.refresh_interval_secs, 30);
    assert_eq!(s.refresh_interval(), 30);
}

#[test]
fn alert_threshold_cycles_and_wraps() {
    let mut s = Settings::default();
    s.alert_threshold_secs = 28800;
    s.cycle_alert_threshold(true);
    assert_eq!(s.alert_threshold_secs, 1800);
    s.cycle_alert_threshold(false);
    assert_eq!(s.alert_threshold_secs, 28800);
    s.alert_threshold_secs = 5;
    s.cycle_alert_threshold(true);
    assert_eq!(s.alert_threshold_secs, 7200);
    assert_eq!(s.alert_threshold(), 7200);
}

#[test]
fn log_level_cycles_with_success_as_info() {
    let mut s = Settings::default();
    s.log_level = LogLevel::Error;
    s.cycle_log_level(true);
    assert_eq!(s.log_level, LogLevel::Debug);
    s.cycle_log_level(false);
    assert_eq!(s.log_level, LogLevel::Error);
    s.log_level = LogLevel::Success;
    s.cycle_log_level(false);
    assert_eq!(s.log_level, LogLevel::Info);
    assert_eq!(default_log_level(), LogLevel::Info);
}

#[test]
fn toggles_flip() {
    let mut s = Settings::default();
    s.toggle_logs_panel();
    s.toggle_sound();
    assert!(s.show_logs_panel);
    assert!(!s.sound_enabled);
}

#[test]
fn durations_and_levels_format() {
    let mut s = Settings::default();
    s.refresh_interval_secs = 15;
    assert_eq!(s.format_refresh_interval(), "15s");
    s.refresh_interval_secs = 120;
    assert_eq!(s.format_refresh_interval(), "2m");
    s.alert_threshold_secs = 7200;
    assert_eq!(s.format_alert_threshold(), "2h");
    s.alert_threshold_secs = 1800;
    assert_eq!(s.format_alert_threshold(), "30m");
    s.log_level = LogLevel::Debug;
    assert_eq!(s.format_log_level(), "Debug (All)");
    s.log_level = LogLevel::Error;
    assert_eq!(s.format_log_level(), "Error Only");
}

#[test]
fn log_filter_by_setting() {
    let mut s = Settings::default();
    assert!(!s.should_show_log(LogLevel::Debug));
    assert!(s.should_show_log(LogLevel::Success));
    s.log_level = LogLevel::Warning;
    assert!(!s.should_show_log(LogLevel::Info));
    assert!(s.should_show_log(LogLevel::Error));
    s.log_level = LogLevel::Error;
    assert!(!s.should_show_log(LogLevel::Warning));
}

#[test]
fn settings_fields_wrap() {
    assert_eq!(SettingsField::TestSound.next(), SettingsField::RefreshInterval);
    assert_eq!(SettingsField::RefreshInterval.prev(), SettingsField::TestSound);
    assert_eq!(SettingsField::LogLevel.next(), SettingsField::AlertThreshold);
}

#[test]
fn configuration_defaults() {
    let c = AppConfig::default();
    assert_eq!(c.tick_rate_ms, 250);
    assert!(c.aws_region.is_none());
    let a = AlertConfig::default();
    assert_eq!(a.alert_threshold_secs, 3600);
    assert!(a.sound_enabled);
}

#[test]
fn key_bindings() {
    let key = |k: Key| map_key_event(KeyPress { key: k, control_only: false });
    assert_eq!(key(Key::Char('q')), AppEvent::Quit);
    assert_eq!(map_key_event(KeyPress { key: Key::Char('c'), control_only: true }), AppEvent::Quit);
    assert_eq!(key(Key::Char('c')), AppEvent::ConfigureAws);
    assert_eq!(key(Key::Char('5')), AppEvent::NavigateTab(4));
    assert_eq!(key(Key::Char('=')), AppEvent::ModifySettingValue(1));
    assert_eq!(key(Key::Left), AppEvent::ModifySettingValue(-1));
    assert_eq!(key(Key::Esc), AppEvent::CancelSettings);
    assert_eq!(key(Key::Char('z')), AppEvent::Nothing);
}

#[test]
fn log_keeps_most_recent_thousand() {
    let mut log = LogManager::new();
    for i in 0..(MAX_LOG_ENTRIES + 1) {
        log.log_at(LogLevel::Info, format!("entry {}", i), i as i64);
    }
    assert_eq!(log.entries().len(), MAX_LOG_ENTRIES);
    assert_eq!(log.entries()[0].message, "entry 1");
    log.error("late".to_string());
    assert_eq!(log.entries().last().unwrap().level, LogLevel::Error);
}

#[test]
fn log_scrolling_is_bounded() {
    let mut log = LogManager::new();
    for i in 0..5 {
        log.info(format!("{}", i));
    }
    log.scroll_down(3);
    log.scroll_down(3);
    log.scroll_down(3);
    assert_eq!(log.scroll_offset(), 2);
    log.scroll_up();
    assert_eq!(log.scroll_offset(), 1);
    log.scroll_to_bottom();
    assert_eq!(log.scroll_offset(), 0);
    log.scroll_up();
    assert_eq!(log.scroll_offset(), 0);
}

#[test]
fn numbers_render_in_decimal() {
    assert_eq!(decimal_string(0), "0");
    assert_eq!(decimal_string(1007), "1007");
    assert_eq!(decimal_string(u64::MAX), "18446744073709551615");
    assert_eq!(two_digit_string(7), "07");
}

#[test]
fn clock_times_are_utc() {
    assert_eq!(clock_time_string(0), "00:00:00");
    assert_eq!(clock_time_string(3_661_000), "01:01:01");
    assert_eq!(clock_time_string(-1_000), "23:59:59");
    assert_eq!(clock_time_string(1_700_000_000_000), "22:13:20");
}

#[test]
fn profiles_parsed_from_config_text() {
    let text = "[default]\nregion = us-east-1\n\n  [profile dev]  \r\nsso_start_url = x\n[profile prod]]\n[profiles]\n[profile ]\n";
    assert_eq!(parse_aws_profiles(text), vec!["default", "dev", "prod", ""]);
    assert!(parse_aws_profiles("").is_empty());
    assert!(parse_aws_profiles("[default] extra").is_empty());
}

#[test]
fn substring_search() {
    assert!(contains_text("abc", ""));
    assert!(contains_text("", ""));
    assert!(!contains_text("", "a"));
    assert!(contains_text("the security token", "security token"));
    assert!(!contains_text("securit", "security"));
    assert!(contains_text("ab\u{e9}cd", "\u{e9}c"));
}
