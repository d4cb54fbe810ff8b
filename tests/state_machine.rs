use aws_cloud_controller::actions::InstanceAction;
use aws_cloud_controller::app::{App, AsyncNotification, Command, Dialog, Screen, ToastType};
use aws_cloud_controller::aws::{Ec2Instance, LambdaFunction};
use aws_cloud_controller::event::AppEvent;
use aws_cloud_controller::logger::LogLevel;
use aws_cloud_controller::settings::{Settings, SettingsField};

const HOUR_MS: i64 = 3_600_000;
const T0: i64 = 1_700_000_000_000;

fn instance(id: &str, name: &str, state: &str, launched: Option<i64>) -> Ec2Instance {
    Ec2Instance {
        id: id.to_string(),
        name: name.to_string(),
        instance_type: "t3.micro".to_string(),
        state: state.to_string(),
        public_ip: None,
        private_ip: None,
        launch_time: launched,
        auto_stop_scheduled: None,
    }
}

fn function(name: &str) -> LambdaFunction {
    LambdaFunction {
        name: name.to_string(),
        runtime: "python3.12".to_string(),
        memory: 128,
        last_modified: "2024-01-01".to_string(),
        description: String::new(),
    }
}

fn fresh_app() -> App {
    App::new(Ok(Settings::default()), Vec::new(), None, true, T0)
}

fn app_with_instances(insts: Vec<Ec2Instance>) -> App {
    let mut app = fresh_app();
    app.ec2_instances = insts;
    app
}

#[test]
fn new_app_without_credentials_opens_setup() {
    let app = App::new(Ok(Settings::default()), Vec::new(), None, false, T0);
    assert_eq!(app.dialog, Dialog::Setup);
    assert_eq!(app.status_message, "AWS credentials not configured");
    let entries = app.log_manager.entries();
    assert_eq!(entries.len(), 3);
    assert_eq!(entries[0].message, "Application started");
    assert_eq!(entries[2].level, LogLevel::Warning);
}

#[test]
fn new_app_uses_defaults_when_settings_fail() {
    let app = App::new(Err("bad json".to_string()), Vec::new(), None, true, T0);
    assert_eq!(app.settings, Settings::default());
    assert_eq!(app.auto_refresh_interval, 60);
    assert_eq!(app.status_message, "Ready");
    assert_eq!(
        app.log_manager.entries()[1].message,
        "Failed to load settings, using defaults: bad json"
    );
    assert_eq!(app.active_profile_name.as_deref(), Some("default"));
}

#[test]
fn new_app_highlights_environment_profile() {
    let profiles = vec!["default".to_string(), "dev".to_string(), "prod".to_string()];
    let app = App::new(Ok(Settings::default()), profiles, Some("prod".to_string()), true, T0);
    assert_eq!(app.selected_profile_index, 2);
    assert_eq!(app.active_profile_name.as_deref(), Some("prod"));
}

#[test]
fn selection_clamps_at_both_ends() {
    let mut app = app_with_instances(vec![
        instance("i-1", "a", "running", None),
        instance("i-2", "b", "running", None),
        instance("i-3", "c", "running", None),
    ]);
    app.current_screen = Screen::Ec2;
    for _ in 0..4 {
        app.handle_event_at(AppEvent::Up, T0);
        assert_eq!(app.ec2_selected, 0);
    }
    for _ in 0..6 {
        app.handle_event_at(AppEvent::Down, T0);
    }
    assert_eq!(app.ec2_selected, 2);
}

#[test]
fn function_selection_clamps_and_empty_list_is_noop() {
    let mut app = fresh_app();
    app.current_screen = Screen::Lambda;
    app.move_selection(1);
    assert_eq!(app.lambda_selected, 0);
    app.lambda_functions = vec![function("f1"), function("f2")];
    app.move_selection(5);
    assert_eq!(app.lambda_selected, 1);
    app.move_selection(-7);
    assert_eq!(app.lambda_selected, 0);
}

#[test]
fn home_scroll_is_bounded_by_layout() {
    let mut app = fresh_app();
    app.window_size = (80, 24);
    // Narrow Home: 25 lines of content, 16 available, so at most 9.
    for _ in 0..20 {
        app.move_selection(1);
    }
    assert_eq!(app.scroll_offset, 9);
    app.window_size = (120, 24);
    app.move_selection(1);
    // Wide Home: 18 lines, at most 2.
    assert_eq!(app.scroll_offset, 2);
    for _ in 0..5 {
        app.move_selection(-1);
    }
    assert_eq!(app.scroll_offset, 0);
}

#[test]
fn scheduling_twice_keeps_one_entry_with_later_time() {
    let mut app = app_with_instances(vec![instance("i-x", "web", "running", None)]);
    let first = app.schedule_auto_stop("i-x", 3600, T0);
    let second = app.schedule_auto_stop("i-x", 3600, T0 + 60_000);
    assert_eq!(first, Some(T0 + HOUR_MS));
    assert_eq!(second, Some(T0 + 60_000 + HOUR_MS));
    let entries: Vec<_> = app.auto_stop_schedules.iter().filter(|e| e.0 == "i-x").collect();
    assert_eq!(entries.len(), 1);
    assert_eq!(entries[0].1, T0 + 60_000 + HOUR_MS);
    assert_eq!(app.toasts.last().unwrap().message, "\u{23f0} Scheduled: web");
}

#[test]
fn scheduling_reports_utc_clock_time() {
    let mut app = fresh_app();
    app.schedule_auto_stop("i-9", 3600, 0);
    assert_eq!(app.status_message, "Scheduled auto-stop for i-9 at 01:00:00");
    let last = app.log_manager.entries().last().unwrap();
    assert_eq!(last.message, "Scheduled auto-stop for i-9 (i-9) at 01:00:00");
}

#[test]
fn scheduling_past_time_range_changes_nothing() {
    let mut app = fresh_app();
    assert_eq!(app.schedule_auto_stop("i-1", u64::MAX, T0), None);
    assert!(app.auto_stop_schedules.is_empty());
}

#[test]
fn toast_expires_after_five_seconds() {
    let mut app = fresh_app();
    app.add_toast_at("hello".to_string(), ToastType::Info, T0);
    app.cleanup_old_toasts_at(T0 + 4_900);
    assert_eq!(app.toasts.len(), 1);
    app.cleanup_old_toasts_at(T0 + 5_100);
    assert!(app.toasts.is_empty());
}

#[test]
fn toast_added_by_clock_survives_immediate_cleanup() {
    let mut app = fresh_app();
    app.add_toast("now".to_string(), ToastType::Success);
    app.cleanup_old_toasts();
    assert_eq!(app.toasts.len(), 1);
    assert_eq!(app.toasts[0].toast_type, ToastType::Success);
}

#[test]
fn settings_cancel_leaves_settings_unchanged() {
    let mut app = fresh_app();
    let before = app.settings;
    app.handle_event_at(AppEvent::OpenSettings, T0);
    assert_eq!(app.dialog, Dialog::Settings);
    app.handle_event_at(AppEvent::ModifySettingValue(1), T0);
    assert_eq!(app.settings_draft.unwrap().refresh_interval_secs, 120);
    app.handle_event_at(AppEvent::CancelSettings, T0);
    assert_eq!(app.settings, before);
    assert_eq!(app.settings_draft, None);
    assert_eq!(app.dialog, Dialog::Closed);
}

#[test]
fn settings_enter_commits_draft_and_interval() {
    let mut app = fresh_app();
    app.handle_event_at(AppEvent::OpenSettings, T0);
    app.handle_event_at(AppEvent::ModifySettingValue(1), T0);
    let cmd = app.handle_event_at(AppEvent::Enter, T0);
    assert_eq!(app.settings.refresh_interval_secs, 120);
    assert_eq!(app.auto_refresh_interval, 120);
    assert_eq!(cmd, Command::SaveSettings(app.settings));
    assert_eq!(app.dialog, Dialog::Closed);
    app.complete_save_settings(Ok(()), T0);
    assert_eq!(app.toasts.last().unwrap().message, "Settings saved");
    app.complete_save_settings(Err("disk full".to_string()), T0);
    assert_eq!(app.toasts.last().unwrap().message, "Failed to save settings: disk full");
    assert_eq!(app.toasts.last().unwrap().toast_type, ToastType::Error);
}

#[test]
fn settings_test_sound_field_plays_instead_of_saving() {
    let mut app = fresh_app();
    app.handle_event_at(AppEvent::OpenSettings, T0);
    for _ in 0..5 {
        app.handle_event_at(AppEvent::Down, T0);
    }
    assert_eq!(app.settings_selected_field, SettingsField::TestSound);
    let cmd = app.handle_event_at(AppEvent::Enter, T0);
    assert_eq!(cmd, Command::PlayAlertSound);
    assert_eq!(app.dialog, Dialog::Settings);
    app.handle_event_at(AppEvent::ModifySettingValue(1), T0);
    assert_eq!(app.settings_draft, Some(app.settings));
}

#[test]
fn settings_field_navigation_stops_at_first_and_scrolls() {
    let mut app = fresh_app();
    app.window_size = (80, 20);
    app.handle_event_at(AppEvent::OpenSettings, T0);
    app.dialog_scroll_offset = 2;
    app.handle_event_at(AppEvent::Up, T0);
    assert_eq!(app.settings_selected_field, SettingsField::RefreshInterval);
    assert_eq!(app.dialog_scroll_offset, 1);
    for _ in 0..5 {
        app.handle_event_at(AppEvent::Down, T0);
    }
    // Height 20: 12 lines, 9 inside; the last field sits on line 15.
    assert_eq!(app.dialog_scroll_offset, 7);
}

#[test]
fn alert_recorded_once_within_throttle_window() {
    let mut app = app_with_instances(vec![instance("i-b", "B", "running", Some(T0 - 2 * HOUR_MS))]);
    let sound1 = app.check_alerts_at(T0);
    let sound2 = app.check_alerts_at(T0 + 10_000);
    assert_eq!(app.pending_alerts.len(), 1);
    assert!(sound1);
    assert!(!sound2);
    assert_eq!(
        app.dialog,
        Dialog::Alert("\u{26a0}\u{fe0f} Instance B (i-b) running for 2h 0m without auto-stop!".to_string())
    );
}

#[test]
fn alert_scenario_three_instances() {
    let mut app = app_with_instances(vec![
        instance("i-a", "A", "stopped", Some(T0 - 3 * HOUR_MS)),
        instance("i-b", "B", "running", Some(T0 - 2 * HOUR_MS)),
        instance("i-c", "C", "running", Some(T0 - 5 * 60_000)),
    ]);
    app.settings.alert_threshold_secs = 3600;
    app.check_alerts_at(T0);
    assert_eq!(app.pending_alerts.len(), 1);
    assert!(app.pending_alerts[0].contains("(i-b)"));
}

#[test]
fn scheduled_instance_is_not_alerted() {
    let mut app = app_with_instances(vec![instance("i-b", "B", "running", Some(T0 - 2 * HOUR_MS))]);
    app.schedule_auto_stop("i-b", 3600, T0);
    app.check_alerts_at(T0);
    assert!(app.pending_alerts.is_empty());
}

#[test]
fn alert_with_sound_off_asks_for_none() {
    let mut app = app_with_instances(vec![instance("i-b", "B", "running", Some(T0 - 90 * 60_000))]);
    app.settings.sound_enabled = false;
    assert!(!app.check_alerts_at(T0));
    assert_eq!(app.pending_alerts[0], "\u{26a0}\u{fe0f} Instance B (i-b) running for 1h 30m without auto-stop!");
}

#[test]
fn session_expiry_classification() {
    assert!(App::is_session_expired_error("ExpiredToken: the token expired"));
    assert!(App::is_session_expired_error("AuthFailure"));
    assert!(App::is_session_expired_error("The SECURITY TOKEN included in the request is invalid"));
    assert!(!App::is_session_expired_error("AccessDenied: no such bucket"));
    assert!(!App::is_session_expired_error(""));
}

#[test]
fn refresh_failure_with_expired_token_opens_dialog() {
    let mut app = fresh_app();
    let cmd = app.refresh_data(T0);
    assert_eq!(cmd, Command::ListInstances);
    assert!(app.is_loading);
    assert_eq!(app.status_message, "Loading...");
    app.complete_instances_refresh(Err("ExpiredToken: gone".to_string()), T0 + 5);
    assert!(!app.is_loading);
    assert_eq!(app.last_refresh, Some(T0 + 5));
    assert_eq!(app.status_message, "Error: ExpiredToken: gone");
    assert_eq!(app.dialog, Dialog::SessionExpired);
}

#[test]
fn refresh_failure_without_expiry_keeps_dialog_closed() {
    let mut app = fresh_app();
    app.current_screen = Screen::Lambda;
    assert_eq!(app.refresh_data(T0), Command::ListFunctions);
    app.complete_functions_refresh(Err("AccessDenied: no such bucket".to_string()), T0 + 7);
    assert!(!app.is_loading);
    assert_eq!(app.last_refresh, Some(T0 + 7));
    assert_eq!(app.dialog, Dialog::Closed);
    let last = app.log_manager.entries().last().unwrap();
    assert_eq!(last.level, LogLevel::Error);
    assert_eq!(last.message, "Failed to load Lambda functions: AccessDenied: no such bucket");
}

#[test]
fn refresh_success_replaces_list_and_stamps() {
    let mut app = fresh_app();
    app.refresh_data(T0);
    app.complete_instances_refresh(
        Ok(vec![instance("i-1", "a", "running", None), instance("i-2", "b", "stopped", None)]),
        T0 + 3,
    );
    assert_eq!(app.ec2_instances.len(), 2);
    assert_eq!(app.status_message, "Loaded 2 EC2 instances");
    assert!(!app.is_loading);
    assert_eq!(app.last_refresh, Some(T0 + 3));
    app.current_screen = Screen::Lambda;
    app.complete_functions_refresh(Ok(vec![function("f")]), T0 + 4);
    assert_eq!(app.status_message, "Loaded 1 Lambda functions");
}

#[test]
fn refresh_on_about_is_done_at_once() {
    let mut app = fresh_app();
    app.current_screen = Screen::About;
    assert_eq!(app.refresh_data(T0), Command::Idle);
    assert!(!app.is_loading);
    assert_eq!(app.last_refresh, Some(T0));
    assert_eq!(app.status_message, "Nothing to refresh on this screen");
}

#[test]
fn logs_tab_needs_setting() {
    let mut app = fresh_app();
    app.handle_event_at(AppEvent::NavigateTab(4), T0);
    assert_eq!(app.current_screen, Screen::Home);
    app.handle_event_at(AppEvent::OpenSettings, T0);
    app.handle_event_at(AppEvent::Down, T0);
    assert_eq!(app.settings_selected_field, SettingsField::ShowLogsPanel);
    app.handle_event_at(AppEvent::ModifySettingValue(1), T0);
    app.handle_event_at(AppEvent::Enter, T0);
    assert!(app.settings.show_logs_panel);
    app.handle_event_at(AppEvent::NavigateTab(4), T0);
    assert_eq!(app.current_screen, Screen::Logs);
    let last = app.log_manager.entries().last().unwrap();
    assert_eq!(last.message, "Navigated to Logs screen");
}

#[test]
fn boost_mode_lasts_until_instances_stable() {
    let mut app = app_with_instances(vec![instance("i-1", "web", "stopped", None)]);
    app.current_screen = Screen::Ec2;
    let cmd = app.handle_event_at(AppEvent::Start, T0);
    assert_eq!(cmd, Command::StartInstance("i-1".to_string()));
    assert_eq!(app.status_message, "Starting i-1...");
    let cmd = app.complete_instance_action(InstanceAction::Start, "i-1", Ok(()), T0);
    assert_eq!(cmd, Command::ListInstances);
    assert!(app.boost_refresh_until_stable);
    assert_eq!(app.toasts.last().unwrap().message, "\u{2713} Started: web");
    app.complete_instances_refresh(Ok(vec![instance("i-1", "web", "pending", None)]), T0 + 1);
    // Boosted: due after 5 s, and still boosted while pending.
    assert_eq!(app.check_auto_refresh_at(T0 + 3_000), Command::Idle);
    assert_eq!(app.check_auto_refresh_at(T0 + 6_000), Command::ListInstances);
    assert!(app.boost_refresh_until_stable);
    app.complete_instances_refresh(Ok(vec![instance("i-1", "web", "running", None)]), T0 + 6_000);
    app.check_auto_refresh_at(T0 + 7_000);
    assert!(!app.boost_refresh_until_stable);
}

#[test]
fn failed_action_reports_without_boost() {
    let mut app = app_with_instances(vec![instance("i-1", "web", "running", None)]);
    let cmd = app.complete_instance_action(InstanceAction::Stop, "i-1", Err("denied".to_string()), T0);
    assert_eq!(cmd, Command::Idle);
    assert!(!app.boost_refresh_until_stable);
    assert_eq!(app.status_message, "Failed to stop: denied");
    let toast = app.toasts.last().unwrap();
    assert_eq!(toast.message, "\u{2717} Failed to stop: web");
    assert_eq!(toast.toast_type, ToastType::Error);
    assert_eq!(app.log_manager.entries().last().unwrap().message, "Failed to stop web: denied");
}

#[test]
fn terminate_goes_through_confirmation() {
    let mut app = app_with_instances(vec![instance("i-1", "web", "running", None)]);
    app.current_screen = Screen::Ec2;
    assert_eq!(app.handle_event_at(AppEvent::Terminate, T0), Command::Idle);
    assert_eq!(app.dialog, Dialog::ConfirmTerminate("i-1".to_string()));
    let cmd = app.handle_event_at(AppEvent::Enter, T0);
    assert_eq!(cmd, Command::TerminateInstance("i-1".to_string()));
    assert_eq!(app.dialog, Dialog::Closed);
    assert_eq!(app.status_message, "Terminating i-1...");
}

#[test]
fn terminate_of_unlisted_instance_names_it_by_id() {
    let mut app = fresh_app();
    app.complete_instance_action(InstanceAction::Terminate, "i-gone", Ok(()), T0);
    assert_eq!(app.toasts.last().unwrap().message, "\u{2713} Terminated: i-gone");
}

#[test]
fn schedule_dialog_enter_schedules_one_hour() {
    let mut app = app_with_instances(vec![instance("i-1", "web", "running", None)]);
    app.handle_event_at(AppEvent::Schedule, T0);
    assert_eq!(app.dialog, Dialog::ScheduleAutoStop("i-1".to_string()));
    app.handle_event_at(AppEvent::Enter, T0);
    assert_eq!(app.dialog, Dialog::Closed);
    assert_eq!(app.auto_stop_schedules, vec![("i-1".to_string(), T0 + HOUR_MS)]);
}

#[test]
fn dialog_blocks_screen_events() {
    let mut app = fresh_app();
    app.handle_event_at(AppEvent::ShowHelp, T0);
    app.handle_event_at(AppEvent::NavigateTab(1), T0);
    assert_eq!(app.current_screen, Screen::Home);
    assert_eq!(app.handle_event_at(AppEvent::Refresh, T0), Command::Idle);
    app.handle_event_at(AppEvent::Quit, T0);
    assert_eq!(app.dialog, Dialog::Closed);
    assert!(!app.should_quit);
    app.handle_event_at(AppEvent::Quit, T0);
    assert!(app.should_quit);
}

#[test]
fn help_dialog_scroll_is_bounded() {
    let mut app = fresh_app();
    app.window_size = (80, 30);
    app.handle_event_at(AppEvent::ShowHelp, T0);
    // 60% of 30 is 18, 16 inside, 27 lines: at most 11.
    for _ in 0..20 {
        app.handle_event_at(AppEvent::Down, T0);
    }
    assert_eq!(app.dialog_scroll_offset, 11);
}

#[test]
fn session_expired_refresh_closes_then_refreshes() {
    let mut app = fresh_app();
    app.dialog = Dialog::SessionExpired;
    let cmd = app.handle_event_at(AppEvent::Refresh, T0);
    assert_eq!(cmd, Command::ListInstances);
    assert_eq!(app.dialog, Dialog::Closed);
    app.complete_instances_refresh(Err("AuthFailure".to_string()), T0);
    assert_eq!(app.dialog, Dialog::SessionExpired);
}

#[test]
fn profile_picker_moves_and_activates() {
    let profiles = vec!["default".to_string(), "dev".to_string()];
    let mut app = App::new(Ok(Settings::default()), profiles, None, true, T0);
    app.handle_event_at(AppEvent::ConfigureAws, T0);
    app.handle_event_at(AppEvent::Down, T0);
    app.handle_event_at(AppEvent::Down, T0);
    assert_eq!(app.selected_profile_index, 1);
    let cmd = app.handle_event_at(AppEvent::Enter, T0);
    assert_eq!(cmd, Command::ActivateProfile("dev".to_string()));
    assert!(app.is_loading);
    assert_eq!(app.status_message, "Switching to profile: dev...");
    let cmd = app.check_async_notifications(AsyncNotification::ProfileActivated("dev".to_string()), T0);
    assert_eq!(cmd, Command::ListInstances);
    assert_eq!(app.dialog, Dialog::Closed);
    assert!(app.aws_configured);
    assert_eq!(app.active_profile_name.as_deref(), Some("dev"));
}

#[test]
fn sso_login_uses_highlighted_profile() {
    let profiles = vec!["default".to_string(), "dev".to_string()];
    let mut app = App::new(Ok(Settings::default()), profiles, Some("dev".to_string()), false, T0);
    assert_eq!(app.dialog, Dialog::Setup);
    let cmd = app.handle_event_at(AppEvent::SsoLogin, T0);
    assert_eq!(cmd, Command::SsoLogin(Some("dev".to_string())));
    let mut bare = fresh_app();
    assert_eq!(bare.login_with_sso(T0), Command::SsoLogin(None));
}

#[test]
fn sso_failures_are_reported() {
    let mut app = fresh_app();
    let cmd = app.check_async_notifications(
        AsyncNotification::SsoLoginFailed("Missing the following required SSO configuration values".to_string()),
        T0,
    );
    assert_eq!(cmd, Command::Idle);
    assert_eq!(app.status_message, "SSO Configuration Missing!");
    app.check_async_notifications(AsyncNotification::SsoLoginFailed("boom".to_string()), T0);
    assert_eq!(app.toasts.last().unwrap().message, "\u{274c} Login Failed: boom");
    app.is_loading = true;
    app.check_async_notifications(AsyncNotification::ProfileActivationFailed("x".to_string()), T0);
    assert!(!app.is_loading);
    assert_eq!(app.toasts.last().unwrap().message, "Failed to switch profile");
}

#[test]
fn sso_success_switches_profile() {
    let mut app = fresh_app();
    let cmd = app.check_async_notifications(
        AsyncNotification::SsoLoginSuccess("Login successful".to_string(), "dev".to_string()),
        T0,
    );
    assert_eq!(cmd, Command::ActivateProfile("dev".to_string()));
    assert_eq!(app.log_manager.entries()[3].message, "Login successful: dev");
}

#[test]
fn seconds_until_refresh_counts_down() {
    let mut app = fresh_app();
    assert_eq!(app.seconds_until_refresh_at(T0), None);
    app.last_refresh = Some(T0);
    assert_eq!(app.seconds_until_refresh_at(T0 + 15_500), Some(45));
    assert_eq!(app.seconds_until_refresh_at(T0 + 90_000), Some(0));
    app.boost_refresh_until_stable = true;
    assert_eq!(app.seconds_until_refresh_at(T0 + 2_000), Some(3));
    app.current_screen = Screen::About;
    assert_eq!(app.seconds_until_refresh_at(T0), None);
}

#[test]
fn auto_refresh_waits_for_interval() {
    let mut app = fresh_app();
    assert_eq!(app.check_auto_refresh_at(T0), Command::ListInstances);
    app.complete_instances_refresh(Ok(Vec::new()), T0);
    assert_eq!(app.check_auto_refresh_at(T0 + 59_999), Command::Idle);
    assert_eq!(app.check_auto_refresh_at(T0 + 60_000), Command::ListInstances);
    app.dialog = Dialog::Help;
    assert_eq!(app.check_auto_refresh_at(T0 + 600_000), Command::Idle);
}

#[test]
fn enter_on_functions_reports_selection() {
    let mut app = fresh_app();
    app.current_screen = Screen::Lambda;
    app.lambda_functions = vec![function("resize")];
    assert_eq!(app.handle_event_at(AppEvent::Enter, T0), Command::Idle);
    assert_eq!(app.status_message, "Lambda invocation coming soon: resize");
}

#[test]
fn changelog_only_from_about() {
    let mut app = fresh_app();
    app.handle_event_at(AppEvent::ShowChangelog, T0);
    assert_eq!(app.dialog, Dialog::Closed);
    app.current_screen = Screen::About;
    app.handle_event_at(AppEvent::ShowChangelog, T0);
    assert_eq!(app.dialog, Dialog::Changelog);
}

#[test]
fn resize_is_stored() {
    let mut app = fresh_app();
    app.handle_event_at(AppEvent::Resize(132, 43), T0);
    assert_eq!(app.window_size, (132, 43));
}

#[test]
fn handle_event_by_clock_quits() {
    let mut app = fresh_app();
    assert_eq!(app.handle_event(AppEvent::Quit), Command::Idle);
    assert!(app.should_quit);
    assert_eq!(app.seconds_until_refresh(), None);
    assert!(!app.check_alerts());
}

#[test]
fn instance_name_falls_back_to_id() {
    let app = app_with_instances(vec![instance("i-1", "web", "running", None)]);
    assert_eq!(app.instance_name("i-1"), "web");
    assert_eq!(app.instance_name("i-2"), "i-2");
    assert!(app.all_instances_stable());
}

#[test]
fn alert_threshold_follows_settings_dialog() {
    let mut app = app_with_instances(vec![instance("i-b", "B", "running", Some(T0 - 90 * 60_000))]);
    app.handle_event_at(AppEvent::OpenSettings, T0);
    for _ in 0..3 {
        app.handle_event_at(AppEvent::Down, T0);
    }
    assert_eq!(app.settings_selected_field, SettingsField::AlertThreshold);
    // One hour becomes two: a 90-minute run is no longer overdue.
    app.handle_event_at(AppEvent::ModifySettingValue(1), T0);
    app.handle_event_at(AppEvent::Down, T0);
    app.handle_event_at(AppEvent::ModifySettingValue(1), T0);
    app.handle_event_at(AppEvent::Enter, T0);
    assert_eq!(app.settings.alert_threshold_secs, 7200);
    assert!(!app.settings.sound_enabled);
    assert!(!app.check_alerts_at(T0));
    assert!(app.pending_alerts.is_empty());
    app.settings.alert_threshold_secs = 1800;
    assert!(!app.check_alerts_at(T0 + 30_000));
    assert_eq!(app.pending_alerts.len(), 1);
}

#[test]
fn expiry_keywords_on_lowered_text() {
    assert!(aws_cloud_controller::actions::is_expiry_lowered("request has expired at noon"));
    assert!(!aws_cloud_controller::actions::is_expiry_lowered("ExpiredToken"));
    assert!(App::is_session_expired_error("EXPIREDTOKEN"));
    assert_eq!(
        App::is_session_expired_error("Invalid Token"),
        App::is_session_expired_error("invalid token")
    );
}
