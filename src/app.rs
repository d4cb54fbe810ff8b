//! Application state: screens, dialogs, notifications, and the commands that
//! hand outside work (network, processes, sound, files) to the caller.

use vstd::prelude::*;

use crate::aws::{Ec2Instance, LambdaFunction};
use crate::config::AppConfig;
use crate::logger::{after_log, LogLevel, LogManager, LogRecord};
use crate::settings::{Settings, SettingsField};

verus! {

/// Milliseconds a toast stays visible.
pub const TOAST_TTL_MS: i64 = 5000;

/// Refresh interval while boosted, in seconds.
pub const BOOST_INTERVAL_SECS: u64 = 5;

/// Least time between two alert checks, in milliseconds.
pub const ALERT_CHECK_INTERVAL_MS: i64 = 30000;

/// Length of the auto-stop the schedule dialog sets, in seconds.
pub const DEFAULT_AUTO_STOP_SECS: u64 = 3600;

/// The screen (tab) on display.
#[derive(Debug, Clone, Copy, PartialEq, Eq, Structural)]
pub enum Screen {
    Home,
    Ec2,
    Lambda,
    Logs,
    About,
}

/// The modal dialog on display, if any.
#[derive(Debug, Clone, PartialEq, Eq)]
pub enum Dialog {
    /// No dialog is open.
    Closed,
    Help,
    /// Setup instructions, shown when no credentials were found.
    Setup,
    Settings,
    SessionExpired,
    /// Confirmation before terminating the instance of this id.
    ConfirmTerminate(String),
    /// Scheduling an auto-stop of the instance of this id.
    ScheduleAutoStop(String),
    /// An alert with this message.
    Alert(String),
    /// Profile selection and login instructions.
    ConfigureAws,
    Changelog,
}

/// Severity of a toast.
#[derive(Debug, Clone, Copy, PartialEq, Eq, Structural)]
pub enum ToastType {
    Success,
    Error,
    Info,
}

/// A transient notification.
#[derive(Debug, Clone)]
pub struct Toast {
    pub message: String,
    pub toast_type: ToastType,
    /// Milliseconds since the Unix epoch.
    pub created_at: i64,
}

/// What a toast holds, as plain values.
pub type ToastRecord = (Seq<char>, ToastType, i64);

/// Results of background work, delivered to the state machine.
#[derive(Debug, Clone)]
pub enum AsyncNotification {
    /// The login helper succeeded: a message, and the profile it logged in.
    SsoLoginSuccess(String, String),
    /// The login helper failed, with its output.
    SsoLoginFailed(String),
    /// A client for this profile was built and is now in use.
    ProfileActivated(String),
    /// Building a client for the new profile failed.
    ProfileActivationFailed(String),
}

/// Outside work the state machine asks its caller to do next. Where the work
/// has a result, the caller hands it back through the matching method of `App`.
#[derive(Debug, Clone, PartialEq, Eq)]
pub enum Command {
    /// Nothing to do.
    Idle,
    /// List the instances, then call `complete_instances_refresh`.
    ListInstances,
    /// List the functions, then call `complete_functions_refresh`.
    ListFunctions,
    /// Start this instance, then call `complete_instance_action`.
    StartInstance(String),
    /// Stop this instance, then call `complete_instance_action`.
    StopInstance(String),
    /// Terminate this instance, then call `complete_instance_action`.
    TerminateInstance(String),
    /// Select this profile for new clients and build one in the background;
    /// report through `check_async_notifications`.
    ActivateProfile(String),
    /// Run the login helper in the background, for this profile if any;
    /// report through `check_async_notifications`.
    SsoLogin(Option<String>),
    /// Play the alert sound, without waiting for it.
    PlayAlertSound,
    /// Persist these settings, then call `complete_save_settings`.
    SaveSettings(Settings),
}

/// The whole application state.
pub struct App {
    pub config: AppConfig,
    pub should_quit: bool,
    pub current_screen: Screen,
    pub aws_configured: bool,
    pub status_message: String,
    pub is_loading: bool,
    /// Scroll position of the Home, About and Logs screens.
    pub scroll_offset: u16,
    pub ec2_instances: Vec<Ec2Instance>,
    pub ec2_selected: usize,
    /// Instance id and stop time (milliseconds since the Unix epoch).
    pub auto_stop_schedules: Vec<(String, i64)>,
    pub lambda_functions: Vec<LambdaFunction>,
    pub lambda_selected: usize,
    pub dialog: Dialog,
    pub pending_alerts: Vec<String>,
    pub last_alert_check: Option<i64>,
    pub last_refresh: Option<i64>,
    /// Configured refresh interval, in seconds.
    pub auto_refresh_interval: u64,
    /// Refresh fast until every instance is in a stable state.
    pub boost_refresh_until_stable: bool,
    pub toasts: Vec<Toast>,
    /// Terminal width and height.
    pub window_size: (u16, u16),
    pub dialog_scroll_offset: u16,
    pub settings: Settings,
    pub settings_selected_field: SettingsField,
    /// The copy of the settings that the settings dialog edits.
    pub settings_draft: Option<Settings>,
    pub log_manager: LogManager,
    pub available_profiles: Vec<String>,
    pub selected_profile_index: usize,
    pub active_profile_name: Option<String>,
}

/// Whether an instance state is one that does not change by itself.
pub open spec fn is_stable_state(s: Seq<char>) -> bool {
    s == "running"@ || s == "stopped"@ || s == "terminated"@
}

/// Whether every instance is in a stable state.
pub open spec fn all_stable(insts: Seq<Ec2Instance>) -> bool {
    forall|i: int| 0 <= i < insts.len() ==> is_stable_state(#[trigger] insts[i].state@)
}

/// Display name of the instance `id`: the name of the first instance with that
/// id, or the id itself.
pub open spec fn name_of(insts: Seq<Ec2Instance>, id: Seq<char>) -> Seq<char>
    decreases insts.len(),
{
    if insts.len() == 0 {
        id
    } else if insts[0].id@ == id {
        insts[0].name@
    } else {
        name_of(insts.drop_first(), id)
    }
}

/// Whether `id` has an auto-stop schedule.
pub open spec fn has_schedule(schedules: Seq<(Seq<char>, i64)>, id: Seq<char>) -> bool {
    exists|k: int| 0 <= k < schedules.len() && (#[trigger] schedules[k]).0 == id
}

/// Position of `name` in `profiles`, or 0 when it is absent or not given.
pub open spec fn profile_position(profiles: Seq<Seq<char>>, name: Option<Seq<char>>) -> int {
    match name {
        Some(n) => if exists|i: int| 0 <= i < profiles.len() && profiles[i] == n {
            choose|i: int| 0 <= i < profiles.len() && profiles[i] == n && forall|j: int| 0 <= j < i ==> profiles[j] != n
        } else {
            0
        },
        None => 0,
    }
}

/// The log of a fresh start at `now`.
pub open spec fn startup_log(settings_error: Option<Seq<char>>, configured: bool, now: i64) -> Seq<LogRecord> {
    let started = after_log(Seq::empty(), LogLevel::Info, "Application started"@, now);
    let loaded = match settings_error {
        None => after_log(started, LogLevel::Info, "Settings loaded successfully"@, now),
        Some(e) => after_log(
            started,
            LogLevel::Warning,
            "Failed to load settings, using defaults: "@ + e,
            now,
        ),
    };
    if configured {
        after_log(loaded, LogLevel::Info, "AWS credentials detected"@, now)
    } else {
        after_log(loaded, LogLevel::Warning, "AWS credentials not configured"@, now)
    }
}

impl App {
    /// The state at start-up, from what the caller found outside: the settings
    /// read (or why they could not be, whereupon the defaults apply), the
    /// profiles on offer, the profile selected in the environment, and whether
    /// credentials are configured. Without credentials the setup dialog opens.
    pub fn new(
        settings: Result<Settings, String>,
        available_profiles: Vec<String>,
        env_profile: Option<String>,
        aws_configured: bool,
        now: i64,
    ) -> (r: App)
        ensures
            r.settings == (match settings {
                Ok(s) => s,
                Err(_) => Settings::default_spec(),
            }),
            r.auto_refresh_interval == r.settings.refresh_interval_secs,
            r.log_manager.records() == startup_log(
                match settings {
                    Ok(_) => None,
                    Err(e) => Some(e@),
                },
                aws_configured,
                now,
            ),
            r.log_manager.scroll() == 0,
            r.aws_configured == aws_configured,
            r.dialog == (if aws_configured { Dialog::Closed } else { Dialog::Setup }),
            r.status_message@ == (if aws_configured { "Ready"@ } else { "AWS credentials not configured"@ }),
            r.available_profiles@ == available_profiles@,
            r.selected_profile_index == profile_position(
                available_profiles@.map_values(|s: String| s@),
                match env_profile {
                    Some(p) => Some(p@),
                    None => None,
                },
            ),
            match env_profile {
                Some(p) => r.active_profile_name is Some && r.active_profile_name->0@ == p@,
                None => r.active_profile_name is Some && r.active_profile_name->0@ == "default"@,
            },
            !r.should_quit,
            r.current_screen == Screen::Home,
            !r.is_loading,
            r.scroll_offset == 0,
            r.ec2_instances@.len() == 0,
            r.ec2_selected == 0,
            r.auto_stop_schedules@.len() == 0,
            r.lambda_functions@.len() == 0,
            r.lambda_selected == 0,
            r.pending_alerts@.len() == 0,
            r.last_alert_check is None,
            r.last_refresh is None,
            !r.boost_refresh_until_stable,
            r.toasts@.len() == 0,
            r.window_size == (80u16, 24u16),
            r.dialog_scroll_offset == 0,
            r.settings_selected_field == SettingsField::RefreshInterval,
            r.settings_draft is None,
    {
        let mut log_manager = LogManager::new();
        log_manager.log_at(LogLevel::Info, String::from_str("Application started"), now);
        let settings = match settings {
            Ok(s) => {
                log_manager.log_at(
                    LogLevel::Info,
                    String::from_str("Settings loaded successfully"),
                    now,
                );
                s
            },
            Err(e) => {
                let msg = String::from_str("Failed to load settings, using defaults: ").concat(
                    e.as_str(),
                );
                log_manager.log_at(LogLevel::Warning, msg, now);
                Settings::default()
            },
        };
        if aws_configured {
            log_manager.log_at(LogLevel::Info, String::from_str("AWS credentials detected"), now);
        } else {
            log_manager.log_at(
                LogLevel::Warning,
                String::from_str("AWS credentials not configured"),
                now,
            );
        }
        let ghost names = available_profiles@.map_values(|s: String| s@);
        let mut selected: usize = 0;
        match &env_profile {
            Some(p) => {
                let mut i: usize = 0;
                let mut found = false;
                while i < available_profiles.len()
                    invariant
                        i <= available_profiles.len(),
                        names == available_profiles@.map_values(|s: String| s@),
                        !found ==> forall|j: int| 0 <= j < i ==> names[j] != p@,
                        found ==> selected < i && names[selected as int] == p@ && forall|j: int|
                            0 <= j < selected ==> names[j] != p@,
                        !found ==> selected == 0,
                    decreases available_profiles.len() - i,
                {
                    if !found && available_profiles[i] == *p {
                        selected = i;
                        found = true;
                    }
                    i = i + 1;
                }
                proof {
                    if found {
                        let w = selected as int;
                        assert(0 <= w < names.len() && names[w] == p@);
                        let c = choose|k: int|
                            0 <= k < names.len() && names[k] == p@ && forall|j: int|
                                0 <= j < k ==> names[j] != p@;
                        assert(c == w) by {
                            if c < w {
                                assert(names[c] != p@);
                            } else if c > w {
                                assert(names[w] != p@);
                            }
                        }
                    } else {
                        assert(!exists|k: int| 0 <= k < names.len() && names[k] == p@);
                    }
                }
            },
            None => {},
        }
        let active = match env_profile {
            Some(p) => Some(p),
            None => Some(String::from_str("default")),
        };
        let refresh = settings.refresh_interval();
        App {
            config: AppConfig::default(),
            should_quit: false,
            current_screen: Screen::Home,
            aws_configured,
            status_message: if aws_configured {
                String::from_str("Ready")
            } else {
                String::from_str("AWS credentials not configured")
            },
            is_loading: false,
            scroll_offset: 0,
            ec2_instances: Vec::new(),
            ec2_selected: 0,
            auto_stop_schedules: Vec::new(),
            lambda_functions: Vec::new(),
            lambda_selected: 0,
            dialog: if aws_configured {
                Dialog::Closed
            } else {
                Dialog::Setup
            },
            pending_alerts: Vec::new(),
            last_alert_check: None,
            last_refresh: None,
            auto_refresh_interval: refresh,
            boost_refresh_until_stable: false,
            toasts: Vec::new(),
            window_size: (80, 24),
            dialog_scroll_offset: 0,
            settings,
            settings_selected_field: SettingsField::RefreshInterval,
            settings_draft: None,
            log_manager,
            available_profiles,
            selected_profile_index: selected,
            active_profile_name: active,
        }
    }

    /// The toasts, oldest first, as plain values.
    pub open spec fn toast_records(&self) -> Seq<ToastRecord> {
        self.toasts@.map_values(|t: Toast| (t.message@, t.toast_type, t.created_at))
    }

    /// The alert messages recorded so far.
    pub open spec fn alert_texts(&self) -> Seq<Seq<char>> {
        self.pending_alerts@.map_values(|s: String| s@)
    }

    /// The auto-stop schedules as instance id and stop time.
    pub open spec fn schedule_records(&self) -> Seq<(Seq<char>, i64)> {
        self.auto_stop_schedules@.map_values(|e: (String, i64)| (e.0@, e.1))
    }

    /// The profile names on offer.
    pub open spec fn profile_names(&self) -> Seq<Seq<char>> {
        self.available_profiles@.map_values(|s: String| s@)
    }

    /// Whether a dialog is open.
    pub open spec fn dialog_open(&self) -> bool {
        !(self.dialog is Closed)
    }
}

} // verus!
