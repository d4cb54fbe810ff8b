//! User settings and the cyclic editing of each field.

use vstd::prelude::*;

use crate::logger::LogLevel;
use crate::text::{decimal, decimal_string};

verus! {

/// User settings, persisted by the caller.
#[derive(Debug, Clone, Copy, PartialEq, Eq, Structural)]
pub struct Settings {
    /// Auto-refresh interval in seconds.
    pub refresh_interval_secs: u64,
    /// Whether the logs tab is reachable.
    pub show_logs_panel: bool,
    /// Least severe log level that is displayed.
    pub log_level: LogLevel,
    /// Alert threshold in seconds for long-running instances.
    pub alert_threshold_secs: u64,
    /// Whether alerts play a sound.
    pub sound_enabled: bool,
}

/// The log level a settings file without one gets.
pub fn default_log_level() -> (r: LogLevel)
    ensures
        r == LogLevel::Info,
{
    LogLevel::Info
}

/// The refresh interval at position `i` of its cycle 15s, 30s, 1m, 2m, 5m.
pub open spec fn refresh_at(i: int) -> u64 {
    if i == 0 {
        15
    } else if i == 1 {
        30
    } else if i == 2 {
        60
    } else if i == 3 {
        120
    } else {
        300
    }
}

/// Position of a refresh interval in its cycle; an interval outside it counts
/// as 1m.
pub open spec fn refresh_index(v: u64) -> int {
    if v == 15 {
        0
    } else if v == 30 {
        1
    } else if v == 60 {
        2
    } else if v == 120 {
        3
    } else if v == 300 {
        4
    } else {
        2
    }
}

/// The alert threshold at position `i` of its cycle 30m, 1h, 2h, 4h, 8h.
pub open spec fn threshold_at(i: int) -> u64 {
    if i == 0 {
        1800
    } else if i == 1 {
        3600
    } else if i == 2 {
        7200
    } else if i == 3 {
        14400
    } else {
        28800
    }
}

/// Position of an alert threshold in its cycle; a threshold outside it counts
/// as 1h.
pub open spec fn threshold_index(v: u64) -> int {
    if v == 1800 {
        0
    } else if v == 3600 {
        1
    } else if v == 7200 {
        2
    } else if v == 14400 {
        3
    } else if v == 28800 {
        4
    } else {
        1
    }
}

/// One step forward or back over `n` positions, wrapping at both ends.
pub open spec fn step_index(i: int, n: int, forward: bool) -> int {
    if forward {
        (i + 1) % n
    } else if i == 0 {
        n - 1
    } else {
        i - 1
    }
}

/// The refresh interval one step after (or before) `v`, wrapping.
pub open spec fn cycled_refresh(v: u64, forward: bool) -> u64 {
    refresh_at(step_index(refresh_index(v), 5, forward))
}

/// The alert threshold one step after (or before) `v`, wrapping.
pub open spec fn cycled_threshold(v: u64, forward: bool) -> u64 {
    threshold_at(step_index(threshold_index(v), 5, forward))
}

/// The log level after (or before) `l` in the cycle Debug, Info, Warning, Error;
/// Success counts as Info's neighbour and becomes Info.
pub open spec fn cycled_level(l: LogLevel, forward: bool) -> LogLevel {
    match l {
        LogLevel::Debug => if forward { LogLevel::Info } else { LogLevel::Error },
        LogLevel::Info => if forward { LogLevel::Warning } else { LogLevel::Debug },
        LogLevel::Warning => if forward { LogLevel::Error } else { LogLevel::Info },
        LogLevel::Error => if forward { LogLevel::Debug } else { LogLevel::Warning },
        LogLevel::Success => LogLevel::Info,
    }
}

/// Whether an entry of level `level` is shown when the setting is `setting`.
pub open spec fn level_shown(setting: LogLevel, level: LogLevel) -> bool {
    match setting {
        LogLevel::Debug => true,
        LogLevel::Info | LogLevel::Success => level != LogLevel::Debug,
        LogLevel::Warning => level == LogLevel::Warning || level == LogLevel::Error,
        LogLevel::Error => level == LogLevel::Error,
    }
}

/// A duration in seconds as shown in the dialog: whole seconds below a minute,
/// whole minutes below an hour, else whole hours ("15s", "2m", "8h").
pub open spec fn duration_label(secs: u64) -> Seq<char> {
    if secs < 60 {
        decimal(secs as nat) + "s"@
    } else if secs < 3600 {
        decimal((secs / 60) as nat) + "m"@
    } else {
        decimal((secs / 3600) as nat) + "h"@
    }
}

/// How a log level setting is shown.
pub open spec fn level_label(l: LogLevel) -> Seq<char> {
    match l {
        LogLevel::Debug => "Debug (All)"@,
        LogLevel::Info | LogLevel::Success => "Info"@,
        LogLevel::Warning => "Warning"@,
        LogLevel::Error => "Error Only"@,
    }
}

fn format_duration_secs(secs: u64) -> (r: String)
    ensures
        r@ == duration_label(secs),
{
    if secs < 60 {
        decimal_string(secs).concat("s")
    } else if secs < 3600 {
        decimal_string(secs / 60).concat("m")
    } else {
        decimal_string(secs / 3600).concat("h")
    }
}

fn refresh_position(v: u64) -> (r: usize)
    ensures
        r == refresh_index(v),
{
    if v == 15 {
        0
    } else if v == 30 {
        1
    } else if v == 60 {
        2
    } else if v == 120 {
        3
    } else if v == 300 {
        4
    } else {
        2
    }
}

fn refresh_value(i: usize) -> (r: u64)
    ensures
        r == refresh_at(i as int),
{
    match i {
        0 => 15,
        1 => 30,
        2 => 60,
        3 => 120,
        _ => 300,
    }
}

fn threshold_position(v: u64) -> (r: usize)
    ensures
        r == threshold_index(v),
{
    if v == 1800 {
        0
    } else if v == 3600 {
        1
    } else if v == 7200 {
        2
    } else if v == 14400 {
        3
    } else if v == 28800 {
        4
    } else {
        1
    }
}

fn threshold_value(i: usize) -> (r: u64)
    ensures
        r == threshold_at(i as int),
{
    match i {
        0 => 1800,
        1 => 3600,
        2 => 7200,
        3 => 14400,
        _ => 28800,
    }
}

/// One step over five positions, wrapping.
fn step5(i: usize, forward: bool) -> (r: usize)
    requires
        i < 5,
    ensures
        r as int == step_index(i as int, 5, forward),
        r < 5,
{
    if forward {
        (i + 1) % 5
    } else if i == 0 {
        4
    } else {
        i - 1
    }
}

impl Settings {
    /// Settings of a fresh installation, as a value.
    pub open spec fn default_spec() -> Settings {
        Settings {
            refresh_interval_secs: 60,
            show_logs_panel: false,
            log_level: LogLevel::Info,
            alert_threshold_secs: 3600,
            sound_enabled: true,
        }
    }

    /// Settings of a fresh installation: refresh every minute, logs tab hidden,
    /// Info and above shown, alert after one hour, sound on.
    pub fn default() -> (r: Settings)
        ensures
            r == Settings::default_spec(),
    {
        Settings {
            refresh_interval_secs: 60,
            show_logs_panel: false,
            log_level: LogLevel::Info,
            alert_threshold_secs: 3600,
            sound_enabled: true,
        }
    }

    /// The refresh interval, in seconds.
    pub fn refresh_interval(&self) -> (r: u64)
        ensures
            r == self.refresh_interval_secs,
    {
        self.refresh_interval_secs
    }

    /// The alert threshold, in seconds.
    pub fn alert_threshold(&self) -> (r: u64)
        ensures
            r == self.alert_threshold_secs,
    {
        self.alert_threshold_secs
    }

    /// Moves the refresh interval one step through 15s, 30s, 1m, 2m, 5m, wrapping;
    /// a value outside that list counts as 1m.
    pub fn cycle_refresh_interval(&mut self, forward: bool)
        ensures
            final(self).refresh_interval_secs == cycled_refresh(old(self).refresh_interval_secs, forward),
            *final(self) == (Settings {
                refresh_interval_secs: final(self).refresh_interval_secs,
                ..*old(self)
            }),
    {
        let i = refresh_position(self.refresh_interval_secs);
        let j = step5(i, forward);
        self.refresh_interval_secs = refresh_value(j);
    }

    /// Moves the alert threshold one step through 30m, 1h, 2h, 4h, 8h, wrapping;
    /// a value outside that list counts as 1h.
    pub fn cycle_alert_threshold(&mut self, forward: bool)
        ensures
            final(self).alert_threshold_secs == cycled_threshold(old(self).alert_threshold_secs, forward),
            *final(self) == (Settings {
                alert_threshold_secs: final(self).alert_threshold_secs,
                ..*old(self)
            }),
    {
        let i = threshold_position(self.alert_threshold_secs);
        let j = step5(i, forward);
        self.alert_threshold_secs = threshold_value(j);
    }

    /// Flips whether the logs tab is reachable.
    pub fn toggle_logs_panel(&mut self)
        ensures
            *final(self) == (Settings { show_logs_panel: !old(self).show_logs_panel, ..*old(self) }),
    {
        self.show_logs_panel = !self.show_logs_panel;
    }

    /// Flips whether alerts play a sound.
    pub fn toggle_sound(&mut self)
        ensures
            *final(self) == (Settings { sound_enabled: !old(self).sound_enabled, ..*old(self) }),
    {
        self.sound_enabled = !self.sound_enabled;
    }

    /// Moves the displayed log level one step, wrapping.
    pub fn cycle_log_level(&mut self, forward: bool)
        ensures
            *final(self) == (Settings {
                log_level: cycled_level(old(self).log_level, forward),
                ..*old(self)
            }),
    {
        self.log_level = if forward {
            match self.log_level {
                LogLevel::Debug => LogLevel::Info,
                LogLevel::Info => LogLevel::Warning,
                LogLevel::Warning => LogLevel::Error,
                LogLevel::Error => LogLevel::Debug,
                LogLevel::Success => LogLevel::Info,
            }
        } else {
            match self.log_level {
                LogLevel::Debug => LogLevel::Error,
                LogLevel::Info => LogLevel::Debug,
                LogLevel::Warning => LogLevel::Info,
                LogLevel::Error => LogLevel::Warning,
                LogLevel::Success => LogLevel::Info,
            }
        };
    }

    /// The refresh interval as shown in the dialog.
    pub fn format_refresh_interval(&self) -> (r: String)
        ensures
            r@ == duration_label(self.refresh_interval_secs),
    {
        format_duration_secs(self.refresh_interval_secs)
    }

    /// The alert threshold as shown in the dialog.
    pub fn format_alert_threshold(&self) -> (r: String)
        ensures
            r@ == duration_label(self.alert_threshold_secs),
    {
        format_duration_secs(self.alert_threshold_secs)
    }

    /// The log level setting as shown in the dialog.
    pub fn format_log_level(&self) -> (r: String)
        ensures
            r@ == level_label(self.log_level),
    {
        match self.log_level {
            LogLevel::Debug => String::from_str("Debug (All)"),
            LogLevel::Info => String::from_str("Info"),
            LogLevel::Warning => String::from_str("Warning"),
            LogLevel::Error => String::from_str("Error Only"),
            LogLevel::Success => String::from_str("Info"),
        }
    }

    /// Whether an entry of the given level is displayed under this setting.
    pub fn should_show_log(&self, level: LogLevel) -> (r: bool)
        ensures
            r == level_shown(self.log_level, level),
    {
        match self.log_level {
            LogLevel::Debug => true,
            LogLevel::Info => !matches!(level, LogLevel::Debug),
            LogLevel::Warning => matches!(level, LogLevel::Warning | LogLevel::Error),
            LogLevel::Error => matches!(level, LogLevel::Error),
            LogLevel::Success => !matches!(level, LogLevel::Debug),
        }
    }
}

/// The fields of the settings dialog, in display order.
#[derive(Debug, Clone, Copy, PartialEq, Eq, Structural)]
pub enum SettingsField {
    RefreshInterval,
    ShowLogsPanel,
    LogLevel,
    AlertThreshold,
    SoundEnabled,
    TestSound,
}

/// Display position of a settings field.
pub open spec fn field_index(f: SettingsField) -> int {
    match f {
        SettingsField::RefreshInterval => 0,
        SettingsField::ShowLogsPanel => 1,
        SettingsField::LogLevel => 2,
        SettingsField::AlertThreshold => 3,
        SettingsField::SoundEnabled => 4,
        SettingsField::TestSound => 5,
    }
}

impl SettingsField {
    /// The field below this one, wrapping from the last to the first.
    pub fn next(&self) -> (r: SettingsField)
        ensures
            field_index(r) == (field_index(*self) + 1) % 6,
    {
        match self {
            SettingsField::RefreshInterval => SettingsField::ShowLogsPanel,
            SettingsField::ShowLogsPanel => SettingsField::LogLevel,
            SettingsField::LogLevel => SettingsField::AlertThreshold,
            SettingsField::AlertThreshold => SettingsField::SoundEnabled,
            SettingsField::SoundEnabled => SettingsField::TestSound,
            SettingsField::TestSound => SettingsField::RefreshInterval,
        }
    }

    /// The field above this one, wrapping from the first to the last.
    pub fn prev(&self) -> (r: SettingsField)
        ensures
            field_index(r) == (field_index(*self) + 5) % 6,
    {
        match self {
            SettingsField::RefreshInterval => SettingsField::TestSound,
            SettingsField::ShowLogsPanel => SettingsField::RefreshInterval,
            SettingsField::LogLevel => SettingsField::ShowLogsPanel,
            SettingsField::AlertThreshold => SettingsField::LogLevel,
            SettingsField::SoundEnabled => SettingsField::AlertThreshold,
            SettingsField::TestSound => SettingsField::SoundEnabled,
        }
    }
}

} // verus!
