//! Event dispatch: the main screens, and the dialog layered over them.

use vstd::prelude::*;

use crate::actions::{
    activation_begun, auto_stop_recorded, modified, refresh_begun, sso_login_begun,
};
use crate::clock::now_millis;
use crate::app::{App, Command, Dialog, Screen, ToastType, DEFAULT_AUTO_STOP_SECS};
use crate::event::AppEvent;
use crate::logger::{after_log, LogLevel};
use crate::settings::{field_index, SettingsField};

verus! {

/// The screen a tab index selects; an unknown index keeps `current`, and the
/// logs tab does so too while it is hidden.
pub open spec fn tab_target(idx: usize, current: Screen, logs_shown: bool) -> Screen {
    let s = if idx == 0 {
        Screen::Home
    } else if idx == 1 {
        Screen::Ec2
    } else if idx == 2 {
        Screen::Lambda
    } else if idx == 3 {
        Screen::About
    } else if idx == 4 {
        Screen::Logs
    } else {
        current
    };
    if s == Screen::Logs && !logs_shown {
        current
    } else {
        s
    }
}

/// The name of a screen, as the navigation log writes it.
pub open spec fn screen_name(s: Screen) -> Seq<char> {
    match s {
        Screen::Home => "Home"@,
        Screen::Ec2 => "Ec2"@,
        Screen::Lambda => "Lambda"@,
        Screen::Logs => "Logs"@,
        Screen::About => "About"@,
    }
}

/// Lines of content of a scrolling screen at terminal width `width`.
pub open spec fn content_height(s: Screen, width: u16) -> int {
    match s {
        Screen::Home => if width >= 100 { 18 } else { 25 },
        Screen::About => if width >= 100 { 30 } else { 58 },
        Screen::Logs => 50,
        _ => 0,
    }
}

/// `a - b`, or 0 when that is negative.
pub open spec fn minus_floor(a: int, b: int) -> int {
    if a > b {
        a - b
    } else {
        0
    }
}

/// Furthest scroll of a scrolling screen: content beyond the terminal height
/// less eight lines of tabs, status bar and borders.
pub open spec fn screen_max_scroll(s: Screen, width: u16, height: u16) -> int {
    minus_floor(content_height(s, width), minus_floor(height as int, 8))
}

/// `i + delta` clamped into `[0, len - 1]`.
pub open spec fn clamp_index(i: int, delta: int, len: int) -> int {
    if i + delta < 0 {
        0
    } else if i + delta > len - 1 {
        len - 1
    } else {
        i + delta
    }
}

/// `after` is `before` after Up (`delta < 0`) or Down. On Instances and
/// Functions the selection moves and is clamped to the list, an empty list
/// staying as it is; on the other screens the scroll moves within
/// `[0, screen_max_scroll]`.
pub open spec fn selection_moved(before: App, after: App, delta: i32) -> bool {
    match before.current_screen {
        Screen::Ec2 => if before.ec2_instances.len() > 0 {
            after == (App {
                ec2_selected: clamp_index(
                    before.ec2_selected as int,
                    delta as int,
                    before.ec2_instances.len() as int,
                ) as usize,
                ..before
            })
        } else {
            after == before
        },
        Screen::Lambda => if before.lambda_functions.len() > 0 {
            after == (App {
                lambda_selected: clamp_index(
                    before.lambda_selected as int,
                    delta as int,
                    before.lambda_functions.len() as int,
                ) as usize,
                ..before
            })
        } else {
            after == before
        },
        _ => {
            let m = screen_max_scroll(before.current_screen, before.window_size.0, before.window_size.1);
            let s = before.scroll_offset as int;
            after == (App {
                scroll_offset: (if delta > 0 {
                    if s + 1 < m {
                        s + 1
                    } else {
                        m
                    }
                } else {
                    minus_floor(s, 1)
                }) as u16,
                ..before
            })
        },
    }
}

/// Line of the selected item in a dialog with a selection, and the dialog's
/// inner height; `None` for the other dialogs.
pub open spec fn selection_line(a: App) -> Option<(int, int)> {
    let h = a.window_size.1 as int;
    match a.dialog {
        Dialog::ConfigureAws | Dialog::SessionExpired => {
            let t = 5 + a.selected_profile_index;
            Some((if t > 65535 { 65535 } else { t }, minus_floor(h * 50 / 100, 3)))
        },
        Dialog::Settings => Some(
            (5 + 2 * field_index(a.settings_selected_field), minus_floor(h * 60 / 100, 3)),
        ),
        _ => None,
    }
}

/// The dialog scroll that brings the selected line into view, moving as
/// little as possible.
pub open spec fn visible_scroll(a: App) -> u16 {
    let s = a.dialog_scroll_offset as int;
    match selection_line(a) {
        None => a.dialog_scroll_offset,
        Some((t, avail)) => if t < s {
            t as u16
        } else if t >= s + avail {
            let v = minus_floor(t, avail) + 1;
            (if v > 65535 { 65535 } else { v }) as u16
        } else {
            a.dialog_scroll_offset
        },
    }
}

/// Furthest scroll of the open dialog: its content lines beyond its inner
/// height, from a fixed (height percent, content lines) per dialog.
pub open spec fn dialog_max_scroll(a: App) -> int {
    let (pct, lines) = match a.dialog {
        Dialog::Setup => (70int, 27int),
        Dialog::Help => (60, 27),
        Dialog::Settings => (60, 15),
        Dialog::SessionExpired => (60, 25),
        Dialog::ConfirmTerminate(_) => (30, 12),
        Dialog::ScheduleAutoStop(_) => (30, 12),
        Dialog::Alert(_) => (25, 10),
        Dialog::ConfigureAws => (
            50,
            6 + if a.available_profiles.len() > 1 { a.available_profiles.len() as int } else { 1 },
        ),
        Dialog::Changelog => (70, 50),
        Dialog::Closed => (0, 0),
    };
    minus_floor(lines, minus_floor(a.window_size.1 as int * pct / 100, 2))
}

/// `after` is `before` with the settings dialog closed and its draft dropped.
pub open spec fn settings_cancelled(before: App, after: App, now: i64) -> bool {
    &&& after.log_manager.records() == after_log(
        before.log_manager.records(),
        LogLevel::Info,
        "Settings dialog cancelled"@,
        now,
    )
    &&& after.log_manager.scroll() == before.log_manager.scroll()
    &&& after == (App {
        settings_draft: None,
        dialog: Dialog::Closed,
        log_manager: after.log_manager,
        ..before
    })
}

/// `after` is `before` with the settings dialog opened on a draft.
pub open spec fn settings_opened(before: App, after: App, now: i64) -> bool {
    &&& after.log_manager.records() == after_log(
        before.log_manager.records(),
        LogLevel::Info,
        "Opened settings dialog"@,
        now,
    )
    &&& after.log_manager.scroll() == before.log_manager.scroll()
    &&& after == (App {
        settings_draft: Some(before.settings),
        settings_selected_field: SettingsField::RefreshInterval,
        dialog: Dialog::Settings,
        dialog_scroll_offset: 0,
        log_manager: after.log_manager,
        ..before
    })
}

/// `after` is `before` with the draft committed and the dialog closed.
pub open spec fn settings_saved(before: App, after: App, cmd: Command) -> bool {
    match before.settings_draft {
        Some(d) => cmd == Command::SaveSettings(d) && after == (App {
            settings: d,
            auto_refresh_interval: d.refresh_interval_secs,
            settings_draft: None,
            dialog: Dialog::Closed,
            ..before
        }),
        None => cmd is Idle && after == (App { dialog: Dialog::Closed, ..before }),
    }
}

/// `after` is `before` with the test sound asked for and reported.
pub open spec fn test_alert_triggered(before: App, after: App, cmd: Command, now: i64) -> bool {
    &&& cmd is PlayAlertSound
    &&& after.toast_records() == before.toast_records().push(
        ("\u{1f514} Test Alert: System Sound Working"@, ToastType::Info, now),
    )
    &&& after.log_manager.records() == after_log(
        before.log_manager.records(),
        LogLevel::Info,
        "Triggered test alert sound"@,
        now,
    )
    &&& after.log_manager.scroll() == before.log_manager.scroll()
    &&& after == (App { toasts: after.toasts, log_manager: after.log_manager, ..before })
}

/// `after` is `before` with the selected instance asked for by `make`, or
/// unchanged when nothing is selected.
pub open spec fn selected_action_requested(
    before: App,
    after: App,
    cmd: Command,
    start: bool,
) -> bool {
    if before.ec2_selected < before.ec2_instances.len() {
        let id = before.ec2_instances@[before.ec2_selected as int].id;
        &&& cmd == (if start { Command::StartInstance(id) } else { Command::StopInstance(id) })
        &&& after.status_message@ == (if start { "Starting "@ } else { "Stopping "@ }) + id@ + "..."@
        &&& after == (App { status_message: after.status_message, ..before })
    } else {
        cmd is Idle && after == before
    }
}

/// `after` is `before` with a dialog about the selected instance opened
/// (`terminate`: the confirmation; else the auto-stop), if one is selected.
pub open spec fn instance_dialog_opened(before: App, after: App, terminate: bool) -> bool {
    if before.ec2_selected < before.ec2_instances.len() {
        let id = before.ec2_instances@[before.ec2_selected as int].id;
        after == (App {
            dialog: if terminate { Dialog::ConfirmTerminate(id) } else { Dialog::ScheduleAutoStop(id) },
            dialog_scroll_offset: 0,
            ..before
        })
    } else {
        after == before
    }
}

/// `after` is `before` after Enter on a screen: Instances refreshes,
/// Functions reports the selected function, the others do nothing.
pub open spec fn enter_handled(before: App, after: App, cmd: Command, now: i64) -> bool {
    match before.current_screen {
        Screen::Ec2 => refresh_begun(before, after, cmd, now),
        Screen::Lambda => cmd is Idle && if before.lambda_selected < before.lambda_functions.len() {
            &&& after.status_message@ == "Lambda invocation coming soon: "@
                + before.lambda_functions@[before.lambda_selected as int].name@
            &&& after == (App { status_message: after.status_message, ..before })
        } else {
            after == before
        },
        _ => cmd is Idle && after == before,
    }
}

/// `after` is `before` after `event` while a dialog is open.
pub open spec fn dialog_event_handled(
    before: App,
    after: App,
    event: AppEvent,
    cmd: Command,
    now: i64,
) -> bool {
    let d = before.dialog;
    let picker = d is ConfigureAws || d is SessionExpired;
    let idx = before.selected_profile_index as int;
    let n = before.available_profiles.len() as int;
    let scroll = before.dialog_scroll_offset as int;
    match event {
        AppEvent::Quit | AppEvent::CancelSettings => cmd is Idle && if d is Settings {
            settings_cancelled(before, after, now)
        } else {
            after == (App { dialog: Dialog::Closed, ..before })
        },
        AppEvent::Up => cmd is Idle && if d is Settings && before.settings_selected_field
            != SettingsField::RefreshInterval {
            let moved = App { settings_selected_field: after.settings_selected_field, ..before };
            &&& field_index(after.settings_selected_field) == (field_index(
                before.settings_selected_field,
            ) + 5) % 6
            &&& after == (App { dialog_scroll_offset: visible_scroll(moved), ..moved })
        } else if picker && idx > 0 {
            let moved = App { selected_profile_index: (idx - 1) as usize, ..before };
            after == (App { dialog_scroll_offset: visible_scroll(moved), ..moved })
        } else {
            after == (App { dialog_scroll_offset: minus_floor(scroll, 1) as u16, ..before })
        },
        AppEvent::Down => cmd is Idle && if d is Settings && before.settings_selected_field
            != SettingsField::TestSound {
            let moved = App { settings_selected_field: after.settings_selected_field, ..before };
            &&& field_index(after.settings_selected_field) == (field_index(
                before.settings_selected_field,
            ) + 1) % 6
            &&& after == (App { dialog_scroll_offset: visible_scroll(moved), ..moved })
        } else if picker && n > 0 && idx < n - 1 {
            let moved = App { selected_profile_index: (idx + 1) as usize, ..before };
            after == (App { dialog_scroll_offset: visible_scroll(moved), ..moved })
        } else if scroll < dialog_max_scroll(before) && scroll < 65535 {
            after == (App { dialog_scroll_offset: (scroll + 1) as u16, ..before })
        } else {
            after == before
        },
        AppEvent::Enter => match d {
            Dialog::ConfirmTerminate(id) => {
                &&& cmd is TerminateInstance && cmd->TerminateInstance_0@ == id@
                &&& after.status_message@ == "Terminating "@ + id@ + "..."@
                &&& after == (App {
                    status_message: after.status_message,
                    dialog: Dialog::Closed,
                    ..before
                })
            },
            Dialog::ScheduleAutoStop(id) => {
                let mid = App { dialog: Dialog::Closed, ..before };
                let stop = now + DEFAULT_AUTO_STOP_SECS * 1000;
                cmd is Idle && if stop <= i64::MAX {
                    auto_stop_recorded(mid, after, id@, stop as i64, now)
                } else {
                    after == mid
                }
            },
            Dialog::Settings => if before.settings_selected_field == SettingsField::TestSound {
                test_alert_triggered(before, after, cmd, now)
            } else {
                settings_saved(before, after, cmd)
            },
            Dialog::ConfigureAws | Dialog::SessionExpired => if idx < n {
                activation_begun(before, after, before.profile_names()[idx], cmd, now)
            } else {
                cmd is Idle && after == before
            },
            Dialog::Closed => cmd is Idle && after == before,
            _ => cmd is Idle && after == (App { dialog: Dialog::Closed, ..before }),
        },
        AppEvent::ConfigureAws => cmd is Idle && after == (App {
            dialog: Dialog::ConfigureAws,
            dialog_scroll_offset: 0,
            ..before
        }),
        AppEvent::ModifySettingValue(delta) => cmd is Idle && if d is Settings
            && before.settings_draft is Some {
            after == (App {
                settings_draft: Some(
                    modified(before.settings_draft->0, before.settings_selected_field, delta),
                ),
                ..before
            })
        } else {
            after == before
        },
        AppEvent::SsoLogin => if d is SessionExpired || d is ConfigureAws || d is Setup {
            sso_login_begun(before, after, cmd, now)
        } else {
            cmd is Idle && after == before
        },
        AppEvent::Refresh => if d is SessionExpired {
            refresh_begun(App { dialog: Dialog::Closed, ..before }, after, cmd, now)
        } else {
            cmd is Idle && after == before
        },
        _ => cmd is Idle && after == before,
    }
}

/// `after` is `before` after `event` at `now`, asking for `cmd`. While a
/// dialog is open the dialog handles every event; otherwise the screens do.
pub open spec fn event_handled(before: App, after: App, event: AppEvent, cmd: Command, now: i64) -> bool {
    if before.dialog_open() {
        dialog_event_handled(before, after, event, cmd, now)
    } else {
        match event {
            AppEvent::Quit => cmd is Idle && after == (App { should_quit: true, ..before }),
            AppEvent::NavigateTab(i) => {
                let t = tab_target(i, before.current_screen, before.settings.show_logs_panel);
                cmd is Idle && if t != before.current_screen {
                    &&& after.log_manager.records() == after_log(
                        before.log_manager.records(),
                        LogLevel::Info,
                        "Navigated to "@ + screen_name(t) + " screen"@,
                        now,
                    )
                    &&& after.log_manager.scroll() == before.log_manager.scroll()
                    &&& after == (App {
                        current_screen: t,
                        scroll_offset: 0,
                        log_manager: after.log_manager,
                        ..before
                    })
                } else {
                    after == before
                }
            },
            AppEvent::Up => cmd is Idle && selection_moved(before, after, -1i32),
            AppEvent::Down => cmd is Idle && selection_moved(before, after, 1i32),
            AppEvent::Refresh => refresh_begun(before, after, cmd, now),
            AppEvent::Start => selected_action_requested(before, after, cmd, true),
            AppEvent::Stop => selected_action_requested(before, after, cmd, false),
            AppEvent::Terminate => cmd is Idle && instance_dialog_opened(before, after, true),
            AppEvent::Schedule => cmd is Idle && instance_dialog_opened(before, after, false),
            AppEvent::ShowHelp => cmd is Idle && after == (App {
                dialog: Dialog::Help,
                dialog_scroll_offset: 0,
                ..before
            }),
            AppEvent::Enter => enter_handled(before, after, cmd, now),
            AppEvent::Resize(w, h) => cmd is Idle && after == (App { window_size: (w, h), ..before }),
            AppEvent::OpenSettings => cmd is Idle && settings_opened(before, after, now),
            AppEvent::ConfigureAws => cmd is Idle && after == (App {
                dialog: Dialog::ConfigureAws,
                dialog_scroll_offset: 0,
                ..before
            }),
            AppEvent::ShowChangelog => cmd is Idle && if before.current_screen == Screen::About {
                after == (App { dialog: Dialog::Changelog, dialog_scroll_offset: 0, ..before })
            } else {
                after == before
            },
            _ => cmd is Idle && after == before,
        }
    }
}

fn screen_str(s: Screen) -> (r: &'static str)
    ensures
        r@ == screen_name(s),
{
    match s {
        Screen::Home => "Home",
        Screen::Ec2 => "Ec2",
        Screen::Lambda => "Lambda",
        Screen::Logs => "Logs",
        Screen::About => "About",
    }
}

fn field_position(f: SettingsField) -> (r: u64)
    ensures
        r == field_index(f),
{
    match f {
        SettingsField::RefreshInterval => 0,
        SettingsField::ShowLogsPanel => 1,
        SettingsField::LogLevel => 2,
        SettingsField::AlertThreshold => 3,
        SettingsField::SoundEnabled => 4,
        SettingsField::TestSound => 5,
    }
}

/// `index + delta` clamped into `[0, len - 1]`.
fn clamped(index: usize, delta: i32, len: usize) -> (r: usize)
    requires
        len > 0,
    ensures
        r == clamp_index(index as int, delta as int, len as int),
{
    let n: i128 = index as i128 + delta as i128;
    if n < 0 {
        0
    } else if n > (len - 1) as i128 {
        len - 1
    } else {
        n as usize
    }
}

/// `h * pct / 100`, less `pad`, or 0.
fn inner_height(h: u16, pct: u64, pad: u64) -> (r: u64)
    requires
        pct <= 100,
        pad <= 3,
    ensures
        r == minus_floor(h as int * pct as int / 100, pad as int),
{
    proof {
        assert(h as int * pct as int <= 65535 * 100) by (nonlinear_arith)
            requires
                h <= 65535,
                pct <= 100,
        ;
    }
    let chunk = (h as u64) * pct / 100;
    if chunk > pad {
        chunk - pad
    } else {
        0
    }
}

impl App {
    /// Up (`delta < 0`) or Down: moves the selection on Instances and
    /// Functions, clamped to the list; scrolls the other screens.
    pub fn move_selection(&mut self, delta: i32)
        ensures
            selection_moved(*old(self), *final(self), delta),
    {
        match self.current_screen {
            Screen::Ec2 => {
                let len = self.ec2_instances.len();
                if len > 0 {
                    self.ec2_selected = clamped(self.ec2_selected, delta, len);
                }
            },
            Screen::Lambda => {
                let len = self.lambda_functions.len();
                if len > 0 {
                    self.lambda_selected = clamped(self.lambda_selected, delta, len);
                }
            },
            Screen::Home | Screen::About | Screen::Logs => {
                let (w, h) = self.window_size;
                let available: u16 = if h > 8 {
                    h - 8
                } else {
                    0
                };
                let content: u16 = match self.current_screen {
                    Screen::Home => if w >= 100 {
                        18
                    } else {
                        25
                    },
                    Screen::About => if w >= 100 {
                        30
                    } else {
                        58
                    },
                    _ => 50,
                };
                let max_scroll: u16 = if content > available {
                    content - available
                } else {
                    0
                };
                if delta > 0 {
                    let next: u32 = self.scroll_offset as u32 + 1;
                    self.scroll_offset = if next < max_scroll as u32 {
                        next as u16
                    } else {
                        max_scroll
                    };
                } else if self.scroll_offset > 0 {
                    self.scroll_offset = self.scroll_offset - 1;
                }
            },
        }
    }

    /// Enter on a screen: Instances refreshes; Functions reports that
    /// invoking the selected function is not available yet.
    pub fn handle_enter(&mut self, now: i64) -> (cmd: Command)
        ensures
            enter_handled(*old(self), *final(self), cmd, now),
    {
        match self.current_screen {
            Screen::Ec2 => self.refresh_data(now),
            Screen::Lambda => {
                if self.lambda_selected < self.lambda_functions.len() {
                    let msg = String::from_str("Lambda invocation coming soon: ").concat(
                        self.lambda_functions[self.lambda_selected].name.as_str(),
                    );
                    self.status_message = msg;
                }
                Command::Idle
            },
            _ => Command::Idle,
        }
    }

    /// Scrolls the dialog so that its selected line is in view.
    pub fn ensure_dialog_selection_visible(&mut self)
        ensures
            *final(self) == (App { dialog_scroll_offset: visible_scroll(*old(self)), ..*old(self) }),
    {
        let h = self.window_size.1;
        let (target, available): (u64, u64) = match self.dialog {
            Dialog::ConfigureAws | Dialog::SessionExpired => {
                let idx = self.selected_profile_index;
                let t: u64 = if idx > 65530 {
                    65535
                } else {
                    5 + idx as u64
                };
                (t, inner_height(h, 50, 3))
            },
            Dialog::Settings => {
                (5 + 2 * field_position(self.settings_selected_field), inner_height(h, 60, 3))
            },
            _ => {
                return ;
            },
        };
        let s = self.dialog_scroll_offset as u64;
        if target < s {
            self.dialog_scroll_offset = target as u16;
        } else if target >= s + available {
            let v: u64 = (if target > available {
                target - available
            } else {
                0
            }) + 1;
            self.dialog_scroll_offset = if v > 65535 {
                65535
            } else {
                v as u16
            };
        }
    }

    /// Furthest scroll of the open dialog.
    fn dialog_max_scroll_now(&self) -> (r: u128)
        ensures
            r == dialog_max_scroll(*self),
    {
        let h = self.window_size.1;
        let (pct, lines): (u64, u128) = match self.dialog {
            Dialog::Setup => (70, 27),
            Dialog::Help => (60, 27),
            Dialog::Settings => (60, 15),
            Dialog::SessionExpired => (60, 25),
            Dialog::ConfirmTerminate(_) => (30, 12),
            Dialog::ScheduleAutoStop(_) => (30, 12),
            Dialog::Alert(_) => (25, 10),
            Dialog::ConfigureAws => {
                let n = self.available_profiles.len();
                let shown: u128 = if n > 1 {
                    n as u128
                } else {
                    1
                };
                (50, 6 + shown)
            },
            Dialog::Changelog => (70, 50),
            Dialog::Closed => (0, 0),
        };
        let available = inner_height(h, pct, 2) as u128;
        if lines > available {
            lines - available
        } else {
            0
        }
    }

    /// Handles an event while a dialog is open (see `dialog_event_handled`).
    fn handle_dialog_event(&mut self, event: AppEvent, now: i64) -> (cmd: Command)
        ensures
            dialog_event_handled(*old(self), *final(self), event, cmd, now),
    {
        let picker = matches!(self.dialog, Dialog::ConfigureAws | Dialog::SessionExpired);
        match event {
            AppEvent::Quit | AppEvent::CancelSettings => {
                if matches!(self.dialog, Dialog::Settings) {
                    self.cancel_settings(now);
                } else {
                    self.dialog = Dialog::Closed;
                }
                Command::Idle
            },
            AppEvent::Up => {
                if matches!(self.dialog, Dialog::Settings) && self.settings_selected_field
                    != SettingsField::RefreshInterval {
                    self.navigate_settings_field(true);
                    self.ensure_dialog_selection_visible();
                } else if picker && self.selected_profile_index > 0 {
                    self.selected_profile_index = self.selected_profile_index - 1;
                    self.ensure_dialog_selection_visible();
                } else if self.dialog_scroll_offset > 0 {
                    self.dialog_scroll_offset = self.dialog_scroll_offset - 1;
                }
                Command::Idle
            },
            AppEvent::Down => {
                let max_scroll = self.dialog_max_scroll_now();
                let n = self.available_profiles.len();
                if matches!(self.dialog, Dialog::Settings) && self.settings_selected_field
                    != SettingsField::TestSound {
                    self.navigate_settings_field(false);
                    self.ensure_dialog_selection_visible();
                } else if picker && n > 0 && self.selected_profile_index < n - 1 {
                    self.selected_profile_index = self.selected_profile_index + 1;
                    self.ensure_dialog_selection_visible();
                } else if (self.dialog_scroll_offset as u128) < max_scroll
                    && self.dialog_scroll_offset < 65535 {
                    self.dialog_scroll_offset = self.dialog_scroll_offset + 1;
                }
                Command::Idle
            },
            AppEvent::Enter => {
                let mut d = Dialog::Closed;
                std::mem::swap(&mut d, &mut self.dialog);
                match d {
                    Dialog::ConfirmTerminate(id) => self.terminate_instance(id.as_str()),
                    Dialog::ScheduleAutoStop(id) => {
                        let _ = self.schedule_auto_stop(id.as_str(), DEFAULT_AUTO_STOP_SECS, now);
                        Command::Idle
                    },
                    Dialog::Settings => {
                        self.dialog = d;
                        if self.settings_selected_field == SettingsField::TestSound {
                            self.trigger_test_alert(now)
                        } else {
                            self.save_settings()
                        }
                    },
                    Dialog::ConfigureAws | Dialog::SessionExpired => {
                        self.dialog = d;
                        if self.selected_profile_index < self.available_profiles.len() {
                            let profile = self.available_profiles[self.selected_profile_index].clone();
                            self.activate_profile(profile.as_str(), now)
                        } else {
                            Command::Idle
                        }
                    },
                    Dialog::Closed => Command::Idle,
                    _ => Command::Idle,
                }
            },
            AppEvent::ConfigureAws => {
                self.dialog = Dialog::ConfigureAws;
                self.dialog_scroll_offset = 0;
                Command::Idle
            },
            AppEvent::ModifySettingValue(delta) => {
                if matches!(self.dialog, Dialog::Settings) {
                    self.modify_current_setting(delta);
                }
                Command::Idle
            },
            AppEvent::SsoLogin => {
                if matches!(self.dialog, Dialog::SessionExpired | Dialog::ConfigureAws | Dialog::Setup) {
                    self.login_with_sso(now)
                } else {
                    Command::Idle
                }
            },
            AppEvent::Refresh => {
                if matches!(self.dialog, Dialog::SessionExpired) {
                    self.dialog = Dialog::Closed;
                    self.refresh_data(now)
                } else {
                    Command::Idle
                }
            },
            _ => Command::Idle,
        }
    }

    /// Applies one input event at `now` (see `event_handled`) and returns the
    /// outside work it asks for.
    pub fn handle_event_at(&mut self, event: AppEvent, now: i64) -> (cmd: Command)
        ensures
            event_handled(*old(self), *final(self), event, cmd, now),
    {
        if !matches!(self.dialog, Dialog::Closed) {
            return self.handle_dialog_event(event, now);
        }
        match event {
            AppEvent::Quit => {
                self.should_quit = true;
                Command::Idle
            },
            AppEvent::NavigateTab(idx) => {
                let chosen = if idx == 0 {
                    Screen::Home
                } else if idx == 1 {
                    Screen::Ec2
                } else if idx == 2 {
                    Screen::Lambda
                } else if idx == 3 {
                    Screen::About
                } else if idx == 4 {
                    Screen::Logs
                } else {
                    self.current_screen
                };
                let target = if chosen == Screen::Logs && !self.settings.show_logs_panel {
                    self.current_screen
                } else {
                    chosen
                };
                if target != self.current_screen {
                    self.current_screen = target;
                    self.scroll_offset = 0;
                    let msg = String::from_str("Navigated to ").concat(screen_str(target)).concat(
                        " screen",
                    );
                    self.log_manager.log_at(LogLevel::Info, msg, now);
                }
                Command::Idle
            },
            AppEvent::Up => {
                self.move_selection(-1);
                Command::Idle
            },
            AppEvent::Down => {
                self.move_selection(1);
                Command::Idle
            },
            AppEvent::Refresh => self.refresh_data(now),
            AppEvent::Start => self.start_selected_instance(),
            AppEvent::Stop => self.stop_selected_instance(),
            AppEvent::Terminate => {
                self.confirm_terminate_instance();
                Command::Idle
            },
            AppEvent::Schedule => {
                self.open_schedule_dialog();
                Command::Idle
            },
            AppEvent::ShowHelp => {
                self.dialog = Dialog::Help;
                self.dialog_scroll_offset = 0;
                Command::Idle
            },
            AppEvent::Enter => self.handle_enter(now),
            AppEvent::Resize(w, h) => {
                self.window_size = (w, h);
                Command::Idle
            },
            AppEvent::OpenSettings => {
                self.open_settings_dialog(now);
                Command::Idle
            },
            AppEvent::ConfigureAws => {
                self.dialog = Dialog::ConfigureAws;
                self.dialog_scroll_offset = 0;
                Command::Idle
            },
            AppEvent::ShowChangelog => {
                if self.current_screen == Screen::About {
                    self.dialog = Dialog::Changelog;
                    self.dialog_scroll_offset = 0;
                }
                Command::Idle
            },
            _ => Command::Idle,
        }
    }

    /// Applies one input event by the clock.
    pub fn handle_event(&mut self, event: AppEvent) -> (cmd: Command)
        ensures
            exists|at: i64| at >= 0 && #[trigger] event_handled(*old(self), *final(self), event, cmd, at),
    {
        let now = now_millis();
        self.handle_event_at(event, now)
    }
}

} // verus!
