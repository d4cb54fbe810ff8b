//! Actions of the state machine: toasts, refresh, instance actions, schedules,
//! alerts, settings, and profile switching.

use vstd::prelude::*;

use crate::app::{
    all_stable, has_schedule, is_stable_state, name_of, App, AsyncNotification, Command, Dialog,
    Screen, Toast, ToastRecord, ToastType, ALERT_CHECK_INTERVAL_MS, BOOST_INTERVAL_SECS,
    TOAST_TTL_MS,
};
use crate::aws::{Ec2Instance, LambdaFunction};
use crate::clock::now_millis;
use crate::logger::{after_log, LogLevel};
use crate::settings::{cycled_level, cycled_refresh, cycled_threshold, Settings, SettingsField};
use crate::text::{
    clock_text, clock_time_string, contains_text, decimal, decimal_string, has_substring,
    lower_of, lowercase,
};

verus! {

/// Whether a lower-cased provider error text names one of the expiry keywords.
pub open spec fn is_expiry_text(t: Seq<char>) -> bool {
    ||| has_substring(t, "expiredtoken"@)
    ||| has_substring(t, "expired token"@)
    ||| has_substring(t, "token is expired"@)
    ||| has_substring(t, "security token"@)
    ||| has_substring(t, "invalidtoken"@)
    ||| has_substring(t, "invalid token"@)
    ||| has_substring(t, "credentials have expired"@)
    ||| has_substring(t, "requestexpired"@)
    ||| has_substring(t, "request has expired"@)
    ||| has_substring(t, "authfailure"@)
}

/// Whether a toast created at `created` is still shown at `now`.
pub open spec fn toast_alive(now: i64, created: i64) -> bool {
    now - created < TOAST_TTL_MS
}

/// The toasts of `s` still shown at `now`.
pub open spec fn surviving(s: Seq<ToastRecord>, now: i64) -> Seq<ToastRecord> {
    s.filter(|t: ToastRecord| toast_alive(now, t.2))
}

/// The command that refreshes the data of a screen.
pub open spec fn refresh_command(s: Screen) -> Command {
    match s {
        Screen::Ec2 | Screen::Home => Command::ListInstances,
        Screen::Lambda => Command::ListFunctions,
        _ => Command::Idle,
    }
}

/// `after` is `before` with a refresh begun at `now` that asks for `cmd`: a screen
/// without data is done at once; the others wait, loading, for the list.
pub open spec fn refresh_begun(before: App, after: App, cmd: Command, now: i64) -> bool {
    &&& cmd == refresh_command(before.current_screen)
    &&& if cmd is Idle {
        &&& after.status_message@ == "Nothing to refresh on this screen"@
        &&& !after.is_loading
        &&& after.last_refresh == Some(now)
    } else {
        &&& after.status_message@ == "Loading..."@
        &&& after.is_loading
        &&& after.last_refresh == before.last_refresh
    }
    &&& after == (App {
        status_message: after.status_message,
        is_loading: after.is_loading,
        last_refresh: after.last_refresh,
        ..before
    })
}

/// Whether a refresh is due at `now`, given the last one and the interval.
pub open spec fn refresh_due(last: Option<i64>, now: i64, interval_secs: u64) -> bool {
    match last {
        Some(t) => now - t >= interval_secs * 1000,
        None => true,
    }
}

/// The interval in force: the boost interval while boosted, else the configured one.
pub open spec fn effective_interval(boost: bool, configured: u64) -> u64 {
    if boost {
        BOOST_INTERVAL_SECS
    } else {
        configured
    }
}

/// `after` is `before` after the auto-refresh timer ticked at `now`, asking
/// for `cmd`. Off on About and while a dialog is open. Otherwise expired toasts
/// go, boost mode ends once every instance is stable, and a refresh begins
/// when the interval in force has passed since the last one, or there was none.
pub open spec fn auto_refresh_checked(before: App, after: App, cmd: Command, now: i64) -> bool {
    if before.current_screen == Screen::About || before.dialog_open() {
        cmd is Idle && after == before
    } else {
        let boost = before.boost_refresh_until_stable && !all_stable(before.ec2_instances@);
        let mid = App { toasts: after.toasts, boost_refresh_until_stable: boost, ..before };
        &&& after.toast_records() == surviving(before.toast_records(), now)
        &&& if refresh_due(
            before.last_refresh,
            now,
            effective_interval(boost, before.auto_refresh_interval),
        ) {
            refresh_begun(mid, after, cmd, now)
        } else {
            cmd is Idle && after == mid
        }
    }
}

/// Whole seconds left until the next refresh; a clock behind the last refresh
/// counts as no time elapsed.
pub open spec fn seconds_left(last: i64, now: i64, interval_secs: u64) -> int {
    let elapsed = if now >= last {
        (now - last) / 1000
    } else {
        0
    };
    if interval_secs >= elapsed {
        interval_secs - elapsed
    } else {
        0
    }
}

/// Whether an already lower-cased error text names one of the expiry keywords.
pub fn is_expiry_lowered(t: &str) -> (r: bool)
    ensures
        r == is_expiry_text(t@),
{
    contains_text(t, "expiredtoken") || contains_text(t, "expired token") || contains_text(
        t,
        "token is expired",
    ) || contains_text(t, "security token") || contains_text(t, "invalidtoken") || contains_text(
        t,
        "invalid token",
    ) || contains_text(t, "credentials have expired") || contains_text(t, "requestexpired")
        || contains_text(t, "request has expired") || contains_text(t, "authfailure")
}

/// An action on one instance.
#[derive(Debug, Clone, Copy, PartialEq, Eq, Structural)]
pub enum InstanceAction {
    Start,
    Stop,
    Terminate,
}

/// The past tense of an action, capitalised ("Started").
pub open spec fn action_past(a: InstanceAction) -> Seq<char> {
    match a {
        InstanceAction::Start => "Started"@,
        InstanceAction::Stop => "Stopped"@,
        InstanceAction::Terminate => "Terminated"@,
    }
}

/// The verb of an action ("start").
pub open spec fn action_verb(a: InstanceAction) -> Seq<char> {
    match a {
        InstanceAction::Start => "start"@,
        InstanceAction::Stop => "stop"@,
        InstanceAction::Terminate => "terminate"@,
    }
}

fn past_str(a: InstanceAction) -> (r: &'static str)
    ensures
        r@ == action_past(a),
{
    match a {
        InstanceAction::Start => "Started",
        InstanceAction::Stop => "Stopped",
        InstanceAction::Terminate => "Terminated",
    }
}

fn verb_str(a: InstanceAction) -> (r: &'static str)
    ensures
        r@ == action_verb(a),
{
    match a {
        InstanceAction::Start => "start",
        InstanceAction::Stop => "stop",
        InstanceAction::Terminate => "terminate",
    }
}

/// Whether a schedule is for instance `id`.
pub open spec fn for_id(id: Seq<char>) -> spec_fn((Seq<char>, i64)) -> bool {
    |e: (Seq<char>, i64)| e.0 == id
}

/// Whether a schedule is for an instance other than `id`.
pub open spec fn not_for_id(id: Seq<char>) -> spec_fn((Seq<char>, i64)) -> bool {
    |e: (Seq<char>, i64)| e.0 != id
}

/// The schedules of instances other than `id`.
pub open spec fn entries_except(s: Seq<(Seq<char>, i64)>, id: Seq<char>) -> Seq<(Seq<char>, i64)> {
    s.filter(not_for_id(id))
}

/// The schedules of instance `id`.
pub open spec fn entries_for(s: Seq<(Seq<char>, i64)>, id: Seq<char>) -> Seq<(Seq<char>, i64)> {
    s.filter(for_id(id))
}

/// `after` is `before` once an auto-stop of `id` at `stop` was recorded: any
/// earlier schedule of `id` is replaced, and status, toast and log report it.
pub open spec fn auto_stop_recorded(before: App, after: App, id: Seq<char>, stop: i64, now: i64) -> bool {
    let name = name_of(before.ec2_instances@, id);
    &&& after.schedule_records() == entries_except(before.schedule_records(), id).push((id, stop))
    &&& after.status_message@ == "Scheduled auto-stop for "@ + id + " at "@ + clock_text(stop as int)
    &&& after.toast_records() == before.toast_records().push(
        ("\u{23f0} Scheduled: "@ + name, ToastType::Success, now),
    )
    &&& after.log_manager.records() == after_log(
        before.log_manager.records(),
        LogLevel::Success,
        "Scheduled auto-stop for "@ + name + " ("@ + id + ") at "@ + clock_text(stop as int),
        now,
    )
    &&& after.log_manager.scroll() == before.log_manager.scroll()
    &&& after == (App {
        auto_stop_schedules: after.auto_stop_schedules,
        status_message: after.status_message,
        toasts: after.toasts,
        log_manager: after.log_manager,
        ..before
    })
}

/// The alert for an instance that has run `running_ms` milliseconds without an
/// auto-stop.
pub open spec fn alert_message(name: Seq<char>, id: Seq<char>, running_ms: int) -> Seq<char> {
    "\u{26a0}\u{fe0f} Instance "@ + name + " ("@ + id + ") running for "@ + decimal(
        (running_ms / 3600000) as nat,
    ) + "h "@ + decimal(((running_ms / 60000) % 60) as nat) + "m without auto-stop!"@
}

/// Whether an instance is running, has no auto-stop, and has run longer than
/// the threshold at `now`.
pub open spec fn overdue(
    inst: Ec2Instance,
    schedules: Seq<(Seq<char>, i64)>,
    now: i64,
    threshold_secs: u64,
) -> bool {
    &&& inst.state@ == "running"@
    &&& !has_schedule(schedules, inst.id@)
    &&& inst.launch_time is Some
    &&& now - inst.launch_time->0 > threshold_secs * 1000
}

/// The alert messages of the overdue instances, in list order.
pub open spec fn alert_candidates(
    insts: Seq<Ec2Instance>,
    schedules: Seq<(Seq<char>, i64)>,
    now: i64,
    threshold_secs: u64,
) -> Seq<Seq<char>>
    decreases insts.len(),
{
    if insts.len() == 0 {
        seq![]
    } else {
        let rest = alert_candidates(insts.drop_last(), schedules, now, threshold_secs);
        let last = insts.last();
        if overdue(last, schedules, now, threshold_secs) {
            rest.push(alert_message(last.name@, last.id@, now - last.launch_time->0))
        } else {
            rest
        }
    }
}

/// `pending` with each message of `cands` appended that is not already in it.
pub open spec fn record_alerts(pending: Seq<Seq<char>>, cands: Seq<Seq<char>>) -> Seq<Seq<char>>
    decreases cands.len(),
{
    if cands.len() == 0 {
        pending
    } else {
        let q = record_alerts(pending, cands.drop_last());
        if q.contains(cands.last()) {
            q
        } else {
            q.push(cands.last())
        }
    }
}

/// The last message of `cands` that `record_alerts` appends, if any.
pub open spec fn last_new_alert(pending: Seq<Seq<char>>, cands: Seq<Seq<char>>) -> Option<Seq<char>>
    decreases cands.len(),
{
    if cands.len() == 0 {
        None
    } else if record_alerts(pending, cands.drop_last()).contains(cands.last()) {
        last_new_alert(pending, cands.drop_last())
    } else {
        Some(cands.last())
    }
}

/// `after` is `before` after an alert check at `now` that asked for a sound
/// when `sound`. Within 30 s of the previous check nothing happens. Otherwise
/// each instance overdue by the alert threshold of the settings in force has
/// its message recorded unless already recorded, the last new one is shown in
/// an Alert dialog, and a sound is asked for when a new one came and the
/// settings have sound on.
pub open spec fn alerts_checked(before: App, after: App, now: i64, sound: bool) -> bool {
    if before.last_alert_check is Some && now - before.last_alert_check->0
        < ALERT_CHECK_INTERVAL_MS {
        after == before && !sound
    } else {
        let cands = alert_candidates(
            before.ec2_instances@,
            before.schedule_records(),
            now,
            before.settings.alert_threshold_secs,
        );
        let fresh = last_new_alert(before.alert_texts(), cands);
        &&& after.alert_texts() == record_alerts(before.alert_texts(), cands)
        &&& match fresh {
            Some(m) => after.dialog is Alert && after.dialog->Alert_0@ == m
                && after.dialog_scroll_offset == 0,
            None => after.dialog == before.dialog && after.dialog_scroll_offset
                == before.dialog_scroll_offset,
        }
        &&& sound == (fresh is Some && before.settings.sound_enabled)
        &&& after == (App {
            pending_alerts: after.pending_alerts,
            dialog: after.dialog,
            dialog_scroll_offset: after.dialog_scroll_offset,
            last_alert_check: Some(now),
            ..before
        })
    }
}

/// The draft after changing its `field` by a step of sign `delta`: cyclic
/// fields move one step (forward when `delta > 0`), switches flip, and the
/// test-sound entry changes nothing.
pub open spec fn modified(d: Settings, field: SettingsField, delta: i32) -> Settings {
    match field {
        SettingsField::RefreshInterval => Settings {
            refresh_interval_secs: cycled_refresh(d.refresh_interval_secs, delta > 0),
            ..d
        },
        SettingsField::ShowLogsPanel => Settings { show_logs_panel: !d.show_logs_panel, ..d },
        SettingsField::LogLevel => Settings { log_level: cycled_level(d.log_level, delta > 0), ..d },
        SettingsField::AlertThreshold => Settings {
            alert_threshold_secs: cycled_threshold(d.alert_threshold_secs, delta > 0),
            ..d
        },
        SettingsField::SoundEnabled => Settings { sound_enabled: !d.sound_enabled, ..d },
        SettingsField::TestSound => d,
    }
}

/// `after` is `before` with a switch to profile `name` begun at `now`, asking
/// for `cmd`.
pub open spec fn activation_begun(before: App, after: App, name: Seq<char>, cmd: Command, now: i64) -> bool {
    &&& cmd is ActivateProfile && cmd->ActivateProfile_0@ == name
    &&& after.status_message@ == "Switching to profile: "@ + name + "..."@
    &&& after.toast_records() == before.toast_records().push(
        ("\u{1f504} Switching to profile '"@ + name + "'..."@, ToastType::Info, now),
    )
    &&& after.log_manager.records() == after_log(
        before.log_manager.records(),
        LogLevel::Info,
        "Set AWS_PROFILE="@ + name + " and re-initializing client"@,
        now,
    )
    &&& after.log_manager.scroll() == before.log_manager.scroll()
    &&& after == (App {
        status_message: after.status_message,
        toasts: after.toasts,
        log_manager: after.log_manager,
        is_loading: true,
        ..before
    })
}

/// The profile the login helper is run for: the highlighted one, if the
/// highlight is on a listed profile.
pub open spec fn highlighted_profile(a: App) -> Option<Seq<char>> {
    if a.selected_profile_index < a.available_profiles.len() {
        Some(a.profile_names()[a.selected_profile_index as int])
    } else {
        None
    }
}

/// `after` is `before` with a login begun at `now`, asking for `cmd`.
pub open spec fn sso_login_begun(before: App, after: App, cmd: Command, now: i64) -> bool {
    &&& cmd is SsoLogin
    &&& match highlighted_profile(before) {
        Some(p) => cmd->SsoLogin_0 is Some && cmd->SsoLogin_0->0@ == p,
        None => cmd->SsoLogin_0 is None,
    }
    &&& after.status_message@ == "Initiating AWS SSO Login..."@
    &&& after.toast_records() == before.toast_records().push(
        ("\u{1f511} Starting AWS SSO login... check browser"@, ToastType::Info, now),
    )
    &&& after.log_manager.records() == after_log(
        before.log_manager.records(),
        LogLevel::Info,
        "Spawned 'aws sso login' thread"@,
        now,
    )
    &&& after.log_manager.scroll() == before.log_manager.scroll()
    &&& after == (App {
        status_message: after.status_message,
        toasts: after.toasts,
        log_manager: after.log_manager,
        ..before
    })
}

/// The alert text for an instance that has run `running_ms` milliseconds.
fn alert_text(name: &str, id: &str, running_ms: i128) -> (r: String)
    requires
        0 <= running_ms < 0x1_0000_0000_0000_0000,
    ensures
        r@ == alert_message(name@, id@, running_ms as int),
{
    let hours = decimal_string((running_ms / 3600000) as u64);
    let minutes = decimal_string(((running_ms / 60000) % 60) as u64);
    String::from_str("\u{26a0}\u{fe0f} Instance ").concat(name).concat(" (").concat(id).concat(
        ") running for ",
    ).concat(hours.as_str()).concat("h ").concat(minutes.as_str()).concat("m without auto-stop!")
}

impl App {
    /// Whether instance `id` has an auto-stop schedule.
    pub fn has_schedule_for(&self, id: &String) -> (r: bool)
        ensures
            r == has_schedule(self.schedule_records(), id@),
    {
        let mut k: usize = 0;
        while k < self.auto_stop_schedules.len()
            invariant
                k <= self.auto_stop_schedules.len(),
                forall|j: int| 0 <= j < k ==> (#[trigger] self.schedule_records()[j]).0 != id@,
            decreases self.auto_stop_schedules.len() - k,
        {
            if self.auto_stop_schedules[k].0 == *id {
                assert(self.schedule_records()[k as int].0 == id@);
                return true;
            }
            k = k + 1;
        }
        false
    }

    /// Whether `msg` is among the recorded alerts.
    fn alert_recorded(&self, msg: &String) -> (r: bool)
        ensures
            r == self.alert_texts().contains(msg@),
    {
        let mut k: usize = 0;
        while k < self.pending_alerts.len()
            invariant
                k <= self.pending_alerts.len(),
                forall|j: int| 0 <= j < k ==> (#[trigger] self.alert_texts()[j]) != msg@,
            decreases self.pending_alerts.len() - k,
        {
            if self.pending_alerts[k] == *msg {
                assert(self.alert_texts()[k as int] == msg@);
                return true;
            }
            k = k + 1;
        }
        false
    }

    /// The alert check at `now` (see `alerts_checked`); returns whether to play
    /// the alert sound.
    pub fn check_alerts_at(&mut self, now: i64) -> (sound: bool)
        ensures
            alerts_checked(*old(self), *final(self), now, sound),
    {
        if let Some(last) = self.last_alert_check {
            if (now as i128) - (last as i128) < ALERT_CHECK_INTERVAL_MS as i128 {
                return false;
            }
        }
        self.last_alert_check = Some(now);
        let threshold = self.settings.alert_threshold_secs;
        let ghost insts = old(self).ec2_instances@;
        let ghost scheds = old(self).schedule_records();
        let ghost pending0 = old(self).alert_texts();
        let running = String::from_str("running");
        let mut sound = false;
        let n = self.ec2_instances.len();
        let mut i: usize = 0;
        while i < n
            invariant
                n == self.ec2_instances.len(),
                i <= n,
                running@ == "running"@,
                insts == self.ec2_instances@,
                scheds == self.schedule_records(),
                pending0 == old(self).alert_texts(),
                threshold == old(self).settings.alert_threshold_secs,
                self.alert_texts() == record_alerts(
                    pending0,
                    alert_candidates(insts.subrange(0, i as int), scheds, now, threshold),
                ),
                match last_new_alert(
                    pending0,
                    alert_candidates(insts.subrange(0, i as int), scheds, now, threshold),
                ) {
                    Some(m) => self.dialog is Alert && self.dialog->Alert_0@ == m
                        && self.dialog_scroll_offset == 0,
                    None => self.dialog == old(self).dialog && self.dialog_scroll_offset
                        == old(self).dialog_scroll_offset,
                },
                sound == (last_new_alert(
                    pending0,
                    alert_candidates(insts.subrange(0, i as int), scheds, now, threshold),
                ) is Some && old(self).settings.sound_enabled),
                *self == (App {
                    pending_alerts: self.pending_alerts,
                    dialog: self.dialog,
                    dialog_scroll_offset: self.dialog_scroll_offset,
                    last_alert_check: Some(now),
                    ..*old(self)
                }),
            decreases n - i,
        {
            let ghost prefix = insts.subrange(0, i + 1);
            assert(prefix.drop_last() =~= insts.subrange(0, i as int));
            assert(prefix.last() == insts[i as int]);
            let ghost before = alert_candidates(insts.subrange(0, i as int), scheds, now, threshold);
            let inst = &self.ec2_instances[i];
            let mut fresh: Option<String> = None;
            if inst.state == running && !self.has_schedule_for(&inst.id) {
                if let Some(launched) = inst.launch_time {
                    let running_ms: i128 = (now as i128) - (launched as i128);
                    if running_ms > (threshold as i128) * 1000 {
                        let msg = alert_text(inst.name.as_str(), inst.id.as_str(), running_ms);
                        let ghost cands = before.push(msg@);
                        assert(cands.drop_last() =~= before);
                        if !self.alert_recorded(&msg) {
                            fresh = Some(msg);
                        }
                    }
                }
            }
            if let Some(msg) = fresh {
                let ghost q = self.alert_texts();
                self.pending_alerts.push(msg.clone());
                assert(self.alert_texts() =~= q.push(msg@));
                self.dialog = Dialog::Alert(msg);
                self.dialog_scroll_offset = 0;
                if self.settings.sound_enabled {
                    sound = true;
                }
            }
            i = i + 1;
        }
        assert(insts.subrange(0, n as int) =~= insts);
        sound
    }

    /// The alert check by the clock; returns whether to play the alert sound.
    pub fn check_alerts(&mut self) -> (sound: bool)
        ensures
            exists|at: i64| at >= 0 && #[trigger] alerts_checked(*old(self), *final(self), at, sound),
    {
        let now = now_millis();
        self.check_alerts_at(now)
    }

    /// Opens the settings dialog on a draft copy of the settings, with the
    /// first field selected.
    pub fn open_settings_dialog(&mut self, now: i64)
        ensures
            final(self).log_manager.records() == after_log(
                old(self).log_manager.records(),
                LogLevel::Info,
                "Opened settings dialog"@,
                now,
            ),
            final(self).log_manager.scroll() == old(self).log_manager.scroll(),
            *final(self) == (App {
                settings_draft: Some(old(self).settings),
                settings_selected_field: SettingsField::RefreshInterval,
                dialog: Dialog::Settings,
                dialog_scroll_offset: 0,
                log_manager: final(self).log_manager,
                ..*old(self)
            }),
    {
        self.settings_draft = Some(self.settings);
        self.settings_selected_field = SettingsField::RefreshInterval;
        self.dialog = Dialog::Settings;
        self.dialog_scroll_offset = 0;
        self.log_manager.log_at(LogLevel::Info, String::from_str("Opened settings dialog"), now);
    }

    /// Commits the draft, if any, as the settings in force (and its refresh
    /// interval), asks to persist it, and closes the dialog.
    pub fn save_settings(&mut self) -> (cmd: Command)
        ensures
            match old(self).settings_draft {
                Some(d) => {
                    &&& cmd == Command::SaveSettings(d)
                    &&& *final(self) == (App {
                        settings: d,
                        auto_refresh_interval: d.refresh_interval_secs,
                        settings_draft: None,
                        dialog: Dialog::Closed,
                        ..*old(self)
                    })
                },
                None => cmd is Idle && *final(self) == (App { dialog: Dialog::Closed, ..*old(self) }),
            },
    {
        let cmd = match self.settings_draft {
            Some(d) => {
                self.settings = d;
                self.auto_refresh_interval = d.refresh_interval();
                self.settings_draft = None;
                Command::SaveSettings(d)
            },
            None => Command::Idle,
        };
        self.dialog = Dialog::Closed;
        cmd
    }

    /// Reports how persisting the settings went.
    pub fn complete_save_settings(&mut self, result: Result<(), String>, now: i64)
        ensures
            match result {
                Ok(_) => {
                    &&& final(self).toast_records() == old(self).toast_records().push(
                        ("Settings saved"@, ToastType::Success, now),
                    )
                    &&& final(self).log_manager.records() == after_log(
                        old(self).log_manager.records(),
                        LogLevel::Success,
                        "Settings saved"@,
                        now,
                    )
                },
                Err(e) => {
                    &&& final(self).toast_records() == old(self).toast_records().push(
                        ("Failed to save settings: "@ + e@, ToastType::Error, now),
                    )
                    &&& final(self).log_manager.records() == after_log(
                        old(self).log_manager.records(),
                        LogLevel::Error,
                        "Failed to save settings: "@ + e@,
                        now,
                    )
                },
            },
            final(self).log_manager.scroll() == old(self).log_manager.scroll(),
            *final(self) == (App {
                toasts: final(self).toasts,
                log_manager: final(self).log_manager,
                ..*old(self)
            }),
    {
        match result {
            Ok(_) => {
                self.add_toast_at(String::from_str("Settings saved"), ToastType::Success, now);
                self.log_manager.log_at(LogLevel::Success, String::from_str("Settings saved"), now);
            },
            Err(e) => {
                let msg = String::from_str("Failed to save settings: ").concat(e.as_str());
                self.add_toast_at(msg.clone(), ToastType::Error, now);
                self.log_manager.log_at(LogLevel::Error, msg, now);
            },
        }
    }

    /// Discards the draft and closes the dialog; the settings in force stay.
    pub fn cancel_settings(&mut self, now: i64)
        ensures
            final(self).log_manager.records() == after_log(
                old(self).log_manager.records(),
                LogLevel::Info,
                "Settings dialog cancelled"@,
                now,
            ),
            final(self).log_manager.scroll() == old(self).log_manager.scroll(),
            *final(self) == (App {
                settings_draft: None,
                dialog: Dialog::Closed,
                log_manager: final(self).log_manager,
                ..*old(self)
            }),
    {
        self.settings_draft = None;
        self.dialog = Dialog::Closed;
        self.log_manager.log_at(LogLevel::Info, String::from_str("Settings dialog cancelled"), now);
    }

    /// Changes the selected field of the draft by a step of sign `delta`.
    pub fn modify_current_setting(&mut self, delta: i32)
        ensures
            match old(self).settings_draft {
                Some(d) => *final(self) == (App {
                    settings_draft: Some(modified(d, old(self).settings_selected_field, delta)),
                    ..*old(self)
                }),
                None => *final(self) == *old(self),
            },
    {
        if let Some(d) = self.settings_draft {
            let mut draft = d;
            let forward = delta > 0;
            match self.settings_selected_field {
                SettingsField::RefreshInterval => draft.cycle_refresh_interval(forward),
                SettingsField::ShowLogsPanel => draft.toggle_logs_panel(),
                SettingsField::LogLevel => draft.cycle_log_level(forward),
                SettingsField::AlertThreshold => draft.cycle_alert_threshold(forward),
                SettingsField::SoundEnabled => draft.toggle_sound(),
                SettingsField::TestSound => {},
            }
            self.settings_draft = Some(draft);
        }
    }

    /// Selects the settings field above (`up`) or below, wrapping.
    pub fn navigate_settings_field(&mut self, up: bool)
        ensures
            crate::settings::field_index(final(self).settings_selected_field) == if up {
                (crate::settings::field_index(old(self).settings_selected_field) + 5) % 6
            } else {
                (crate::settings::field_index(old(self).settings_selected_field) + 1) % 6
            },
            *final(self) == (App {
                settings_selected_field: final(self).settings_selected_field,
                ..*old(self)
            }),
    {
        self.settings_selected_field = if up {
            self.settings_selected_field.prev()
        } else {
            self.settings_selected_field.next()
        };
    }

    /// Asks for the alert sound as a test, and says so.
    pub fn trigger_test_alert(&mut self, now: i64) -> (cmd: Command)
        ensures
            cmd is PlayAlertSound,
            final(self).toast_records() == old(self).toast_records().push(
                ("\u{1f514} Test Alert: System Sound Working"@, ToastType::Info, now),
            ),
            final(self).log_manager.records() == after_log(
                old(self).log_manager.records(),
                LogLevel::Info,
                "Triggered test alert sound"@,
                now,
            ),
            final(self).log_manager.scroll() == old(self).log_manager.scroll(),
            *final(self) == (App {
                toasts: final(self).toasts,
                log_manager: final(self).log_manager,
                ..*old(self)
            }),
    {
        self.add_toast_at(
            String::from_str("\u{1f514} Test Alert: System Sound Working"),
            ToastType::Info,
            now,
        );
        self.log_manager.log_at(LogLevel::Info, String::from_str("Triggered test alert sound"), now);
        Command::PlayAlertSound
    }

    /// Begins a login through the external helper, for the highlighted profile
    /// if any.
    pub fn login_with_sso(&mut self, now: i64) -> (cmd: Command)
        ensures
            sso_login_begun(*old(self), *final(self), cmd, now),
    {
        self.status_message = String::from_str("Initiating AWS SSO Login...");
        self.add_toast_at(
            String::from_str("\u{1f511} Starting AWS SSO login... check browser"),
            ToastType::Info,
            now,
        );
        let profile = if self.selected_profile_index < self.available_profiles.len() {
            Some(self.available_profiles[self.selected_profile_index].clone())
        } else {
            None
        };
        self.log_manager.log_at(
            LogLevel::Info,
            String::from_str("Spawned 'aws sso login' thread"),
            now,
        );
        Command::SsoLogin(profile)
    }

    /// Begins the switch to profile `profile_name`: the caller selects it for
    /// new clients and builds one in the background.
    pub fn activate_profile(&mut self, profile_name: &str, now: i64) -> (cmd: Command)
        ensures
            activation_begun(*old(self), *final(self), profile_name@, cmd, now),
    {
        self.status_message = String::from_str("Switching to profile: ").concat(profile_name).concat(
            "...",
        );
        let toast = String::from_str("\u{1f504} Switching to profile '").concat(profile_name).concat(
            "'...",
        );
        self.add_toast_at(toast, ToastType::Info, now);
        self.is_loading = true;
        let msg = String::from_str("Set AWS_PROFILE=").concat(profile_name).concat(
            " and re-initializing client",
        );
        self.log_manager.log_at(LogLevel::Info, msg, now);
        Command::ActivateProfile(String::from_str(profile_name))
    }

    /// Applies one result of background work. A login success switches to its
    /// profile; a login failure is reported (a missing single sign-on
    /// configuration with its own advice); a new profile's client in use marks
    /// the provider configured, closes any dialog and refreshes; a failed switch
    /// ends loading and is reported.
    pub fn check_async_notifications(&mut self, notification: AsyncNotification, now: i64) -> (cmd: Command)
        ensures
            final(self).log_manager.scroll() == old(self).log_manager.scroll(),
            match notification {
                AsyncNotification::SsoLoginSuccess(msg, profile) => {
                    &&& cmd is ActivateProfile && cmd->ActivateProfile_0@ == profile@
                    &&& final(self).status_message@ == "Switching to profile: "@ + profile@ + "..."@
                    &&& final(self).toast_records() == old(self).toast_records().push(
                        ("\u{2705} Login successful! Activating profile..."@, ToastType::Success, now),
                    ).push(("\u{1f504} Switching to profile '"@ + profile@ + "'..."@, ToastType::Info, now))
                    &&& final(self).log_manager.records() == after_log(
                        after_log(old(self).log_manager.records(), LogLevel::Success, msg@ + ": "@ + profile@, now),
                        LogLevel::Info,
                        "Set AWS_PROFILE="@ + profile@ + " and re-initializing client"@,
                        now,
                    )
                    &&& *final(self) == (App {
                        status_message: final(self).status_message,
                        toasts: final(self).toasts,
                        log_manager: final(self).log_manager,
                        is_loading: true,
                        ..*old(self)
                    })
                },
                AsyncNotification::SsoLoginFailed(err) => {
                    &&& cmd is Idle
                    &&& if has_substring(err@, "Missing the following required SSO configuration"@) {
                        &&& final(self).toast_records() == old(self).toast_records().push(
                            ("\u{274c} SSO Config Missing. Run 'aws configure sso'"@, ToastType::Error, now),
                        )
                        &&& final(self).log_manager.records() == after_log(
                            old(self).log_manager.records(),
                            LogLevel::Error,
                            "SSO Config Error: "@ + err@,
                            now,
                        )
                        &&& final(self).status_message@ == "SSO Configuration Missing!"@
                    } else {
                        &&& final(self).toast_records() == old(self).toast_records().push(
                            ("\u{274c} Login Failed: "@ + err@, ToastType::Error, now),
                        )
                        &&& final(self).log_manager.records() == after_log(
                            old(self).log_manager.records(),
                            LogLevel::Error,
                            "Login failed: "@ + err@,
                            now,
                        )
                        &&& final(self).status_message == old(self).status_message
                    }
                    &&& *final(self) == (App {
                        status_message: final(self).status_message,
                        toasts: final(self).toasts,
                        log_manager: final(self).log_manager,
                        ..*old(self)
                    })
                },
                AsyncNotification::ProfileActivated(profile) => {
                    let mid = App {
                        aws_configured: true,
                        active_profile_name: final(self).active_profile_name,
                        is_loading: false,
                        dialog: Dialog::Closed,
                        toasts: final(self).toasts,
                        ..*old(self)
                    };
                    &&& final(self).active_profile_name is Some
                    &&& final(self).active_profile_name->0@ == profile@
                    &&& final(self).toast_records() == old(self).toast_records().push(
                        ("\u{2705} Active Profile: "@ + profile@, ToastType::Success, now),
                    )
                    &&& refresh_begun(mid, *final(self), cmd, now)
                },
                AsyncNotification::ProfileActivationFailed(err) => {
                    &&& cmd is Idle
                    &&& final(self).toast_records() == old(self).toast_records().push(
                        ("Failed to switch profile"@, ToastType::Error, now),
                    )
                    &&& final(self).log_manager.records() == after_log(
                        old(self).log_manager.records(),
                        LogLevel::Error,
                        "Failed to switch profile: "@ + err@,
                        now,
                    )
                    &&& *final(self) == (App {
                        is_loading: false,
                        toasts: final(self).toasts,
                        log_manager: final(self).log_manager,
                        ..*old(self)
                    })
                },
            },
    {
        match notification {
            AsyncNotification::SsoLoginSuccess(msg, profile) => {
                self.add_toast_at(
                    String::from_str("\u{2705} Login successful! Activating profile..."),
                    ToastType::Success,
                    now,
                );
                let line = msg.concat(": ").concat(profile.as_str());
                self.log_manager.log_at(LogLevel::Success, line, now);
                self.activate_profile(profile.as_str(), now)
            },
            AsyncNotification::SsoLoginFailed(err) => {
                if contains_text(err.as_str(), "Missing the following required SSO configuration") {
                    self.add_toast_at(
                        String::from_str("\u{274c} SSO Config Missing. Run 'aws configure sso'"),
                        ToastType::Error,
                        now,
                    );
                    let line = String::from_str("SSO Config Error: ").concat(err.as_str());
                    self.log_manager.log_at(LogLevel::Error, line, now);
                    self.status_message = String::from_str("SSO Configuration Missing!");
                } else {
                    let toast = String::from_str("\u{274c} Login Failed: ").concat(err.as_str());
                    self.add_toast_at(toast, ToastType::Error, now);
                    let line = String::from_str("Login failed: ").concat(err.as_str());
                    self.log_manager.log_at(LogLevel::Error, line, now);
                }
                Command::Idle
            },
            AsyncNotification::ProfileActivated(profile) => {
                self.aws_configured = true;
                let toast = String::from_str("\u{2705} Active Profile: ").concat(profile.as_str());
                self.active_profile_name = Some(profile);
                self.is_loading = false;
                self.dialog = Dialog::Closed;
                self.add_toast_at(toast, ToastType::Success, now);
                self.refresh_data(now)
            },
            AsyncNotification::ProfileActivationFailed(err) => {
                self.is_loading = false;
                let line = String::from_str("Failed to switch profile: ").concat(err.as_str());
                self.log_manager.log_at(LogLevel::Error, line, now);
                self.add_toast_at(
                    String::from_str("Failed to switch profile"),
                    ToastType::Error,
                    now,
                );
                Command::Idle
            },
        }
    }

    /// Adds a toast created at `now`.
    pub fn add_toast_at(&mut self, message: String, toast_type: ToastType, now: i64)
        ensures
            final(self).toast_records() == old(self).toast_records().push(
                (message@, toast_type, now),
            ),
            *final(self) == (App { toasts: final(self).toasts, ..*old(self) }),
    {
        self.toasts.push(Toast { message, toast_type, created_at: now });
        assert(self.toast_records() =~= old(self).toast_records().push(
            (message@, toast_type, now),
        ));
    }

    /// Adds a toast created now.
    pub fn add_toast(&mut self, message: String, toast_type: ToastType)
        ensures
            exists|at: i64|
                at >= 0 && final(self).toast_records() == old(self).toast_records().push(
                    (message@, toast_type, at),
                ),
            *final(self) == (App { toasts: final(self).toasts, ..*old(self) }),
    {
        let now = now_millis();
        self.add_toast_at(message, toast_type, now);
    }

    /// Drops the toasts that are five seconds old or older at `now`.
    pub fn cleanup_old_toasts_at(&mut self, now: i64)
        ensures
            final(self).toast_records() == surviving(old(self).toast_records(), now),
            *final(self) == (App { toasts: final(self).toasts, ..*old(self) }),
    {
        let ghost keep = |t: ToastRecord| toast_alive(now, t.2);
        let ghost all = old(self).toast_records();
        let mut old_toasts: Vec<Toast> = Vec::new();
        std::mem::swap(&mut old_toasts, &mut self.toasts);
        assert(old_toasts@.map_values(|t: Toast| (t.message@, t.toast_type, t.created_at))
            =~= all);
        let n = old_toasts.len();
        let mut i: usize = 0;
        while i < n
            invariant
                n == old_toasts.len(),
                i <= n,
                keep == (|t: ToastRecord| toast_alive(now, t.2)),
                all == old_toasts@.map_values(|t: Toast| (t.message@, t.toast_type, t.created_at)),
                self.toast_records() == all.subrange(0, i as int).filter(keep),
                *self == (App { toasts: self.toasts, ..*old(self) }),
            decreases n - i,
        {
            let t = &old_toasts[i];
            assert(all[i as int] == (t.message@, t.toast_type, t.created_at));
            let ghost pre = all.subrange(0, i as int);
            assert(all.subrange(0, i + 1) =~= pre.push(all[i as int]));
            assert(all.subrange(0, i + 1).drop_last() =~= pre);
            proof {
                reveal(Seq::filter);
                let next = all.subrange(0, i + 1);
                assert(next.last() == all[i as int]);
                assert(next.filter(keep) == if keep(all[i as int]) {
                    pre.filter(keep).push(all[i as int])
                } else {
                    pre.filter(keep)
                });
            }
            if (now as i128) - (t.created_at as i128) < (TOAST_TTL_MS as i128) {
                let kept = Toast {
                    message: t.message.clone(),
                    toast_type: t.toast_type,
                    created_at: t.created_at,
                };
                self.toasts.push(kept);
                assert(self.toast_records() =~= pre.filter(keep).push(all[i as int]));
            }
            i = i + 1;
        }
        assert(all.subrange(0, n as int) =~= all);
    }

    /// Drops the toasts that are five seconds old or older now.
    pub fn cleanup_old_toasts(&mut self)
        ensures
            exists|at: i64|
                at >= 0 && final(self).toast_records() == #[trigger] surviving(
                    old(self).toast_records(),
                    at,
                ),
            *final(self) == (App { toasts: final(self).toasts, ..*old(self) }),
    {
        let now = now_millis();
        self.cleanup_old_toasts_at(now);
    }

    /// Whether a provider error text says the credentials expired, compared
    /// without regard to case.
    pub fn is_session_expired_error(error_msg: &str) -> (r: bool)
        ensures
            r == is_expiry_text(lower_of(error_msg@)),
    {
        let lower = lowercase(error_msg);
        is_expiry_lowered(lower.as_str())
    }

    /// Whether every instance is in a stable state (running, stopped, terminated).
    pub fn all_instances_stable(&self) -> (r: bool)
        ensures
            r == all_stable(self.ec2_instances@),
    {
        let running = String::from_str("running");
        let stopped = String::from_str("stopped");
        let terminated = String::from_str("terminated");
        let mut i: usize = 0;
        while i < self.ec2_instances.len()
            invariant
                i <= self.ec2_instances.len(),
                running@ == "running"@,
                stopped@ == "stopped"@,
                terminated@ == "terminated"@,
                forall|k: int| 0 <= k < i ==> is_stable_state(#[trigger] self.ec2_instances@[k].state@),
            decreases self.ec2_instances.len() - i,
        {
            let st = &self.ec2_instances[i].state;
            if !(*st == running || *st == stopped || *st == terminated) {
                return false;
            }
            i = i + 1;
        }
        true
    }

    /// Refreshes fast until every instance is in a stable state.
    pub fn activate_boost_refresh(&mut self)
        ensures
            *final(self) == (App { boost_refresh_until_stable: true, ..*old(self) }),
    {
        self.boost_refresh_until_stable = true;
    }

    /// The timer tick of auto-refresh at `now`. Off on About and while a dialog
    /// is open. Otherwise drops expired toasts, ends boost mode once every
    /// instance is stable, and begins a refresh when the interval in force (5 s
    /// boosted, else the configured one) has passed since the last refresh, or
    /// there was none.
    pub fn check_auto_refresh_at(&mut self, now: i64) -> (cmd: Command)
        ensures
            auto_refresh_checked(*old(self), *final(self), cmd, now),
    {
        if matches!(self.current_screen, Screen::About) || !matches!(self.dialog, Dialog::Closed) {
            return Command::Idle;
        }
        self.cleanup_old_toasts_at(now);
        if self.boost_refresh_until_stable && self.all_instances_stable() {
            self.boost_refresh_until_stable = false;
        }
        let interval: u64 = if self.boost_refresh_until_stable {
            BOOST_INTERVAL_SECS
        } else {
            self.auto_refresh_interval
        };
        let due = match self.last_refresh {
            Some(last) => (now as i128) - (last as i128) >= (interval as i128) * 1000,
            None => true,
        };
        if due {
            self.refresh_data(now)
        } else {
            Command::Idle
        }
    }

    /// The timer tick of auto-refresh by the clock (see `check_auto_refresh_at`).
    pub fn check_auto_refresh(&mut self) -> (cmd: Command)
        ensures
            exists|at: i64| at >= 0 && #[trigger] auto_refresh_checked(*old(self), *final(self), cmd, at),
    {
        let now = now_millis();
        self.check_auto_refresh_at(now)
    }

    /// Whole seconds until the next auto-refresh at `now`; `None` where
    /// auto-refresh is off (About, or a dialog open) or nothing was loaded yet.
    pub fn seconds_until_refresh_at(&self, now: i64) -> (r: Option<u64>)
        ensures
            r == self.seconds_until_refresh_spec(now),
    {
        if matches!(self.current_screen, Screen::About) || !matches!(self.dialog, Dialog::Closed) {
            return None;
        }
        let interval: u64 = if self.boost_refresh_until_stable {
            BOOST_INTERVAL_SECS
        } else {
            self.auto_refresh_interval
        };
        match self.last_refresh {
            None => None,
            Some(last) => {
                let diff: i128 = (now as i128) - (last as i128);
                let elapsed: i128 = if diff >= 0 {
                    diff / 1000
                } else {
                    0
                };
                if (interval as i128) >= elapsed {
                    Some((interval as i128 - elapsed) as u64)
                } else {
                    Some(0)
                }
            },
        }
    }

    /// Whole seconds until the next auto-refresh, by the clock.
    pub fn seconds_until_refresh(&self) -> (r: Option<u64>)
        ensures
            exists|at: i64|
                at >= 0 && r == #[trigger] self.seconds_until_refresh_spec(at),
    {
        let now = now_millis();
        self.seconds_until_refresh_at(now)
    }

    /// What `seconds_until_refresh_at` returns at `now`.
    pub open spec fn seconds_until_refresh_spec(&self, now: i64) -> Option<u64> {
        if self.current_screen == Screen::About || self.dialog_open() {
            None
        } else {
            match self.last_refresh {
                None => None,
                Some(t) => Some(
                    seconds_left(
                        t,
                        now,
                        effective_interval(self.boost_refresh_until_stable, self.auto_refresh_interval),
                    ) as u64,
                ),
            }
        }
    }

    /// Display name of the instance `id`: its name if listed, else the id.
    pub fn instance_name(&self, id: &str) -> (r: String)
        ensures
            r@ == name_of(self.ec2_instances@, id@),
    {
        let target = String::from_str(id);
        let ghost insts = self.ec2_instances@;
        let mut i: usize = 0;
        assert(insts.subrange(0, insts.len() as int) =~= insts);
        while i < self.ec2_instances.len()
            invariant
                insts == self.ec2_instances@,
                i <= insts.len(),
                target@ == id@,
                name_of(insts, id@) == name_of(insts.subrange(i as int, insts.len() as int), id@),
            decreases insts.len() - i,
        {
            let ghost rest = insts.subrange(i as int, insts.len() as int);
            assert(rest.drop_first() =~= insts.subrange(i + 1, insts.len() as int));
            if self.ec2_instances[i].id == target {
                return self.ec2_instances[i].name.clone();
            }
            i = i + 1;
        }
        String::from_str(id)
    }

    /// Asks to start the selected instance, if there is one.
    pub fn start_selected_instance(&mut self) -> (cmd: Command)
        ensures
            old(self).ec2_selected < old(self).ec2_instances.len() ==> {
                let id = old(self).ec2_instances@[old(self).ec2_selected as int].id;
                &&& cmd == Command::StartInstance(id)
                &&& final(self).status_message@ == "Starting "@ + id@ + "..."@
                &&& *final(self) == (App { status_message: final(self).status_message, ..*old(self) })
            },
            old(self).ec2_selected >= old(self).ec2_instances.len() ==> cmd is Idle && *final(self)
                == *old(self),
    {
        if self.ec2_selected < self.ec2_instances.len() {
            let id = self.ec2_instances[self.ec2_selected].id.clone();
            self.status_message = String::from_str("Starting ").concat(id.as_str()).concat("...");
            Command::StartInstance(id)
        } else {
            Command::Idle
        }
    }

    /// Asks to stop the selected instance, if there is one.
    pub fn stop_selected_instance(&mut self) -> (cmd: Command)
        ensures
            old(self).ec2_selected < old(self).ec2_instances.len() ==> {
                let id = old(self).ec2_instances@[old(self).ec2_selected as int].id;
                &&& cmd == Command::StopInstance(id)
                &&& final(self).status_message@ == "Stopping "@ + id@ + "..."@
                &&& *final(self) == (App { status_message: final(self).status_message, ..*old(self) })
            },
            old(self).ec2_selected >= old(self).ec2_instances.len() ==> cmd is Idle && *final(self)
                == *old(self),
    {
        if self.ec2_selected < self.ec2_instances.len() {
            let id = self.ec2_instances[self.ec2_selected].id.clone();
            self.status_message = String::from_str("Stopping ").concat(id.as_str()).concat("...");
            Command::StopInstance(id)
        } else {
            Command::Idle
        }
    }

    /// Opens the termination confirmation for the selected instance, if any.
    pub fn confirm_terminate_instance(&mut self)
        ensures
            old(self).ec2_selected < old(self).ec2_instances.len() ==> *final(self) == (App {
                dialog: Dialog::ConfirmTerminate(
                    old(self).ec2_instances@[old(self).ec2_selected as int].id,
                ),
                dialog_scroll_offset: 0,
                ..*old(self)
            }),
            old(self).ec2_selected >= old(self).ec2_instances.len() ==> *final(self) == *old(self),
    {
        if self.ec2_selected < self.ec2_instances.len() {
            self.dialog = Dialog::ConfirmTerminate(self.ec2_instances[self.ec2_selected].id.clone());
            self.dialog_scroll_offset = 0;
        }
    }

    /// Asks to terminate the instance `instance_id`, the one confirmed in the
    /// dialog.
    pub fn terminate_instance(&mut self, instance_id: &str) -> (cmd: Command)
        ensures
            cmd is TerminateInstance && cmd->TerminateInstance_0@ == instance_id@,
            final(self).status_message@ == "Terminating "@ + instance_id@ + "..."@,
            *final(self) == (App { status_message: final(self).status_message, ..*old(self) }),
    {
        self.status_message = String::from_str("Terminating ").concat(instance_id).concat("...");
        Command::TerminateInstance(String::from_str(instance_id))
    }

    /// Completes an action on instance `instance_id` with the provider's
    /// answer. Success is reported, turns on boost mode and begins a refresh;
    /// failure is reported and nothing else happens.
    pub fn complete_instance_action(
        &mut self,
        action: InstanceAction,
        instance_id: &str,
        result: Result<(), String>,
        now: i64,
    ) -> (cmd: Command)
        ensures
            ({
                let name = name_of(old(self).ec2_instances@, instance_id@);
                match result {
                    Ok(_) => {
                        let mid = App {
                            status_message: final(self).status_message,
                            toasts: final(self).toasts,
                            log_manager: final(self).log_manager,
                            boost_refresh_until_stable: true,
                            ..*old(self)
                        };
                        &&& final(self).toast_records() == old(self).toast_records().push(
                            ("\u{2713} "@ + action_past(action) + ": "@ + name, ToastType::Success, now),
                        )
                        &&& final(self).log_manager.records() == after_log(
                            old(self).log_manager.records(),
                            LogLevel::Success,
                            action_past(action) + " EC2 instance: "@ + name + " ("@ + instance_id@ + ")"@,
                            now,
                        )
                        &&& refresh_begun(mid, *final(self), cmd, now)
                    },
                    Err(e) => {
                        &&& cmd is Idle
                        &&& final(self).status_message@ == "Failed to "@ + action_verb(action) + ": "@ + e@
                        &&& final(self).toast_records() == old(self).toast_records().push(
                            ("\u{2717} Failed to "@ + action_verb(action) + ": "@ + name, ToastType::Error, now),
                        )
                        &&& final(self).log_manager.records() == after_log(
                            old(self).log_manager.records(),
                            LogLevel::Error,
                            "Failed to "@ + action_verb(action) + " "@ + name + ": "@ + e@,
                            now,
                        )
                        &&& *final(self) == (App {
                            status_message: final(self).status_message,
                            toasts: final(self).toasts,
                            log_manager: final(self).log_manager,
                            ..*old(self)
                        })
                    },
                }
            }),
            final(self).log_manager.scroll() == old(self).log_manager.scroll(),
    {
        let name = self.instance_name(instance_id);
        match result {
            Ok(_) => {
                let past = past_str(action);
                self.status_message = String::from_str(past).concat(" ").concat(instance_id);
                let toast = String::from_str("\u{2713} ").concat(past).concat(": ").concat(
                    name.as_str(),
                );
                self.add_toast_at(toast, ToastType::Success, now);
                let msg = String::from_str(past).concat(" EC2 instance: ").concat(name.as_str()).concat(
                    " (",
                ).concat(instance_id).concat(")");
                self.log_manager.log_at(LogLevel::Success, msg, now);
                self.activate_boost_refresh();
                self.refresh_data(now)
            },
            Err(e) => {
                let verb = verb_str(action);
                self.status_message = String::from_str("Failed to ").concat(verb).concat(": ").concat(
                    e.as_str(),
                );
                let toast = String::from_str("\u{2717} Failed to ").concat(verb).concat(": ").concat(
                    name.as_str(),
                );
                self.add_toast_at(toast, ToastType::Error, now);
                let msg = String::from_str("Failed to ").concat(verb).concat(" ").concat(
                    name.as_str(),
                ).concat(": ").concat(e.as_str());
                self.log_manager.log_at(LogLevel::Error, msg, now);
                Command::Idle
            },
        }
    }

    /// Opens the auto-stop dialog for the selected instance, if any.
    pub fn open_schedule_dialog(&mut self)
        ensures
            old(self).ec2_selected < old(self).ec2_instances.len() ==> *final(self) == (App {
                dialog: Dialog::ScheduleAutoStop(
                    old(self).ec2_instances@[old(self).ec2_selected as int].id,
                ),
                dialog_scroll_offset: 0,
                ..*old(self)
            }),
            old(self).ec2_selected >= old(self).ec2_instances.len() ==> *final(self) == *old(self),
    {
        if self.ec2_selected < self.ec2_instances.len() {
            self.dialog = Dialog::ScheduleAutoStop(self.ec2_instances[self.ec2_selected].id.clone());
            self.dialog_scroll_offset = 0;
        }
    }

    /// Records an auto-stop of `instance_id` `duration_secs` after `now`,
    /// replacing any earlier one, and returns the stop time; `None`, with
    /// nothing changed, when that time is past the range of `i64` milliseconds.
    pub fn schedule_auto_stop(&mut self, instance_id: &str, duration_secs: u64, now: i64) -> (r:
        Option<i64>)
        ensures
            match r {
                Some(stop) => {
                    &&& stop == now + duration_secs * 1000
                    &&& auto_stop_recorded(*old(self), *final(self), instance_id@, stop, now)
                },
                None => {
                    &&& now + duration_secs * 1000 > i64::MAX
                    &&& *final(self) == *old(self)
                },
            },
    {
        let stop_wide: i128 = (now as i128) + (duration_secs as i128) * 1000;
        if stop_wide > i64::MAX as i128 {
            return None;
        }
        let stop = stop_wide as i64;
        let name = self.instance_name(instance_id);
        let ghost keep = not_for_id(instance_id@);
        let ghost all = old(self).schedule_records();
        let target = String::from_str(instance_id);
        let mut previous: Vec<(String, i64)> = Vec::new();
        std::mem::swap(&mut previous, &mut self.auto_stop_schedules);
        assert(previous@.map_values(|e: (String, i64)| (e.0@, e.1)) =~= all);
        let n = previous.len();
        let mut i: usize = 0;
        while i < n
            invariant
                n == previous.len(),
                i <= n,
                target@ == instance_id@,
                keep == not_for_id(instance_id@),
                all == previous@.map_values(|e: (String, i64)| (e.0@, e.1)),
                self.schedule_records() == all.subrange(0, i as int).filter(keep),
                *self == (App { auto_stop_schedules: self.auto_stop_schedules, ..*old(self) }),
            decreases n - i,
        {
            let e = &previous[i];
            assert(all[i as int] == (e.0@, e.1));
            let ghost pre = all.subrange(0, i as int);
            assert(all.subrange(0, i + 1) =~= pre.push(all[i as int]));
            proof {
                reveal(Seq::filter);
                let next = all.subrange(0, i + 1);
                assert(next.drop_last() =~= pre);
                assert(next.last() == all[i as int]);
            }
            if !(e.0 == target) {
                self.auto_stop_schedules.push((e.0.clone(), e.1));
                assert(self.schedule_records() =~= pre.filter(keep).push(all[i as int]));
            }
            i = i + 1;
        }
        assert(all.subrange(0, n as int) =~= all);
        let ghost kept = self.schedule_records();
        self.auto_stop_schedules.push((target, stop));
        assert(self.schedule_records() =~= kept.push((instance_id@, stop)));
        let at = clock_time_string(stop);
        self.status_message = String::from_str("Scheduled auto-stop for ").concat(instance_id).concat(
            " at ",
        ).concat(at.as_str());
        let toast = String::from_str("\u{23f0} Scheduled: ").concat(name.as_str());
        self.add_toast_at(toast, ToastType::Success, now);
        let msg = String::from_str("Scheduled auto-stop for ").concat(name.as_str()).concat(" (").concat(
            instance_id,
        ).concat(") at ").concat(at.as_str());
        self.log_manager.log_at(LogLevel::Success, msg, now);
        Some(stop)
    }

    /// Begins the refresh of the current screen's data: the instance list on Home
    /// and Instances, the function list on Functions; the other screens have
    /// nothing to load and are done at once.
    pub fn refresh_data(&mut self, now: i64) -> (cmd: Command)
        ensures
            refresh_begun(*old(self), *final(self), cmd, now),
    {
        self.is_loading = true;
        self.status_message = String::from_str("Loading...");
        match self.current_screen {
            Screen::Ec2 | Screen::Home => Command::ListInstances,
            Screen::Lambda => Command::ListFunctions,
            Screen::About | Screen::Logs => {
                self.status_message = String::from_str("Nothing to refresh on this screen");
                self.is_loading = false;
                self.last_refresh = Some(now);
                Command::Idle
            },
        }
    }

    /// Records a failed list call: status and log; an expired session opens
    /// its dialog.
    fn record_refresh_error(&mut self, log_prefix: &str, error: String, now: i64)
        ensures
            final(self).status_message@ == "Error: "@ + error@,
            if is_expiry_text(lower_of(error@)) {
                &&& final(self).dialog == crate::app::Dialog::SessionExpired
                &&& final(self).dialog_scroll_offset == 0
                &&& final(self).log_manager.records() == after_log(
                    after_log(old(self).log_manager.records(), LogLevel::Error, log_prefix@ + error@, now),
                    LogLevel::Warning,
                    "AWS session token expired - credentials need refresh"@,
                    now,
                )
            } else {
                &&& final(self).dialog == old(self).dialog
                &&& final(self).dialog_scroll_offset == old(self).dialog_scroll_offset
                &&& final(self).log_manager.records() == after_log(
                    old(self).log_manager.records(),
                    LogLevel::Error,
                    log_prefix@ + error@,
                    now,
                )
            },
            final(self).log_manager.scroll() == old(self).log_manager.scroll(),
            *final(self) == (App {
                status_message: final(self).status_message,
                dialog: final(self).dialog,
                dialog_scroll_offset: final(self).dialog_scroll_offset,
                log_manager: final(self).log_manager,
                ..*old(self)
            }),
    {
        self.status_message = String::from_str("Error: ").concat(error.as_str());
        let expired = Self::is_session_expired_error(error.as_str());
        let msg = String::from_str(log_prefix).concat(error.as_str());
        self.log_manager.log_at(LogLevel::Error, msg, now);
        if expired {
            self.dialog = crate::app::Dialog::SessionExpired;
            self.dialog_scroll_offset = 0;
            self.log_manager.log_at(
                LogLevel::Warning,
                String::from_str("AWS session token expired - credentials need refresh"),
                now,
            );
        }
    }

    /// Completes an instance-list refresh with the provider's answer: on success
    /// the list is replaced; on failure the error is reported, and an expired
    /// session opens its dialog. Either way loading ends and the refresh time is
    /// `now`.
    pub fn complete_instances_refresh(
        &mut self,
        result: Result<Vec<Ec2Instance>, String>,
        now: i64,
    )
        ensures
            !final(self).is_loading,
            final(self).last_refresh == Some(now),
            final(self).log_manager.scroll() == old(self).log_manager.scroll(),
            match result {
                Ok(v) => {
                    &&& final(self).ec2_instances@ == v@
                    &&& final(self).status_message@ == "Loaded "@ + decimal(v@.len()) + " EC2 instances"@
                    &&& final(self).log_manager.records() == after_log(
                        old(self).log_manager.records(),
                        LogLevel::Success,
                        "Refreshed EC2: "@ + decimal(v@.len()) + " instances loaded"@,
                        now,
                    )
                    &&& final(self).dialog == old(self).dialog
                    &&& final(self).dialog_scroll_offset == old(self).dialog_scroll_offset
                },
                Err(e) => {
                    &&& final(self).ec2_instances == old(self).ec2_instances
                    &&& final(self).status_message@ == "Error: "@ + e@
                    &&& if is_expiry_text(lower_of(e@)) {
                        &&& final(self).dialog == crate::app::Dialog::SessionExpired
                        &&& final(self).dialog_scroll_offset == 0
                        &&& final(self).log_manager.records() == after_log(
                            after_log(
                                old(self).log_manager.records(),
                                LogLevel::Error,
                                "Failed to load EC2 instances: "@ + e@,
                                now,
                            ),
                            LogLevel::Warning,
                            "AWS session token expired - credentials need refresh"@,
                            now,
                        )
                    } else {
                        &&& final(self).dialog == old(self).dialog
                        &&& final(self).dialog_scroll_offset == old(self).dialog_scroll_offset
                        &&& final(self).log_manager.records() == after_log(
                            old(self).log_manager.records(),
                            LogLevel::Error,
                            "Failed to load EC2 instances: "@ + e@,
                            now,
                        )
                    }
                },
            },
            *final(self) == (App {
                ec2_instances: final(self).ec2_instances,
                status_message: final(self).status_message,
                dialog: final(self).dialog,
                dialog_scroll_offset: final(self).dialog_scroll_offset,
                log_manager: final(self).log_manager,
                is_loading: false,
                last_refresh: Some(now),
                ..*old(self)
            }),
    {
        match result {
            Ok(instances) => {
                let count = instances.len() as u64;
                self.ec2_instances = instances;
                let n = decimal_string(count);
                self.status_message = String::from_str("Loaded ").concat(n.as_str()).concat(
                    " EC2 instances",
                );
                let msg = String::from_str("Refreshed EC2: ").concat(n.as_str()).concat(
                    " instances loaded",
                );
                self.log_manager.log_at(LogLevel::Success, msg, now);
            },
            Err(e) => {
                self.record_refresh_error("Failed to load EC2 instances: ", e, now);
            },
        }
        self.is_loading = false;
        self.last_refresh = Some(now);
    }

    /// Completes a function-list refresh, as `complete_instances_refresh` does
    /// for instances.
    pub fn complete_functions_refresh(
        &mut self,
        result: Result<Vec<LambdaFunction>, String>,
        now: i64,
    )
        ensures
            !final(self).is_loading,
            final(self).last_refresh == Some(now),
            final(self).log_manager.scroll() == old(self).log_manager.scroll(),
            match result {
                Ok(v) => {
                    &&& final(self).lambda_functions@ == v@
                    &&& final(self).status_message@ == "Loaded "@ + decimal(v@.len()) + " Lambda functions"@
                    &&& final(self).log_manager.records() == after_log(
                        old(self).log_manager.records(),
                        LogLevel::Success,
                        "Refreshed Lambda: "@ + decimal(v@.len()) + " functions loaded"@,
                        now,
                    )
                    &&& final(self).dialog == old(self).dialog
                    &&& final(self).dialog_scroll_offset == old(self).dialog_scroll_offset
                },
                Err(e) => {
                    &&& final(self).lambda_functions == old(self).lambda_functions
                    &&& final(self).status_message@ == "Error: "@ + e@
                    &&& if is_expiry_text(lower_of(e@)) {
                        &&& final(self).dialog == crate::app::Dialog::SessionExpired
                        &&& final(self).dialog_scroll_offset == 0
                        &&& final(self).log_manager.records() == after_log(
                            after_log(
                                old(self).log_manager.records(),
                                LogLevel::Error,
                                "Failed to load Lambda functions: "@ + e@,
                                now,
                            ),
                            LogLevel::Warning,
                            "AWS session token expired - credentials need refresh"@,
                            now,
                        )
                    } else {
                        &&& final(self).dialog == old(self).dialog
                        &&& final(self).dialog_scroll_offset == old(self).dialog_scroll_offset
                        &&& final(self).log_manager.records() == after_log(
                            old(self).log_manager.records(),
                            LogLevel::Error,
                            "Failed to load Lambda functions: "@ + e@,
                            now,
                        )
                    }
                },
            },
            *final(self) == (App {
                lambda_functions: final(self).lambda_functions,
                status_message: final(self).status_message,
                dialog: final(self).dialog,
                dialog_scroll_offset: final(self).dialog_scroll_offset,
                log_manager: final(self).log_manager,
                is_loading: false,
                last_refresh: Some(now),
                ..*old(self)
            }),
    {
        match result {
            Ok(functions) => {
                let count = functions.len() as u64;
                self.lambda_functions = functions;
                let n = decimal_string(count);
                self.status_message = String::from_str("Loaded ").concat(n.as_str()).concat(
                    " Lambda functions",
                );
                let msg = String::from_str("Refreshed Lambda: ").concat(n.as_str()).concat(
                    " functions loaded",
                );
                self.log_manager.log_at(LogLevel::Success, msg, now);
            },
            Err(e) => {
                self.record_refresh_error("Failed to load Lambda functions: ", e, now);
            },
        }
        self.is_loading = false;
        self.last_refresh = Some(now);
    }
}

} // verus!
