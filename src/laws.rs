//! Properties that hold across calls of the state machine.

use vstd::prelude::*;

use crate::actions::{surviving, toast_alive, entries_except, entries_for, for_id, not_for_id, alert_candidates, alerts_checked, auto_stop_recorded, modified, overdue};
use crate::app::{App, Command, Screen, ToastRecord, ToastType};
use crate::event::AppEvent;
use crate::handlers::{dialog_event_handled, event_handled, selection_moved};
use crate::settings::SettingsField;

verus! {

/// On the Instances screen with a non-empty list, Up and Down keep the
/// selection within the list, Up at the first entry stays there, and Down at
/// the last entry stays there: the selection is clamped, never wrapped.
pub proof fn lemma_instance_selection_clamps(before: App, after: App, delta: i32)
    requires
        before.current_screen == Screen::Ec2,
        before.ec2_instances.len() > 0,
        selection_moved(before, after, delta),
    ensures
        after.ec2_selected < before.ec2_instances.len(),
        before.ec2_selected == 0 && delta < 0 ==> after.ec2_selected == 0,
        before.ec2_selected == before.ec2_instances.len() - 1 && delta > 0 ==> after.ec2_selected
            == before.ec2_instances.len() - 1,
{
}

/// On the Functions screen with a non-empty list, Up and Down keep the
/// selection within the list, clamped at both ends.
pub proof fn lemma_function_selection_clamps(before: App, after: App, delta: i32)
    requires
        before.current_screen == Screen::Lambda,
        before.lambda_functions.len() > 0,
        selection_moved(before, after, delta),
    ensures
        after.lambda_selected < before.lambda_functions.len(),
        before.lambda_selected == 0 && delta < 0 ==> after.lambda_selected == 0,
        before.lambda_selected == before.lambda_functions.len() - 1 && delta > 0
            ==> after.lambda_selected == before.lambda_functions.len() - 1,
{
}

/// After an auto-stop of `id` is recorded, `id` has exactly one schedule, the
/// one just recorded, whatever was scheduled before.
pub proof fn lemma_schedule_replaces(b: App, c: App, id: Seq<char>, stop: i64, now: i64)
    requires
        auto_stop_recorded(b, c, id, stop, now),
    ensures
        entries_for(c.schedule_records(), id) == seq![(id, stop)],
{
    let others = entries_except(b.schedule_records(), id);
    let same = for_id(id);
    let differ = not_for_id(id);
    assert forall|i: int| 0 <= i < others.len() implies !same(others[i]) by {
        b.schedule_records().lemma_filter_pred(differ, i);
    }
    others.lemma_all_neg_filter_empty(same);
    Seq::filter_distributes_over_add(others, seq![(id, stop)], same);
    assert(others.push((id, stop)) =~= others + seq![(id, stop)]);
    reveal_with_fuel(Seq::filter, 2);
    assert(seq![(id, stop)].drop_last() =~= Seq::<(Seq<char>, i64)>::empty());
    assert(seq![(id, stop)].filter(same) =~= seq![(id, stop)]);
    assert(others.filter(same) =~= Seq::<(Seq<char>, i64)>::empty());
    assert(c.schedule_records().filter(same) =~= seq![(id, stop)]);
}

/// Recording an auto-stop of another instance leaves the schedules of `id`
/// as they were; with the law above, the last call for `id` decides its one
/// schedule, whatever was scheduled for other instances in between.
pub proof fn lemma_schedule_other_keeps(
    b: App,
    c: App,
    other: Seq<char>,
    id: Seq<char>,
    stop: i64,
    now: i64,
)
    requires
        auto_stop_recorded(b, c, other, stop, now),
        other != id,
    ensures
        entries_for(c.schedule_records(), id) == entries_for(b.schedule_records(), id),
{
    let s = b.schedule_records();
    let same = for_id(id);
    let differ = not_for_id(other);
    Seq::filter_distributes_over_add(s.filter(differ), seq![(other, stop)], same);
    assert(s.filter(differ).push((other, stop)) =~= s.filter(differ) + seq![(other, stop)]);
    reveal_with_fuel(Seq::filter, 2);
    assert(seq![(other, stop)].drop_last() =~= Seq::<(Seq<char>, i64)>::empty());
    assert(seq![(other, stop)].filter(same) =~= Seq::<(Seq<char>, i64)>::empty());
    lemma_filter_keeps_other(s, id, other);
}

/// Dropping the schedules of `other` keeps those of `id`.
proof fn lemma_filter_keeps_other(s: Seq<(Seq<char>, i64)>, id: Seq<char>, other: Seq<char>)
    requires
        other != id,
    ensures
        s.filter(not_for_id(other)).filter(for_id(id)) == s.filter(for_id(id)),
    decreases s.len(),
{
    reveal(Seq::filter);
    if s.len() > 0 {
        let same = for_id(id);
        let differ = not_for_id(other);
        let x = s.last();
        let rest = s.drop_last();
        lemma_filter_keeps_other(rest, id, other);
        if differ(x) {
            let t = rest.filter(differ).push(x);
            assert(s.filter(differ) == t);
            assert(t.drop_last() =~= rest.filter(differ));
            assert(t.last() == x);
            assert(t.filter(same) == if same(x) {
                rest.filter(differ).filter(same).push(x)
            } else {
                rest.filter(differ).filter(same)
            });
        } else {
            assert(!same(x));
            assert(s.filter(differ) == rest.filter(differ));
        }
    }
}

/// The events that edit the draft inside the settings dialog.
pub open spec fn draft_edit(e: AppEvent) -> bool {
    e is ModifySettingValue || e is Up || e is Down
}

/// Inside the settings dialog, an edit of the draft or a move between fields
/// leaves the settings in force, the interval in use and the quit flag alone,
/// and the dialog open.
pub proof fn lemma_settings_edit_keeps(before: App, after: App, e: AppEvent, cmd: Command, now: i64)
    requires
        before.dialog is Settings,
        draft_edit(e),
        dialog_event_handled(before, after, e, cmd, now),
    ensures
        after.settings == before.settings,
        after.auto_refresh_interval == before.auto_refresh_interval,
        after.should_quit == before.should_quit,
        after.dialog is Settings,
        before.settings_draft is Some ==> after.settings_draft is Some,
{
}

/// Quit or cancel in the settings dialog closes it, drops the draft, keeps
/// the settings in force, and does not quit.
pub proof fn lemma_settings_cancel(before: App, after: App, e: AppEvent, cmd: Command, now: i64)
    requires
        before.dialog is Settings,
        e is Quit || e is CancelSettings,
        dialog_event_handled(before, after, e, cmd, now),
    ensures
        after.settings == before.settings,
        after.auto_refresh_interval == before.auto_refresh_interval,
        after.settings_draft is None,
        after.dialog is Closed,
        after.should_quit == before.should_quit,
{
}

/// Enter in the settings dialog puts the draft in force (and its refresh
/// interval in use) and closes the dialog, unless the test-sound entry is
/// selected, which leaves settings, draft and dialog as they are.
pub proof fn lemma_settings_enter(before: App, after: App, cmd: Command, now: i64)
    requires
        before.dialog is Settings,
        before.settings_draft is Some,
        dialog_event_handled(before, after, AppEvent::Enter, cmd, now),
    ensures
        before.settings_selected_field != SettingsField::TestSound ==> {
            &&& after.settings == before.settings_draft->0
            &&& after.auto_refresh_interval == after.settings.refresh_interval_secs
            &&& after.dialog is Closed
            &&& cmd == Command::SaveSettings(after.settings)
        },
        before.settings_selected_field == SettingsField::TestSound ==> {
            &&& after.settings == before.settings
            &&& after.settings_draft == before.settings_draft
            &&& after.dialog is Settings
        },
{
}

/// States `states[0..]` linked by the draft edits `events` in the settings
/// dialog.
pub open spec fn edit_chain(states: Seq<App>, events: Seq<AppEvent>, cmds: Seq<Command>, times: Seq<i64>) -> bool {
    &&& states.len() == events.len() + 1
    &&& cmds.len() == events.len()
    &&& times.len() == events.len()
    &&& forall|i: int|
        0 <= i < events.len() ==> draft_edit(#[trigger] events[i]) && dialog_event_handled(
            states[i],
            states[i + 1],
            events[i],
            cmds[i],
            times[i],
        )
}

/// Along a chain of draft edits that starts in the settings dialog, every
/// state keeps the first one's settings, interval and quit flag, with the
/// dialog open and a draft present.
pub proof fn lemma_edit_chain_keeps(
    states: Seq<App>,
    events: Seq<AppEvent>,
    cmds: Seq<Command>,
    times: Seq<i64>,
    k: int,
)
    requires
        edit_chain(states, events, cmds, times),
        states[0].dialog is Settings,
        states[0].settings_draft is Some,
        0 <= k < states.len(),
    ensures
        states[k].settings == states[0].settings,
        states[k].auto_refresh_interval == states[0].auto_refresh_interval,
        states[k].should_quit == states[0].should_quit,
        states[k].dialog is Settings,
        states[k].settings_draft is Some,
    decreases k,
{
    if k > 0 {
        lemma_edit_chain_keeps(states, events, cmds, times, k - 1);
        assert(draft_edit(events[k - 1]));
        lemma_settings_edit_keeps(states[k - 1], states[k], events[k - 1], cmds[k - 1], times[k - 1]);
    }
}

/// Opening the settings, making any number of edits and moves, then quitting
/// or cancelling leaves the settings in force exactly as they were, the
/// dialog closed and the application running.
pub proof fn lemma_settings_session_cancelled(
    a: App,
    states: Seq<App>,
    events: Seq<AppEvent>,
    cmds: Seq<Command>,
    times: Seq<i64>,
    open_cmd: Command,
    open_time: i64,
    last: App,
    last_event: AppEvent,
    last_cmd: Command,
    last_time: i64,
)
    requires
        !a.dialog_open(),
        event_handled(a, states[0], AppEvent::OpenSettings, open_cmd, open_time),
        edit_chain(states, events, cmds, times),
        last_event is Quit || last_event is CancelSettings,
        dialog_event_handled(states.last(), last, last_event, last_cmd, last_time),
    ensures
        last.settings == a.settings,
        last.auto_refresh_interval == a.auto_refresh_interval,
        last.settings_draft is None,
        !last.dialog_open(),
        last.should_quit == a.should_quit,
{
    lemma_edit_chain_keeps(states, events, cmds, times, states.len() - 1);
    lemma_settings_cancel(states.last(), last, last_event, last_cmd, last_time);
}

/// Opening the settings, changing a value, and cancelling leaves the settings
/// in force exactly as they were.
pub proof fn lemma_settings_cancel_keeps(
    a: App,
    b: App,
    c: App,
    d: App,
    delta: i32,
    t1: i64,
    t2: i64,
    t3: i64,
    c1: crate::app::Command,
    c2: crate::app::Command,
    c3: crate::app::Command,
)
    requires
        !a.dialog_open(),
        event_handled(a, b, AppEvent::OpenSettings, c1, t1),
        event_handled(b, c, AppEvent::ModifySettingValue(delta), c2, t2),
        event_handled(c, d, AppEvent::CancelSettings, c3, t3),
    ensures
        d.settings == a.settings,
        d.settings_draft is None,
        !d.dialog_open(),
{
}

/// Opening the settings, changing the first field, and confirming puts the
/// changed value in force, and the refresh interval in use follows it.
pub proof fn lemma_settings_save_commits(
    a: App,
    b: App,
    c: App,
    d: App,
    delta: i32,
    t1: i64,
    t2: i64,
    t3: i64,
    c1: crate::app::Command,
    c2: crate::app::Command,
    c3: crate::app::Command,
)
    requires
        !a.dialog_open(),
        event_handled(a, b, AppEvent::OpenSettings, c1, t1),
        event_handled(b, c, AppEvent::ModifySettingValue(delta), c2, t2),
        event_handled(c, d, AppEvent::Enter, c3, t3),
    ensures
        d.settings == modified(a.settings, SettingsField::RefreshInterval, delta),
        d.auto_refresh_interval == d.settings.refresh_interval_secs,
        c3 == crate::app::Command::SaveSettings(d.settings),
        !d.dialog_open(),
{
}

/// Two alert checks within 30 seconds record one instance's alert once: the
/// second check changes nothing and asks for no sound.
pub proof fn lemma_alert_recorded_once(
    a: App,
    b: App,
    c: App,
    t1: i64,
    t2: i64,
    s1: bool,
    s2: bool,
)
    requires
        a.ec2_instances.len() == 1,
        overdue(
            a.ec2_instances@[0],
            a.schedule_records(),
            t1,
            a.settings.alert_threshold_secs,
        ),
        a.pending_alerts.len() == 0,
        a.last_alert_check is None,
        alerts_checked(a, b, t1, s1),
        alerts_checked(b, c, t2, s2),
        t1 <= t2 < t1 + 30000,
    ensures
        c.alert_texts().len() == 1,
        c.dialog is Alert,
        c.dialog->Alert_0@ == c.alert_texts()[0],
        c == b,
        !s2,
{
    let insts = a.ec2_instances@;
    assert(insts.drop_last().len() == 0);
    let cands = alert_candidates(insts, a.schedule_records(), t1, a.settings.alert_threshold_secs);
    assert(alert_candidates(
        insts.drop_last(),
        a.schedule_records(),
        t1,
        a.settings.alert_threshold_secs,
    ) =~= Seq::<Seq<char>>::empty());
    assert(insts.last() == insts[0]);
    assert(cands.len() == 1);
    assert(cands.drop_last().len() == 0);
    assert(a.alert_texts().len() == 0);
    assert(!a.alert_texts().contains(cands.last()));
}

/// A toast added at `t0` survives the purge at `now` exactly while less than
/// five seconds have passed.
pub proof fn lemma_toast_lifetime(
    a: App,
    b: App,
    c: App,
    message: Seq<char>,
    kind: ToastType,
    t0: i64,
    now: i64,
)
    requires
        b.toast_records() == a.toast_records().push((message, kind, t0)),
        c.toast_records() == surviving(b.toast_records(), now),
    ensures
        now - t0 < 5000 ==> c.toast_records().contains((message, kind, t0)),
        now - t0 >= 5000 ==> !c.toast_records().contains((message, kind, t0)),
{
    let x: ToastRecord = (message, kind, t0);
    let keep = |t: ToastRecord| toast_alive(now, t.2);
    let s = b.toast_records();
    assert(s.drop_last() =~= a.toast_records());
    reveal(Seq::filter);
    assert(c.toast_records() == s.filter(keep));
    if now - t0 < 5000 {
        assert(c.toast_records() == a.toast_records().filter(keep).push(x));
        assert(c.toast_records()[c.toast_records().len() - 1] == x);
    } else {
        assert(c.toast_records() == a.toast_records().filter(keep));
        if c.toast_records().contains(x) {
            let i = choose|i: int| 0 <= i < c.toast_records().len() && c.toast_records()[i] == x;
            a.toast_records().lemma_filter_pred(keep, i);
        }
    }
}

} // verus!
