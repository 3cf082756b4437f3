//! Sessions over whole sequences of events, and what holds of every such
//! sequence.
use vstd::prelude::*;
use crate::config::{launch_flags_spec, namespace_bootstrap_spec, target_url_spec};
use crate::protocol::{Action, ActionView, Event, EventView, Task};
use crate::session::{
    accepts, action, awaits_response, initial, is_response, next, rank, Phase, Pump, Session,
    SessionView,
};

verus! {

/// The state reached from `s` after the first `n` of `events`.
pub open spec fn state_after(s: SessionView, events: Seq<EventView>, n: int) -> SessionView
    decreases n,
{
    if n <= 0 {
        s
    } else {
        next(state_after(s, events, n - 1), events[n - 1])
    }
}

/// The action by which a session that started in `s` answers `events[i]`.
pub open spec fn action_at(s: SessionView, events: Seq<EventView>, i: int) -> ActionView {
    action(state_after(s, events, i), events[i])
}

/// What a list of events holds, as plain values.
pub open spec fn event_views(events: Seq<Event>) -> Seq<EventView> {
    events.map_values(|e: Event| e@)
}

/// Feeds `events` to the session in order and collects its answers.
pub fn replay(session: &mut Session, events: &Vec<Event>) -> (actions: Vec<Action>)
    ensures
        final(session)@ == state_after(old(session)@, event_views(events@), events@.len() as int),
        actions@.len() == events@.len(),
        forall|i: int|
            0 <= i < events@.len() ==> (#[trigger] actions@[i])@ == action_at(
                old(session)@,
                event_views(events@),
                i,
            ),
{
    let mut actions: Vec<Action> = Vec::new();
    let mut n: usize = 0;
    while n < events.len()
        invariant
            n <= events@.len(),
            session@ == state_after(old(session)@, event_views(events@), n as int),
            actions@.len() == n,
            forall|i: int|
                0 <= i < n ==> (#[trigger] actions@[i])@ == action_at(
                    old(session)@,
                    event_views(events@),
                    i,
                ),
        decreases events@.len() - n,
    {
        let act = session.step(&events[n]);
        actions.push(act);
        n += 1;
    }
    actions
}

/// The event at position `j` tells a session that its pump was started, and
/// the session took it into account.
pub open spec fn pump_spawned_at(s: SessionView, events: Seq<EventView>, j: int) -> bool {
    events[j] is PumpSpawned && accepts(state_after(s, events, j), events[j])
}

/// The event at position `j` is a confirmation of navigation that the session
/// took into account.
pub open spec fn navigation_observed_at(s: SessionView, events: Seq<EventView>, j: int) -> bool {
    events[j] is NavigationComplete && accepts(state_after(s, events, j), events[j])
}

/// The event at position `k` delivers `script` to a session that was reading.
pub open spec fn script_read_at(
    s: SessionView,
    events: Seq<EventView>,
    k: int,
    script: Seq<char>,
) -> bool {
    events[k] == (EventView::ScriptRead { content: script }) && accepts(
        state_after(s, events, k),
        events[k],
    )
}

/// At position `i` the session asks for the namespace object, after having
/// read `script` earlier.
pub open spec fn namespace_requested_at(
    s: SessionView,
    events: Seq<EventView>,
    i: int,
    script: Seq<char>,
) -> bool {
    &&& action_at(s, events, i) == (ActionView::Evaluate { source: namespace_bootstrap_spec() })
    &&& state_after(s, events, i).phase == Phase::AwaitingNavigation
    &&& exists|k: int| 0 <= k < i && #[trigger] script_read_at(s, events, k, script)
}

/// At position `j` the session asks for the evaluation of `script`, after
/// having asked for the namespace object earlier.
pub open spec fn script_requested_at(
    s: SessionView,
    events: Seq<EventView>,
    j: int,
    script: Seq<char>,
) -> bool {
    &&& action_at(s, events, j) == (ActionView::Evaluate { source: script })
    &&& state_after(s, events, j).phase == Phase::InstallingNamespace
    &&& exists|i: int| 0 <= i < j && #[trigger] namespace_requested_at(s, events, i, script)
}

/// A session never returns to an earlier phase, whatever happens.
pub proof fn lemma_phase_never_goes_back(s: SessionView, events: Seq<EventView>, i: int, j: int)
    requires
        0 <= i <= j <= events.len(),
    ensures
        rank(state_after(s, events, i).phase) <= rank(state_after(s, events, j).phase),
    decreases j,
{
    if i < j {
        lemma_phase_never_goes_back(s, events, i, j - 1);
    }
}

/// A pump that has failed is never restarted.
pub proof fn lemma_dead_pump_stays_dead(s: SessionView, events: Seq<EventView>, m: int, n: int)
    requires
        0 <= m <= n <= events.len(),
        state_after(s, events, m).pump == Pump::Dead,
    ensures
        state_after(s, events, n).pump == Pump::Dead,
    decreases n,
{
    if m < n {
        lemma_dead_pump_stays_dead(s, events, m, n - 1);
    }
}

/// When the stream ends or fails under a running pump, the pump fails at
/// once, and from then on no answer to a command reaches the session: each
/// is passed over and leaves the session as it was, so that nothing is
/// evaluated any more and the injector never finishes.
pub proof fn lemma_pump_failure_stalls_commands(
    s: SessionView,
    events: Seq<EventView>,
    d: int,
    n: int,
)
    requires
        0 <= d < n < events.len(),
        events[d] is StreamEnded || events[d] is StreamFailed,
        accepts(state_after(s, events, d), events[d]),
    ensures
        action_at(s, events, d) is Fail,
        action_at(s, events, d)->Fail_task == Task::Pump,
        state_after(s, events, d + 1).pump == Pump::Dead,
        is_response(events[n]) ==> action_at(s, events, n) == ActionView::Wait && state_after(
            s,
            events,
            n + 1,
        ) == state_after(s, events, n),
        !(action_at(s, events, n) is Evaluate),
        !(action_at(s, events, n) is Finish),
{
    assert(state_after(s, events, d + 1) == next(state_after(s, events, d), events[d]));
    lemma_dead_pump_stays_dead(s, events, d + 1, n);
    assert(state_after(s, events, n + 1) == next(state_after(s, events, n), events[n]));
}

/// A session that waits for the answer to a command when its pump is dead
/// waits for ever: whatever is reported afterwards, it stays exactly as it
/// is and asks for nothing.
pub proof fn lemma_commands_stall_without_pump(
    s: SessionView,
    events: Seq<EventView>,
    m: int,
    n: int,
)
    requires
        0 <= m <= n <= events.len(),
        state_after(s, events, m).pump == Pump::Dead,
        awaits_response(state_after(s, events, m).phase),
    ensures
        state_after(s, events, n) == state_after(s, events, m),
        n < events.len() ==> action_at(s, events, n) == ActionView::Wait,
    decreases n,
{
    if m < n {
        lemma_commands_stall_without_pump(s, events, m, n - 1);
    }
}

proof fn lemma_navigated_phases(path: Seq<char>, events: Seq<EventView>, n: int)
    requires
        0 <= n <= events.len(),
    ensures
        6 <= rank(state_after(initial(path), events, n).phase) <= 8 ==> exists|j: int|
            0 <= j < n && #[trigger] navigation_observed_at(initial(path), events, j),
    decreases n,
{
    if 0 < n {
        lemma_navigated_phases(path, events, n - 1);
        let before = state_after(initial(path), events, n - 1);
        if 6 <= rank(state_after(initial(path), events, n).phase) <= 8 && !(6 <= rank(
            before.phase,
        ) <= 8) {
            assert(navigation_observed_at(initial(path), events, n - 1));
        }
    }
}

/// Nothing is evaluated in the page before the session has seen the page
/// confirm its navigation: every request for an evaluation answers that
/// confirmation itself, or comes after it.
pub proof fn lemma_navigation_precedes_evaluation(path: Seq<char>, events: Seq<EventView>, i: int)
    requires
        0 <= i < events.len(),
        action_at(initial(path), events, i) is Evaluate,
    ensures
        exists|j: int|
            0 <= j <= i && #[trigger] navigation_observed_at(initial(path), events, j),
{
    lemma_navigated_phases(path, events, i);
    if state_after(initial(path), events, i).phase == Phase::AwaitingNavigation {
        assert(navigation_observed_at(initial(path), events, i));
    }
}

proof fn lemma_injection_progress(path: Seq<char>, events: Seq<EventView>, n: int)
    requires
        0 <= n <= events.len(),
    ensures
        ({
            let s = state_after(initial(path), events, n);
            &&& 5 <= rank(s.phase) <= 8 ==> exists|k: int|
                0 <= k < n && #[trigger] script_read_at(initial(path), events, k, s.script)
            &&& 6 <= rank(s.phase) <= 8 ==> exists|i: int|
                0 <= i < n && #[trigger] namespace_requested_at(
                    initial(path),
                    events,
                    i,
                    s.script,
                )
            &&& 7 <= rank(s.phase) <= 8 ==> exists|j: int|
                0 <= j < n && #[trigger] script_requested_at(initial(path), events, j, s.script)
        }),
    decreases n,
{
    if 0 < n {
        lemma_injection_progress(path, events, n - 1);
        let start = initial(path);
        let before = state_after(start, events, n - 1);
        let after = state_after(start, events, n);
        let e = events[n - 1];
        assert(after == next(before, e));
        if 5 <= rank(after.phase) <= 8 {
            if before.phase == Phase::Reading {
                assert(e == EventView::ScriptRead { content: after.script });
                assert(script_read_at(start, events, n - 1, after.script));
            } else {
                assert(5 <= rank(before.phase) <= 8);
                assert(before.script == after.script);
                let k = choose|k: int|
                    0 <= k < n - 1 && #[trigger] script_read_at(start, events, k, before.script);
                assert(script_read_at(start, events, k, after.script));
            }
        }
        if 6 <= rank(after.phase) <= 8 {
            if before.phase == Phase::AwaitingNavigation {
                assert(namespace_requested_at(start, events, n - 1, after.script));
            } else {
                assert(6 <= rank(before.phase) <= 8);
                let i = choose|i: int|
                    0 <= i < n - 1 && #[trigger] namespace_requested_at(
                        start,
                        events,
                        i,
                        before.script,
                    );
                assert(namespace_requested_at(start, events, i, after.script));
            }
        }
        if 7 <= rank(after.phase) <= 8 {
            if before.phase == Phase::InstallingNamespace {
                assert(script_requested_at(start, events, n - 1, after.script));
            } else {
                assert(7 <= rank(before.phase) <= 8);
                let j = choose|j: int|
                    0 <= j < n - 1 && #[trigger] script_requested_at(
                        start,
                        events,
                        j,
                        before.script,
                    );
                assert(script_requested_at(start, events, j, after.script));
            }
        }
    }
}

/// When a session has injected its script, it has first read that script,
/// then asked for the namespace object, then asked for the evaluation of the
/// very text that it read, in this order.
pub proof fn lemma_injection_installs_namespace_then_script(
    path: Seq<char>,
    events: Seq<EventView>,
    n: int,
)
    requires
        0 <= n <= events.len(),
        state_after(initial(path), events, n).phase == Phase::Injected,
    ensures
        exists|k: int, i: int, j: int|
            0 <= k < i < j < n && #[trigger] script_read_at(
                initial(path),
                events,
                k,
                state_after(initial(path), events, n).script,
            ) && #[trigger] action_at(initial(path), events, i) == (ActionView::Evaluate {
                source: namespace_bootstrap_spec(),
            }) && #[trigger] action_at(initial(path), events, j) == (ActionView::Evaluate {
                source: state_after(initial(path), events, n).script,
            }),
{
    let start = initial(path);
    let script = state_after(start, events, n).script;
    lemma_injection_progress(path, events, n);
    let j = choose|j: int| 0 <= j < n && #[trigger] script_requested_at(start, events, j, script);
    let i = choose|i: int| 0 <= i < j && #[trigger] namespace_requested_at(start, events, i, script);
    let k = choose|k: int| 0 <= k < i && #[trigger] script_read_at(start, events, k, script);
    assert(script_read_at(start, events, k, script));
    assert(action_at(start, events, i) == ActionView::Evaluate {
        source: namespace_bootstrap_spec(),
    });
    assert(action_at(start, events, j) == ActionView::Evaluate { source: script });
}

/// When the script file cannot be read, the session reports that once and
/// leaves the page alone: over the whole life of the session no other
/// diagnostic is written, the injector never waits for the page, and nothing
/// is evaluated in it, neither the namespace expression nor a script.
pub proof fn lemma_unreadable_script_leaves_page_untouched(
    path: Seq<char>,
    events: Seq<EventView>,
    k: int,
    i: int,
)
    requires
        0 <= k < events.len(),
        0 <= i < events.len(),
        events[k] is ScriptUnreadable,
        accepts(state_after(initial(path), events, k), events[k]),
    ensures
        action_at(initial(path), events, k) == (ActionView::Report {
            diagnostic: events[k]->ScriptUnreadable_diagnostic,
        }),
        i != k ==> !(action_at(initial(path), events, i) is Report),
        !(action_at(initial(path), events, i) is Evaluate),
        !(action_at(initial(path), events, i) is AwaitNavigation),
{
    let start = initial(path);
    assert(state_after(start, events, k).phase == Phase::Reading);
    assert(state_after(start, events, k + 1).phase == Phase::Abandoned);
    if i < k {
        lemma_phase_never_goes_back(start, events, i, k);
        lemma_phase_never_goes_back(start, events, i + 1, k);
    } else if i > k {
        lemma_phase_never_goes_back(start, events, k + 1, i);
    }
}

/// The events of a session in which nothing goes wrong and the browser sends
/// no notification, for a script file that holds `content`.
pub open spec fn undisturbed_events(content: Seq<char>) -> Seq<EventView> {
    seq![
        EventView::Started,
        EventView::Launched,
        EventView::PumpSpawned,
        EventView::PageOpened,
        EventView::ScriptRead { content },
        EventView::NavigationComplete,
        EventView::EvaluationDone,
        EventView::EvaluationDone,
    ]
}

/// What a session for the file at `path` asks for, event by event, when
/// nothing goes wrong.
pub open spec fn undisturbed_actions(path: Seq<char>, content: Seq<char>) -> Seq<ActionView> {
    seq![
        ActionView::Launch { flags: launch_flags_spec() },
        ActionView::SpawnPump,
        ActionView::OpenPage { url: target_url_spec() },
        ActionView::ReadScript { path },
        ActionView::AwaitNavigation,
        ActionView::Evaluate { source: namespace_bootstrap_spec() },
        ActionView::Evaluate { source: content },
        ActionView::Finish,
    ]
}

/// Whatever the path and whatever the file holds: when every step succeeds,
/// the session launches the browser, starts the pump, opens the page, reads
/// the file, waits for the page, installs the namespace, evaluates the file's
/// text unchanged, and ends as injected with the pump still running.
pub proof fn lemma_undisturbed_session_injects(path: Seq<char>, content: Seq<char>)
    ensures
        undisturbed_events(content).len() == 8,
        undisturbed_actions(path, content).len() == 8,
        state_after(initial(path), undisturbed_events(content), 8) == (SessionView {
            phase: Phase::Injected,
            pump: Pump::Running,
            path,
            script: content,
        }),
        forall|i: int|
            0 <= i < 8 ==> #[trigger] action_at(initial(path), undisturbed_events(content), i)
                == undisturbed_actions(path, content)[i],
{
    let start = initial(path);
    let events = undisturbed_events(content);
    reveal_with_fuel(state_after, 9);
    assert(state_after(start, events, 1).phase == Phase::Launching);
    assert(state_after(start, events, 2).phase == Phase::StartingPump);
    assert(state_after(start, events, 3).phase == Phase::Navigating);
    assert(state_after(start, events, 4).phase == Phase::Reading);
    assert(state_after(start, events, 5).phase == Phase::AwaitingNavigation);
    assert(state_after(start, events, 6).phase == Phase::InstallingNamespace);
    assert(state_after(start, events, 7).phase == Phase::EvaluatingScript);
    assert(state_after(start, events, 8).phase == Phase::Injected);
}

/// A session launches one browser, starts one pump, opens one page, reads
/// the script file once and reports at most one diagnostic: none of these is
/// ever asked for a second time, in whatever state the session began.
pub proof fn lemma_nothing_is_asked_twice(s: SessionView, events: Seq<EventView>, i: int, j: int)
    requires
        0 <= i < j < events.len(),
    ensures
        action_at(s, events, i) is Launch ==> !(action_at(s, events, j) is Launch),
        action_at(s, events, i) is SpawnPump ==> !(action_at(s, events, j) is SpawnPump),
        action_at(s, events, i) is OpenPage ==> !(action_at(s, events, j) is OpenPage),
        action_at(s, events, i) is ReadScript ==> !(action_at(s, events, j) is ReadScript),
        action_at(s, events, i) is AwaitNavigation ==> !(action_at(s, events, j)
            is AwaitNavigation),
        action_at(s, events, i) is Report ==> !(action_at(s, events, j) is Report),
        action_at(s, events, i) is Finish ==> !(action_at(s, events, j) is Finish),
{
    assert(state_after(s, events, i + 1) == next(state_after(s, events, i), events[i]));
    lemma_phase_never_goes_back(s, events, i + 1, j);
}

proof fn lemma_pump_started_phases(path: Seq<char>, events: Seq<EventView>, n: int)
    requires
        0 <= n <= events.len(),
    ensures
        3 <= rank(state_after(initial(path), events, n).phase) <= 9 ==> {
            &&& state_after(initial(path), events, n).pump != Pump::Absent
            &&& exists|j: int| 0 <= j < n && #[trigger] pump_spawned_at(initial(path), events, j)
        },
        state_after(initial(path), events, n).pump != Pump::Absent ==> exists|j: int|
            0 <= j < n && #[trigger] pump_spawned_at(initial(path), events, j),
    decreases n,
{
    if 0 < n {
        lemma_pump_started_phases(path, events, n - 1);
        let before = state_after(initial(path), events, n - 1);
        let after = state_after(initial(path), events, n);
        assert(after == next(before, events[n - 1]));
        if before.phase == Phase::StartingPump && after.phase == Phase::Navigating {
            assert(pump_spawned_at(initial(path), events, n - 1));
        } else if after.pump != Pump::Absent {
            assert(before.pump != Pump::Absent);
            let j = choose|j: int|
                0 <= j < n - 1 && #[trigger] pump_spawned_at(initial(path), events, j);
            assert(pump_spawned_at(initial(path), events, j));
        }
    }
}

/// The pump is started before any command is sent over the browser's
/// connection: when a session that began with nothing done asks for such a
/// command, its pump has been started.
pub proof fn lemma_pump_starts_before_commands(path: Seq<char>, events: Seq<EventView>, i: int)
    requires
        0 <= i < events.len(),
        action_at(initial(path), events, i).is_command(),
    ensures
        state_after(initial(path), events, i + 1).pump != Pump::Absent,
        exists|j: int| 0 <= j <= i && #[trigger] pump_spawned_at(initial(path), events, j),
{
    lemma_pump_started_phases(path, events, i);
    if state_after(initial(path), events, i).phase == Phase::StartingPump {
        assert(pump_spawned_at(initial(path), events, i));
    }
}

/// Whatever the state and the event: where the session asks for a launch, it
/// asks for it with the fixed list of startup flags.
pub proof fn lemma_launch_uses_fixed_flags(s: SessionView, e: EventView)
    requires
        action(s, e) is Launch,
    ensures
        action(s, e) == (ActionView::Launch { flags: launch_flags_spec() }),
{
}

} // verus!
