use crate::config::Config;
use vstd::prelude::*;

verus! {

/// One event consumed by the reactive loop: an activity transition (true
/// means the companion application started running, false that it stopped),
/// or a reload request carrying the configuration snapshot that was just
/// re-read from persistent storage.
#[derive(Clone, Copy, Debug, PartialEq, Eq)]
pub enum Event {
    Activity(bool),
    Reload(Config),
}

/// What the runtime must perform after one step. `Start` carries the
/// snapshot the new group runs with; `Restart` means: stop the live group,
/// wait for its shutdown to be acknowledged, then start a new group with the
/// carried snapshot. `Idle` performs nothing.
#[derive(Clone, Copy, Debug, PartialEq, Eq)]
pub enum Action {
    Idle,
    Start(Config),
    Stop,
    Restart(Config),
}

/// The supervisor's loop state: whether a plugin group is live, the current
/// configuration snapshot, and the value last pushed to the status
/// indicator.
#[derive(Clone, Copy, Debug, PartialEq, Eq)]
pub struct Supervisor {
    pub group_present: bool,
    pub config: Config,
    pub status_running: bool,
}

/// The supervisor's transition table, state part.
pub open spec fn next_state(s: Supervisor, e: Event) -> Supervisor {
    match e {
        Event::Activity(running) => {
            if running && !s.group_present {
                Supervisor { group_present: true, config: s.config, status_running: true }
            } else if !running && s.group_present {
                Supervisor { group_present: false, config: s.config, status_running: false }
            } else {
                s
            }
        },
        Event::Reload(c) => Supervisor {
            group_present: s.group_present,
            config: c,
            status_running: s.status_running,
        },
    }
}

/// The supervisor's transition table, action part.
pub open spec fn action_of(s: Supervisor, e: Event) -> Action {
    match e {
        Event::Activity(running) => {
            if running && !s.group_present {
                Action::Start(s.config)
            } else if !running && s.group_present {
                Action::Stop
            } else {
                Action::Idle
            }
        },
        Event::Reload(c) => if s.group_present {
            Action::Restart(c)
        } else {
            Action::Idle
        },
    }
}

/// The state after the whole event sequence has been consumed.
pub open spec fn run_from(s: Supervisor, events: Seq<Event>) -> Supervisor
    decreases events.len(),
{
    if events.len() == 0 {
        s
    } else {
        next_state(run_from(s, events.drop_last()), events.last())
    }
}

/// How many groups are live once an action has been performed: `Start`
/// brings one up, `Stop` takes one down, `Restart` stops one and starts one
/// in strict sequence, so the count is unchanged.
pub open spec fn apply_action(live: int, a: Action) -> int {
    match a {
        Action::Idle => live,
        Action::Start(_) => live + 1,
        Action::Stop => live - 1,
        Action::Restart(_) => live,
    }
}

/// The number of live groups after the runtime has performed, in order, the
/// actions the supervisor directed for `events`, starting from no group.
pub open spec fn live_after(s: Supervisor, events: Seq<Event>) -> int
    decreases events.len(),
{
    if events.len() == 0 {
        0
    } else {
        apply_action(
            live_after(s, events.drop_last()),
            action_of(run_from(s, events.drop_last()), events.last()),
        )
    }
}

impl Supervisor {
    pub fn new(config: Config) -> (s: Self)
        ensures
            s.group_present == false,
            s.status_running == false,
            s.config == config,
    {
        Supervisor { group_present: false, config, status_running: false }
    }

    /// One iteration of the reactive loop: consume one event, take the next
    /// state from the transition table, and hand the runtime the action to
    /// perform. The status indicator is updated in the same step as the
    /// group decision, so it never lags behind group presence.
    pub fn step(&mut self, event: Event) -> (a: Action)
        ensures
            *final(self) == next_state(*old(self), event),
            a == action_of(*old(self), event),
    {
        match event {
            Event::Activity(running) => {
                if running && !self.group_present {
                    self.group_present = true;
                    self.status_running = true;
                    Action::Start(self.config)
                } else if !running && self.group_present {
                    self.group_present = false;
                    self.status_running = false;
                    Action::Stop
                } else {
                    Action::Idle
                }
            },
            Event::Reload(c) => {
                self.config = c;
                if self.group_present {
                    Action::Restart(c)
                } else {
                    Action::Idle
                }
            },
        }
    }
}

/// The supervisor's belief about group presence always matches the number of
/// groups actually live under the strictly sequenced interpretation of its
/// actions; in particular that number never exceeds one.
pub proof fn lemma_at_most_one_group(s: Supervisor, events: Seq<Event>)
    requires
        !s.group_present,
    ensures
        live_after(s, events) == (if run_from(s, events).group_present {
            1int
        } else {
            0int
        }),
        0 <= live_after(s, events) <= 1,
    decreases events.len(),
{
    if events.len() > 0 {
        lemma_at_most_one_group(s, events.drop_last());
    }
}

/// Law: group start and stop are strictly sequenced; at most one group is
/// live at any instant. For every interleaving of activity and reload
/// events, a `Start` is only ever directed at an instant when no group is
/// live, and a `Stop` or `Restart` only when exactly one is.
pub proof fn lemma_no_group_overlap(s: Supervisor, events: Seq<Event>, i: int)
    requires
        !s.group_present,
        0 <= i < events.len(),
    ensures
        action_of(run_from(s, events.take(i)), events[i]) matches Action::Start(_) ==> live_after(
            s,
            events.take(i),
        ) == 0,
        action_of(run_from(s, events.take(i)), events[i]) == Action::Stop ==> live_after(
            s,
            events.take(i),
        ) == 1,
        action_of(run_from(s, events.take(i)), events[i]) matches Action::Restart(_)
            ==> live_after(s, events.take(i)) == 1,
{
    lemma_at_most_one_group(s, events.take(i));
}

/// Law: a reload with no group present installs the new snapshot and starts
/// nothing; a later activity-running event then starts a group with the new
/// snapshot, never a stale one.
pub proof fn lemma_reload_then_start_uses_new_config(s: Supervisor, c: Config)
    requires
        !s.group_present,
    ensures
        action_of(s, Event::Reload(c)) == Action::Idle,
        next_state(s, Event::Reload(c)).config == c,
        !next_state(s, Event::Reload(c)).group_present,
        action_of(next_state(s, Event::Reload(c)), Event::Activity(true)) == Action::Start(c),
{
}

/// Law: a reload with a group present always directs a stop-then-start
/// carrying the reloaded snapshot — also when that snapshot is identical to
/// the current one, since `c` here ranges over every snapshot including
/// `s.config` itself.
pub proof fn lemma_reload_with_group_always_restarts(s: Supervisor, c: Config)
    requires
        s.group_present,
    ensures
        action_of(s, Event::Reload(c)) == Action::Restart(c),
        next_state(s, Event::Reload(c)).group_present,
        next_state(s, Event::Reload(c)).config == c,
{
}

/// Law: a group stop is only ever directed by an activity-stopped event. A
/// run that contains none — as when activity gating is disabled and the
/// monitor emits its single synthetic running event and nothing further —
/// never stops a group on account of activity.
pub proof fn lemma_no_stop_without_stopped_event(s: Supervisor, events: Seq<Event>, i: int)
    requires
        0 <= i < events.len(),
        events[i] != Event::Activity(false),
    ensures
        action_of(run_from(s, events.take(i)), events[i]) != Action::Stop,
{
}

/// Law: when an activity transition and a reload request are simultaneously
/// ready, the select's resolution order is unspecified — and immaterial:
/// once both events are drained, either order leaves the supervisor in the
/// same state, with the group present exactly when the new activity state is
/// running and the newly loaded snapshot in force.
pub proof fn lemma_racing_events_commute(s: Supervisor, v: bool, c: Config)
    ensures
        run_from(s, seq![Event::Activity(v), Event::Reload(c)]) == run_from(
            s,
            seq![Event::Reload(c), Event::Activity(v)],
        ),
        run_from(s, seq![Event::Activity(v), Event::Reload(c)]).group_present == v,
        run_from(s, seq![Event::Activity(v), Event::Reload(c)]).config == c,
{
    reveal_with_fuel(run_from, 3);
    let ar = seq![Event::Activity(v), Event::Reload(c)];
    let ra = seq![Event::Reload(c), Event::Activity(v)];
    assert(ar.drop_last() =~= seq![Event::Activity(v)]);
    assert(ra.drop_last() =~= seq![Event::Reload(c)]);
    assert(seq![Event::Activity(v)].drop_last() =~= Seq::<Event>::empty());
    assert(seq![Event::Reload(c)].drop_last() =~= Seq::<Event>::empty());
    assert(run_from(s, ar) == next_state(next_state(s, Event::Activity(v)), Event::Reload(c)));
    assert(run_from(s, ra) == next_state(next_state(s, Event::Reload(c)), Event::Activity(v)));
}

/// Law: the status indicator never lags behind group presence — after any
/// event sequence the two agree, provided they agreed at the start.
pub proof fn lemma_status_tracks_group(s: Supervisor, events: Seq<Event>)
    requires
        s.status_running == s.group_present,
    ensures
        run_from(s, events).status_running == run_from(s, events).group_present,
    decreases events.len(),
{
    if events.len() > 0 {
        lemma_status_tracks_group(s, events.drop_last());
    }
}

} // verus!
