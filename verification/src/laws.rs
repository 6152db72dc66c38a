//! What holds of the coordinator in every state and over several steps.

use vstd::prelude::*;
use crate::commands::{last_value, pushed};
use crate::coordinator::{
    answered, backoff_for, Action, Activity, CoordinatorState, Phase, INITIAL_BACKOFF_MS,
    MAX_FAILED_ATTEMPTS, SETTLE_DELAY_MS,
};
use crate::enumeration::{
    backends_of, knows, merged, merged_holds_every_answer, merged_ids_are_distinct, slot_of,
    snapshot_of, some_failed, Probe,
};
use crate::monitor::{DisplayBackend, EventToSub};
use crate::protocols::{capped, ReadReply};

verus! {

/// Every step leads from a valid state to a valid state, and the state at
/// start is valid.
pub proof fn steps_keep_the_state_valid(
    state: CoordinatorState,
    probes: Seq<Probe>,
    command: EventToSub,
)
    requires
        state.valid(),
        probes.len() <= usize::MAX,
    ensures
        CoordinatorState::initial().valid(),
        state.after_sleep().valid(),
        state.after_enumerated(probes).valid(),
        state.after_command(command).valid(),
        state.after_readings().valid(),
        state.after_write().valid(),
{
    reveal_with_fuel(backoff_for, 2);
    merged_ids_are_distinct(probes);
    match command {
        EventToSub::SetBrightness(id, value) => {
            if state.accepts(command) {
                let slot = slot_of(state.registry, id@);
                assert(0 <= slot < state.registry.len());
            }
        },
        EventToSub::Refresh => {},
    }
}

/// The backoff starts at 50 ms and is doubled by every sleep that precedes
/// an enumeration pass; reaching `Ready` sets it back.
pub proof fn backoff_doubles_until_ready(state: CoordinatorState, probes: Seq<Probe>)
    requires
        state.valid(),
    ensures
        CoordinatorState::initial().backoff_ms == 50,
        state.phase == Phase::Waiting ==> state.after_sleep().backoff_ms == 2 * state.backoff_ms
            && state.after_sleep().phase == Phase::Fetch,
        state.after_enumerated(probes).phase is Ready ==> state.after_enumerated(probes).backoff_ms
            == INITIAL_BACKOFF_MS,
        state.after_enumerated(probes).phase == Phase::Waiting ==> state.after_enumerated(
            probes,
        ).backoff_ms == state.backoff_ms,
{
}

/// A pass in which every display answered ends the enumeration at once, and
/// so does the fifth pass in which one failed, whatever failed in it. What
/// is published then is what answered in that pass.
pub proof fn enumeration_ends(state: CoordinatorState, probes: Seq<Probe>)
    requires
        state.valid(),
        state.phase == Phase::Fetch,
        !some_failed(probes) || state.failed_attempts == MAX_FAILED_ATTEMPTS - 1,
    ensures
        state.after_enumerated(probes).phase == Phase::Ready(Activity::Idle),
        state.after_enumerated(probes).registry == backends_of(merged(probes)),
        state.published(probes) is Some,
{
}

impl CoordinatorState {
    /// The state after one sleep and the enumeration pass that follows it;
    /// the state itself once it is ready.
    pub open spec fn after_pass(self, probes: Seq<Probe>) -> CoordinatorState {
        if self.phase == Phase::Waiting {
            self.after_sleep().after_enumerated(probes)
        } else {
            self
        }
    }

    /// The state after as many passes as `passes` holds, in order.
    pub open spec fn after_passes(self, passes: Seq<Seq<Probe>>) -> CoordinatorState
        decreases passes.len(),
    {
        if passes.len() == 0 {
            self
        } else {
            self.after_passes(passes.drop_last()).after_pass(passes.last())
        }
    }
}

/// After `passes` passes from the start the coordinator is ready, or it
/// waits and every pass so far has failed.
proof fn passes_count_failures(passes: Seq<Seq<Probe>>)
    requires
        forall|k: int| 0 <= k < passes.len() ==> (#[trigger] passes[k]).len() <= usize::MAX,
    ensures
        CoordinatorState::initial().after_passes(passes).valid(),
        CoordinatorState::initial().after_passes(passes).phase is Ready || (
        CoordinatorState::initial().after_passes(passes).phase == Phase::Waiting
            && CoordinatorState::initial().after_passes(passes).failed_attempts == passes.len()),
    decreases passes.len(),
{
    reveal_with_fuel(backoff_for, 2);
    if passes.len() > 0 {
        passes_count_failures(passes.drop_last());
        let state = CoordinatorState::initial().after_passes(passes.drop_last());
        assert(passes.drop_last().len() == passes.len() - 1);
        if state.phase == Phase::Waiting {
            steps_keep_the_state_valid(state, passes.last(), EventToSub::Refresh);
            steps_keep_the_state_valid(state.after_sleep(), passes.last(), EventToSub::Refresh);
        }
    }
}

/// Liveness over completeness: however the displays behave, after five
/// enumeration passes at most the coordinator is ready.
pub proof fn ready_within_five_passes(passes: Seq<Seq<Probe>>)
    requires
        passes.len() >= MAX_FAILED_ATTEMPTS,
        forall|k: int| 0 <= k < passes.len() ==> (#[trigger] passes[k]).len() <= usize::MAX,
    ensures
        CoordinatorState::initial().after_passes(passes).phase is Ready,
{
    passes_count_failures(passes);
}

/// A refresh leaves the coordinator as it found it, so a second refresh
/// against displays that answer the same gives the same updates in the same
/// order.
pub proof fn refresh_is_idempotent(state: CoordinatorState, replies: Seq<Option<ReadReply>>)
    requires
        state.valid(),
        state.phase == Phase::Ready(Activity::Idle),
    ensures
        state.after_command(EventToSub::Refresh).after_readings() == state,
        state.after_command(EventToSub::Refresh).after_readings().after_command(
            EventToSub::Refresh,
        ).updates(replies) == state.after_command(EventToSub::Refresh).updates(replies),
        state.after_command(EventToSub::Refresh).updates(replies) == answered(
            state.registry,
            replies,
            state.registry.len() as int,
        ),
{
}

/// During a refresh a display that fails its read is passed over and the
/// others are still reported: the updates for the first `n + 1` slots are
/// those for the first `n`, followed by slot `n`'s if it answered.
pub proof fn refresh_reports_each_answer(
    registry: Seq<DisplayBackend>,
    replies: Seq<Option<ReadReply>>,
    slot: int,
)
    requires
        0 <= slot < registry.len(),
    ensures
        slot < replies.len() && replies[slot] is Some && registry[slot].reading(replies[slot].unwrap())
            is Some ==> answered(registry, replies, slot + 1) == answered(registry, replies, slot).push(
            (registry[slot].spec_id(), registry[slot].reading(replies[slot].unwrap()).unwrap()),
        ),
        !(slot < replies.len() && replies[slot] is Some && registry[slot].reading(
            replies[slot].unwrap(),
        ) is Some) ==> answered(registry, replies, slot + 1) == answered(registry, replies, slot),
        answered(registry, replies, slot + 1).len() <= slot + 1,
    decreases slot,
{
    if slot > 0 {
        refresh_reports_each_answer(registry, replies, slot - 1);
    }
}

/// A set reaches the display it names and no other: the write that follows
/// carries that display's id and the value asked for, capped at 100, in that
/// display's own protocol; the registry is untouched. A set that names no
/// display of the registry changes nothing.
pub proof fn set_reaches_only_its_display(
    state: CoordinatorState,
    id: crate::monitor::DisplayId,
    value: u16,
    action: Action,
)
    requires
        state.valid(),
        state.phase == Phase::Ready(Activity::Idle),
        state.after_command(EventToSub::SetBrightness(id, value)).awaits(action),
    ensures
        !knows(state.registry, id@) ==> state.after_command(EventToSub::SetBrightness(id, value))
            == state && action == Action::AwaitCommand,
        knows(state.registry, id@) ==> {
            &&& state.after_command(EventToSub::SetBrightness(id, value)).registry == state.registry
            &&& action matches Action::Write(order)
            &&& order.id@ == id@
            &&& 0 <= slot_of(state.registry, id@) < state.registry.len()
            &&& state.registry[slot_of(state.registry, id@)].spec_id() == id@
            &&& state.registry[slot_of(state.registry, id@)].is_write_of(order.request, capped(value))
        },
{
    if knows(state.registry, id@) {
        let slot = slot_of(state.registry, id@);
        assert(0 <= slot < state.registry.len() && state.registry[slot].spec_id() == id@);
    }
}

/// Once a write has ended and the link has settled the coordinator is as it
/// was before the set, so the next set is served on its own: nothing of the
/// first write is left to leak into the second.
pub proof fn write_cycle_returns_to_idle(
    state: CoordinatorState,
    id: crate::monitor::DisplayId,
    value: u16,
    confirmed: bool,
)
    requires
        state.valid(),
        state.phase == Phase::Ready(Activity::Idle),
    ensures
        state.after_command(EventToSub::SetBrightness(id, value)).after_write().after_sleep() == state,
        knows(state.registry, id@) ==> state.after_command(
            EventToSub::SetBrightness(id, value),
        ).confirmation(confirmed) == (if confirmed {
            Some((id@, capped(value)))
        } else {
            None
        }),
{
    if knows(state.registry, id@) {
        let slot = slot_of(state.registry, id@);
        assert(0 <= slot < state.registry.len() && state.registry[slot].spec_id() == id@);
    }
}

/// Writes are kept apart: a write starts from idle only; when it has ended
/// the coordinator settles and asks for a sleep of 50 ms; while it writes or
/// settles it accepts no command; and only the end of that sleep brings it
/// back to idle.
pub proof fn writes_are_kept_apart(
    state: CoordinatorState,
    command: EventToSub,
    probes: Seq<Probe>,
    action: Action,
)
    requires
        state.valid(),
    ensures
        state.after_command(command).phase is Ready && state.after_command(command).phase->Ready_0
            is Writing && state.after_command(command) != state ==> state.phase == Phase::Ready(
            Activity::Idle,
        ),
        state.phase is Ready && state.phase->Ready_0 is Writing ==> {
            &&& state.after_write().phase == Phase::Ready(Activity::Settling)
            &&& state.after_command(command) == state
            &&& state.after_sleep() == state
            &&& state.after_readings() == state
            &&& state.after_enumerated(probes) == state
        },
        state.phase == Phase::Ready(Activity::Settling) ==> {
            &&& state.awaits(action) ==> action == Action::Sleep(SETTLE_DELAY_MS)
            &&& SETTLE_DELAY_MS == 50
            &&& state.after_command(command) == state
            &&& state.after_write() == state
            &&& state.after_readings() == state
            &&& state.after_enumerated(probes) == state
            &&& state.after_sleep().phase == Phase::Ready(Activity::Idle)
        },
{
}

/// What the driver hands back to the coordinator, one report per step.
pub enum Report {
    /// A sleep has ended.
    SleepElapsed,
    /// An enumeration pass has ended with these probes.
    Enumerated(Seq<Probe>),
    /// A command has arrived.
    Command(EventToSub),
    /// The reads of a refresh have come back.
    Readings,
    /// A write has ended.
    WriteFinished,
}

impl CoordinatorState {
    /// The state after one report.
    pub open spec fn after(self, report: Report) -> CoordinatorState {
        match report {
            Report::SleepElapsed => self.after_sleep(),
            Report::Enumerated(probes) => self.after_enumerated(probes),
            Report::Command(command) => self.after_command(command),
            Report::Readings => self.after_readings(),
            Report::WriteFinished => self.after_write(),
        }
    }

    /// The state after the first `n` of `reports`, in order.
    pub open spec fn after_first(self, reports: Seq<Report>, n: int) -> CoordinatorState
        decreases n,
    {
        if n <= 0 {
            self
        } else {
            self.after_first(reports, n - 1).after(reports[n - 1])
        }
    }

    /// A write is under way.
    pub open spec fn is_writing(self) -> bool {
        self.phase matches Phase::Ready(Activity::Writing(_, _))
    }

    /// Somewhere from step `from` up to, not including, step `to` the
    /// coordinator was settling and the sleep it asked for was reported as
    /// ended.
    pub open spec fn settled_between(self, reports: Seq<Report>, from: int, to: int) -> bool {
        exists|k: int|
            from <= k < to && (#[trigger] self.after_first(reports, k)).phase == Phase::Ready(
                Activity::Settling,
            ) && reports[k] == Report::SleepElapsed
    }
}

/// From a step at which the coordinator settles on, it settles still, or the
/// settle sleep has ended in between.
proof fn settling_ends_with_the_sleep(start: CoordinatorState, reports: Seq<Report>, from: int, to: int)
    requires
        0 <= from <= to <= reports.len(),
        start.after_first(reports, from).phase == Phase::Ready(Activity::Settling),
    ensures
        start.after_first(reports, to).phase == Phase::Ready(Activity::Settling)
            || start.settled_between(reports, from, to),
    decreases to - from,
{
    if from < to {
        settling_ends_with_the_sleep(start, reports, from, to - 1);
        let before = start.after_first(reports, to - 1);
        if start.settled_between(reports, from, to - 1) {
            let k = choose|k: int|
                from <= k < to - 1 && (#[trigger] start.after_first(reports, k)).phase == Phase::Ready(
                    Activity::Settling,
                ) && reports[k] == Report::SleepElapsed;
            assert(from <= k < to);
        } else if start.after_first(reports, to).phase != Phase::Ready(Activity::Settling) {
            assert(before.phase == Phase::Ready(Activity::Settling));
            assert(reports[to - 1] == Report::SleepElapsed);
        }
    }
}

/// From a step at which the coordinator writes on, it writes still, or it
/// settles, or the settle sleep has ended in between.
proof fn writing_ends_in_settling(start: CoordinatorState, reports: Seq<Report>, from: int, to: int)
    requires
        0 <= from <= to <= reports.len(),
        start.after_first(reports, from).is_writing(),
    ensures
        start.after_first(reports, to).is_writing() || start.after_first(reports, to).phase
            == Phase::Ready(Activity::Settling) || start.settled_between(reports, from, to),
    decreases to - from,
{
    if from < to {
        writing_ends_in_settling(start, reports, from, to - 1);
        let before = start.after_first(reports, to - 1);
        if start.settled_between(reports, from, to - 1) {
            let k = choose|k: int|
                from <= k < to - 1 && (#[trigger] start.after_first(reports, k)).phase == Phase::Ready(
                    Activity::Settling,
                ) && reports[k] == Report::SleepElapsed;
            assert(from <= k < to);
        } else if before.phase == Phase::Ready(Activity::Settling) {
            settling_ends_with_the_sleep(start, reports, to - 1, to);
            if start.settled_between(reports, to - 1, to) {
                let k = choose|k: int|
                    to - 1 <= k < to && (#[trigger] start.after_first(reports, k)).phase == Phase::Ready(
                        Activity::Settling,
                    ) && reports[k] == Report::SleepElapsed;
                assert(from <= k < to);
            }
        }
    }
}

/// Rate limiting. Whatever is reported to the coordinator and in whatever
/// order: between a step at which it writes and a later step at which it is
/// idle again, and so before any further write can start, it has settled and
/// the sleep it asks for while settling, of 50 ms, has been reported as
/// ended.
pub proof fn a_settle_sleep_follows_every_write(
    start: CoordinatorState,
    reports: Seq<Report>,
    writing: int,
    later: int,
    action: Action,
)
    requires
        0 <= writing <= later <= reports.len(),
        start.after_first(reports, writing).is_writing(),
        !start.after_first(reports, later).is_writing(),
        start.after_first(reports, later).phase != Phase::Ready(Activity::Settling),
    ensures
        start.settled_between(reports, writing, later),
        forall|state: CoordinatorState|
            state.phase == Phase::Ready(Activity::Settling) && #[trigger] state.awaits(action)
                ==> action == Action::Sleep(50),
{
    writing_ends_in_settling(start, reports, writing, later);
}

/// Two writes never follow each other directly: where the coordinator
/// writes at one step, does not write at a later one and writes again at a
/// third, the settle sleep has ended between the first and the third.
pub proof fn writes_are_separated(
    start: CoordinatorState,
    reports: Seq<Report>,
    first: int,
    between: int,
    second: int,
)
    requires
        0 <= first <= between <= second <= reports.len(),
        start.after_first(reports, first).is_writing(),
        !start.after_first(reports, between).is_writing(),
        start.after_first(reports, second).is_writing(),
    ensures
        start.settled_between(reports, first, second),
{
    writing_ends_in_settling(start, reports, first, between);
    if start.settled_between(reports, first, between) {
        let k = choose|k: int|
            first <= k < between && (#[trigger] start.after_first(reports, k)).phase == Phase::Ready(
                Activity::Settling,
            ) && reports[k] == Report::SleepElapsed;
        assert(first <= k < second);
    } else {
        settling_ends_with_the_sleep(start, reports, between, second);
        let k = choose|k: int|
            between <= k < second && (#[trigger] start.after_first(reports, k)).phase == Phase::Ready(
                Activity::Settling,
            ) && reports[k] == Report::SleepElapsed;
        assert(first <= k < second);
    }
}

/// Command isolation. Two sets for two displays, sent back to back, are both
/// queued, and served from idle one after the other they lead to two writes:
/// the first display at the first value, then the second display at the
/// second value, each in its own slot.
pub proof fn back_to_back_sets_are_both_served(
    state: CoordinatorState,
    a: crate::monitor::DisplayId,
    x: u16,
    b: crate::monitor::DisplayId,
    y: u16,
)
    requires
        state.valid(),
        state.phase == Phase::Ready(Activity::Idle),
        knows(state.registry, a@),
        knows(state.registry, b@),
        a@ != b@,
    ensures
        ({
            let first = EventToSub::SetBrightness(a, x);
            let second = EventToSub::SetBrightness(b, y);
            let queue = pushed(pushed(Seq::empty(), first), second);
            let writing_a = state.after_command(first);
            let writing_b = writing_a.after_write().after_sleep().after_command(second);
            &&& queue == seq![first, second]
            &&& last_value(queue, a@) == Some(x)
            &&& last_value(queue, b@) == Some(y)
            &&& writing_a.phase == Phase::Ready(
                Activity::Writing(slot_of(state.registry, a@) as usize, capped(x)),
            )
            &&& writing_b.phase == Phase::Ready(
                Activity::Writing(slot_of(state.registry, b@) as usize, capped(y)),
            )
            &&& writing_a.registry == state.registry
            &&& writing_b.registry == state.registry
            &&& slot_of(state.registry, a@) != slot_of(state.registry, b@)
            &&& state.registry[slot_of(state.registry, a@)].spec_id() == a@
            &&& state.registry[slot_of(state.registry, b@)].spec_id() == b@
        }),
{
    let first = EventToSub::SetBrightness(a, x);
    let second = EventToSub::SetBrightness(b, y);
    let one = pushed(Seq::empty(), first);
    assert(one =~= seq![first]);
    let queue = pushed(one, second);
    assert(queue =~= seq![first, second]);
    assert(queue.drop_last() =~= one);
    assert(one.drop_last() =~= Seq::<EventToSub>::empty());
    reveal_with_fuel(last_value, 3);
    let slot_a = slot_of(state.registry, a@);
    let slot_b = slot_of(state.registry, b@);
    assert(0 <= slot_a < state.registry.len() && state.registry[slot_a].spec_id() == a@);
    assert(0 <= slot_b < state.registry.len() && state.registry[slot_b].spec_id() == b@);
}

/// Partial-failure resilience. The pass that ends the enumeration publishes
/// every display that answered in it, whatever the others did: each such
/// display stands in the snapshot under its id.
pub proof fn published_snapshot_holds_every_answer(
    state: CoordinatorState,
    probes: Seq<Probe>,
    i: int,
)
    requires
        state.valid(),
        state.phase == Phase::Fetch,
        state.settles_on(probes),
        0 <= i < probes.len(),
        probes[i].reading() is Some,
    ensures
        state.published(probes) == Some(snapshot_of(merged(probes))),
        exists|k: int|
            0 <= k < snapshot_of(merged(probes)).len() && (#[trigger] snapshot_of(merged(probes))[k]).0
                == probes[i].backend.spec_id(),
        knows(state.after_enumerated(probes).registry, probes[i].backend.spec_id()),
{
    merged_holds_every_answer(probes, i);
    let id = probes[i].backend.spec_id();
    let slot = slot_of(backends_of(merged(probes)), id);
    assert(0 <= slot < merged(probes).len() && backends_of(merged(probes))[slot].spec_id() == id);
    assert(snapshot_of(merged(probes))[slot].0 == id);
}

} // verus!
