//! The polling coordinator: which outside work comes next, and what each
//! outcome of that work leads to.
//!
//! The coordinator never sleeps, reads or writes. It says what it waits for
//! ([`Coordinator::next_action`]); whoever drives it does that work and hands
//! the outcome back through the method that belongs to it. Each display is
//! named by its id in what goes out, and by its slot in the registry inside.
//!
//! The behaviour is written down once, on [`CoordinatorState`], and the
//! executable [`Coordinator`] is proved to follow it step by step.

use vstd::prelude::*;
use crate::enumeration::{
    backends_of, distinct_ids, find_slot, knows, merge, merged, slot_is_unique, slot_of, snapshot_of,
    snapshot_views, some_failed, Probe,
};
use crate::monitor::{BrightnessUpdated, DisplayBackend, DisplayId, EventToSub, MonitorInfo};
use crate::protocols::{capped, cap_percentage, ReadReply, ReadRequest, WriteRequest};

verus! {

/// Sleep before the first enumeration, in milliseconds; doubled before each
/// retry.
pub const INITIAL_BACKOFF_MS: u64 = 50;

/// Pause after each write, in milliseconds: the link cannot take writes back
/// to back.
pub const SETTLE_DELAY_MS: u64 = 50;

/// Failing enumeration passes after which whatever answered is published.
pub const MAX_FAILED_ATTEMPTS: u32 = 5;

/// What the coordinator is busy with while it is ready.
#[derive(Debug, Clone, Copy, PartialEq, Eq, Structural)]
pub enum Activity {
    /// Nothing: the next command is awaited.
    Idle,
    /// Every display is being read.
    Refreshing,
    /// The display in this slot of the registry is being set to this value.
    Writing(usize, u16),
    /// A write has ended and the link is left alone for a moment.
    Settling,
}

/// The coordinator's state.
#[derive(Debug, Clone, Copy, PartialEq, Eq, Structural)]
pub enum Phase {
    /// Sleeping before the next enumeration.
    Waiting,
    /// Enumerating the displays.
    Fetch,
    /// Serving commands.
    Ready(Activity),
}

/// One read to perform.
#[derive(Debug, Clone)]
pub struct ReadOrder {
    /// The display to read.
    pub id: DisplayId,
    /// What to send it.
    pub request: ReadRequest,
}

/// One write to perform.
#[derive(Debug, Clone)]
pub struct WriteOrder {
    /// The display to set.
    pub id: DisplayId,
    /// What to send it.
    pub request: WriteRequest,
}

/// The outside work that the coordinator waits for.
#[derive(Debug, Clone)]
pub enum Action {
    /// Sleep this many milliseconds, then report with `sleep_elapsed`.
    Sleep(u64),
    /// Enumerate the displays and read each, then report with `enumerated`.
    Enumerate,
    /// Wait for the next command, then report with `command`.
    AwaitCommand,
    /// Perform these reads, one per display of the registry and in its
    /// order, then report with `readings`.
    ReadAll(Vec<ReadOrder>),
    /// Perform this write and let it finish, then report with
    /// `write_finished`.
    Write(WriteOrder),
}

/// What the display in slot `i` answered during a refresh, or nothing where
/// it gave no answer.
pub open spec fn reading_at(
    registry: Seq<DisplayBackend>,
    replies: Seq<Option<ReadReply>>,
    i: int,
) -> Option<u16> {
    if 0 <= i < registry.len() && i < replies.len() {
        match replies[i] {
            Some(reply) => registry[i].reading(reply),
            None => None,
        }
    } else {
        None
    }
}

/// The updates that a refresh gives for the first `n` slots: id and
/// brightness of each display that answered, in registry order.
pub open spec fn answered(
    registry: Seq<DisplayBackend>,
    replies: Seq<Option<ReadReply>>,
    n: int,
) -> Seq<(Seq<char>, u16)>
    decreases n,
{
    if n <= 0 {
        Seq::empty()
    } else {
        let before = answered(registry, replies, n - 1);
        match reading_at(registry, replies, n - 1) {
            Some(brightness) => before.push((registry[n - 1].spec_id(), brightness)),
            None => before,
        }
    }
}

/// The sleep before the enumeration that follows `attempts` failing passes.
pub open spec fn backoff_for(attempts: int) -> int
    decreases attempts,
{
    if attempts <= 0 {
        INITIAL_BACKOFF_MS as int
    } else {
        2 * backoff_for(attempts - 1)
    }
}

/// Id and brightness of each update of a list.
pub open spec fn update_views(updates: Seq<BrightnessUpdated>) -> Seq<(Seq<char>, u16)> {
    Seq::new(updates.len(), |i: int| (updates[i].id@, updates[i].brightness))
}

/// The coordinator as a value: its phase, the two counters, and the displays
/// it owns.
pub struct CoordinatorState {
    /// The phase.
    pub phase: Phase,
    /// The sleep that `Waiting` asks for, in milliseconds.
    pub backoff_ms: int,
    /// Enumeration passes so far in which some display failed its read.
    pub failed_attempts: int,
    /// The displays of the last published enumeration.
    pub registry: Seq<DisplayBackend>,
}

impl CoordinatorState {
    /// The state at start: waiting, with the initial backoff and nothing
    /// enumerated.
    pub open spec fn initial() -> CoordinatorState {
        CoordinatorState {
            phase: Phase::Waiting,
            backoff_ms: INITIAL_BACKOFF_MS as int,
            failed_attempts: 0,
            registry: Seq::empty(),
        }
    }

    /// What holds of every state the coordinator reaches.
    pub open spec fn valid(self) -> bool {
        &&& distinct_ids(self.registry)
        &&& self.registry.len() <= usize::MAX
        &&& match self.phase {
            Phase::Waiting => {
                &&& 0 <= self.failed_attempts < MAX_FAILED_ATTEMPTS
                &&& self.backoff_ms == backoff_for(self.failed_attempts)
                &&& self.registry.len() == 0
            },
            Phase::Fetch => {
                &&& 0 <= self.failed_attempts < MAX_FAILED_ATTEMPTS
                &&& self.backoff_ms == 2 * backoff_for(self.failed_attempts)
                &&& self.registry.len() == 0
            },
            Phase::Ready(activity) => {
                &&& 0 <= self.failed_attempts <= MAX_FAILED_ATTEMPTS
                &&& self.backoff_ms == INITIAL_BACKOFF_MS
                &&& (activity matches Activity::Writing(slot, value) ==> slot < self.registry.len()
                    && value <= 100)
            },
        }
    }

    /// The action that `action` must be in this state.
    pub open spec fn awaits(self, action: Action) -> bool {
        match self.phase {
            Phase::Waiting => action == Action::Sleep(self.backoff_ms as u64),
            Phase::Fetch => action == Action::Enumerate,
            Phase::Ready(Activity::Idle) => action == Action::AwaitCommand,
            Phase::Ready(Activity::Refreshing) => {
                &&& action matches Action::ReadAll(orders)
                &&& orders.len() == self.registry.len()
                &&& forall|i: int|
                    0 <= i < orders.len() ==> (#[trigger] orders[i]).id@ == self.registry[i].spec_id()
                        && self.registry[i].is_read_request(orders[i].request)
            },
            Phase::Ready(Activity::Writing(slot, value)) => {
                &&& action matches Action::Write(order)
                &&& order.id@ == self.registry[slot as int].spec_id()
                &&& self.registry[slot as int].is_write_of(order.request, value)
            },
            Phase::Ready(Activity::Settling) => action == Action::Sleep(SETTLE_DELAY_MS),
        }
    }

    /// The state after a sleep has ended: from `Waiting` on to `Fetch`, the
    /// next backoff twice as long; from settling back to idle.
    pub open spec fn after_sleep(self) -> CoordinatorState {
        match self.phase {
            Phase::Waiting => CoordinatorState {
                phase: Phase::Fetch,
                backoff_ms: 2 * self.backoff_ms,
                ..self
            },
            Phase::Ready(Activity::Settling) => CoordinatorState {
                phase: Phase::Ready(Activity::Idle),
                ..self
            },
            _ => self,
        }
    }

    /// An enumeration pass with these probes ends the enumeration: no read
    /// failed, or this was the last pass allowed to fail.
    pub open spec fn settles_on(self, probes: Seq<Probe>) -> bool {
        !some_failed(probes) || self.failed_attempts + 1 >= MAX_FAILED_ATTEMPTS
    }

    /// The state after an enumeration pass: ready with the displays that
    /// answered, or waiting for another pass.
    pub open spec fn after_enumerated(self, probes: Seq<Probe>) -> CoordinatorState {
        if self.phase != Phase::Fetch {
            self
        } else {
            let attempts = if some_failed(probes) {
                self.failed_attempts + 1
            } else {
                self.failed_attempts
            };
            if self.settles_on(probes) {
                CoordinatorState {
                    phase: Phase::Ready(Activity::Idle),
                    backoff_ms: INITIAL_BACKOFF_MS as int,
                    failed_attempts: attempts,
                    registry: backends_of(merged(probes)),
                }
            } else {
                CoordinatorState { phase: Phase::Waiting, failed_attempts: attempts, ..self }
            }
        }
    }

    /// The snapshot that an enumeration pass publishes, if it publishes one.
    pub open spec fn published(self, probes: Seq<Probe>) -> Option<Seq<(Seq<char>, Seq<char>, u16)>> {
        if self.phase == Phase::Fetch && self.settles_on(probes) {
            Some(snapshot_of(merged(probes)))
        } else {
            None
        }
    }

    /// This command starts work in this state: the coordinator is idle, and
    /// the display that a set names is in the registry.
    pub open spec fn accepts(self, command: EventToSub) -> bool {
        self.phase == Phase::Ready(Activity::Idle) && match command {
            EventToSub::Refresh => true,
            EventToSub::SetBrightness(id, _) => knows(self.registry, id@),
        }
    }

    /// The state after a command: reading every display for a refresh,
    /// writing the named display for a set, unchanged where the command is
    /// not accepted.
    pub open spec fn after_command(self, command: EventToSub) -> CoordinatorState {
        if !self.accepts(command) {
            self
        } else {
            match command {
                EventToSub::Refresh => CoordinatorState {
                    phase: Phase::Ready(Activity::Refreshing),
                    ..self
                },
                EventToSub::SetBrightness(id, value) => CoordinatorState {
                    phase: Phase::Ready(
                        Activity::Writing(slot_of(self.registry, id@) as usize, capped(value)),
                    ),
                    ..self
                },
            }
        }
    }

    /// The state after the reads of a refresh came back: idle again.
    pub open spec fn after_readings(self) -> CoordinatorState {
        if self.phase == Phase::Ready(Activity::Refreshing) {
            CoordinatorState { phase: Phase::Ready(Activity::Idle), ..self }
        } else {
            self
        }
    }

    /// The updates that the reads of a refresh give: one for each display
    /// that answered, in registry order.
    pub open spec fn updates(self, replies: Seq<Option<ReadReply>>) -> Seq<(Seq<char>, u16)> {
        if self.phase == Phase::Ready(Activity::Refreshing) {
            answered(self.registry, replies, self.registry.len() as int)
        } else {
            Seq::empty()
        }
    }

    /// The state after a write has ended, well or not: settling.
    pub open spec fn after_write(self) -> CoordinatorState {
        match self.phase {
            Phase::Ready(Activity::Writing(_, _)) => CoordinatorState {
                phase: Phase::Ready(Activity::Settling),
                ..self
            },
            _ => self,
        }
    }

    /// The update that the end of a write gives: the display and the value
    /// written, where the write was confirmed.
    pub open spec fn confirmation(self, confirmed: bool) -> Option<(Seq<char>, u16)> {
        match self.phase {
            Phase::Ready(Activity::Writing(slot, value)) => if confirmed {
                Some((self.registry[slot as int].spec_id(), value))
            } else {
                None
            },
            _ => None,
        }
    }
}

/// The displays that a coordinator owns, and where it stands.
#[derive(Debug)]
pub struct Coordinator {
    phase: Phase,
    backoff_ms: u64,
    failed_attempts: u32,
    registry: Vec<DisplayBackend>,
}

impl View for Coordinator {
    type V = CoordinatorState;

    closed spec fn view(&self) -> CoordinatorState {
        CoordinatorState {
            phase: self.phase,
            backoff_ms: self.backoff_ms as int,
            failed_attempts: self.failed_attempts as int,
            registry: self.registry@,
        }
    }
}

/// The backoff stays small: it is doubled five times at most.
pub proof fn backoff_is_bounded(attempts: int)
    requires
        0 <= attempts <= MAX_FAILED_ATTEMPTS,
    ensures
        INITIAL_BACKOFF_MS <= backoff_for(attempts) <= 32 * INITIAL_BACKOFF_MS,
{
    reveal_with_fuel(backoff_for, 7);
}

impl Coordinator {
    #[verifier::type_invariant]
    spec fn holds_a_valid_state(&self) -> bool {
        self@.valid()
    }

    /// A coordinator at start.
    pub fn new() -> (coordinator: Coordinator)
        ensures
            coordinator@ == CoordinatorState::initial(),
            coordinator@.valid(),
    {
        Coordinator {
            phase: Phase::Waiting,
            backoff_ms: INITIAL_BACKOFF_MS,
            failed_attempts: 0,
            registry: Vec::new(),
        }
    }

    /// The phase.
    pub fn phase(&self) -> (phase: Phase)
        ensures
            phase == self@.phase,
    {
        self.phase
    }

    /// The sleep that `Waiting` asks for, in milliseconds.
    pub fn backoff_ms(&self) -> (backoff: u64)
        ensures
            backoff == self@.backoff_ms,
    {
        self.backoff_ms
    }

    /// Enumeration passes so far in which some display failed its read.
    pub fn failed_attempts(&self) -> (attempts: u32)
        ensures
            attempts == self@.failed_attempts,
    {
        self.failed_attempts
    }

    /// Number of displays in the registry.
    pub fn display_count(&self) -> (count: usize)
        ensures
            count == self@.registry.len(),
    {
        self.registry.len()
    }

    /// The outside work that the coordinator waits for.
    pub fn next_action(&self) -> (action: Action)
        ensures
            self@.awaits(action),
            self@.valid(),
    {
        proof {
            use_type_invariant(self);
        }
        match self.phase {
            Phase::Waiting => Action::Sleep(self.backoff_ms),
            Phase::Fetch => Action::Enumerate,
            Phase::Ready(Activity::Idle) => Action::AwaitCommand,
            Phase::Ready(Activity::Refreshing) => {
                let mut orders: Vec<ReadOrder> = Vec::new();
                let mut i: usize = 0;
                while i < self.registry.len()
                    invariant
                        i <= self.registry.len(),
                        orders.len() == i,
                        forall|k: int|
                            0 <= k < i ==> (#[trigger] orders[k]).id@ == self.registry[k].spec_id()
                                && self.registry[k].is_read_request(orders[k].request),
                    decreases self.registry.len() - i,
                {
                    let backend = &self.registry[i];
                    orders.push(ReadOrder { id: backend.id(), request: backend.read_request() });
                    i += 1;
                }
                Action::ReadAll(orders)
            },
            Phase::Ready(Activity::Writing(slot, value)) => {
                let backend = &self.registry[slot];
                Action::Write(WriteOrder { id: backend.id(), request: backend.write_request(value) })
            },
            Phase::Ready(Activity::Settling) => Action::Sleep(SETTLE_DELAY_MS),
        }
    }

    /// Reports that the sleep asked for has ended.
    pub fn sleep_elapsed(&mut self)
        ensures
            final(self)@ == old(self)@.after_sleep(),
            final(self)@.valid(),
    {
        proof {
            use_type_invariant(&*self);
            backoff_is_bounded(self.failed_attempts as int);
        }
        match self.phase {
            Phase::Waiting => {
                let ghost before = self@;
                *self = Coordinator {
                    phase: Phase::Fetch,
                    backoff_ms: 2 * self.backoff_ms,
                    failed_attempts: self.failed_attempts,
                    registry: Vec::new(),
                };
                assert(self@.registry =~= before.registry);
            },
            Phase::Ready(Activity::Settling) => {
                self.phase = Phase::Ready(Activity::Idle);
            },
            _ => {},
        }
    }

    /// Reports an enumeration pass: every display met, with its answer.
    /// Gives the snapshot to publish where the pass ends the enumeration.
    pub fn enumerated(&mut self, probes: &Vec<Probe>) -> (snapshot: Option<Vec<(DisplayId, MonitorInfo)>>)
        ensures
            final(self)@ == old(self)@.after_enumerated(probes@),
            final(self)@.valid(),
            match snapshot {
                Some(published) => old(self)@.published(probes@) == Some(snapshot_views(published@)),
                None => old(self)@.published(probes@) is None,
            },
            snapshot matches Some(published) ==> forall|k: int|
                0 <= k < published.len() ==> (#[trigger] published[k]).1.brightness <= 100,
    {
        proof {
            use_type_invariant(&*self);
        }
        match self.phase {
            Phase::Fetch => {},
            _ => {
                return None;
            },
        }
        let (registry, snapshot, failed) = merge(probes);
        let attempts: u32 = if failed {
            self.failed_attempts + 1
        } else {
            self.failed_attempts
        };
        let ghost before = self@;
        if !failed || attempts >= MAX_FAILED_ATTEMPTS {
            let count: usize = registry.len();
            assert(registry@.len() == count);
            *self = Coordinator {
                phase: Phase::Ready(Activity::Idle),
                backoff_ms: INITIAL_BACKOFF_MS,
                failed_attempts: attempts,
                registry,
            };
            Some(snapshot)
        } else {
            proof {
                reveal_with_fuel(backoff_for, 2);
            }
            *self = Coordinator {
                phase: Phase::Waiting,
                backoff_ms: self.backoff_ms,
                failed_attempts: attempts,
                registry: Vec::new(),
            };
            assert(self@.registry =~= before.registry);
            None
        }
    }

    /// Hands over a command. Says whether it started work: a refresh does
    /// while the coordinator is idle, a set does if its display is known
    /// too; any other command changes nothing.
    pub fn command(&mut self, command: &EventToSub) -> (accepted: bool)
        ensures
            accepted == old(self)@.accepts(*command),
            final(self)@ == old(self)@.after_command(*command),
            final(self)@.valid(),
    {
        proof {
            use_type_invariant(&*self);
        }
        match self.phase {
            Phase::Ready(Activity::Idle) => {},
            _ => {
                return false;
            },
        }
        match command {
            EventToSub::Refresh => {
                self.phase = Phase::Ready(Activity::Refreshing);
                true
            },
            EventToSub::SetBrightness(id, value) => {
                match find_slot(&self.registry, id) {
                    Some(slot) => {
                        proof {
                            slot_is_unique(self.registry@, id@, slot as int);
                        }
                        self.phase = Phase::Ready(Activity::Writing(slot, cap_percentage(*value)));
                        true
                    },
                    None => false,
                }
            },
        }
    }

    /// Reports what the displays answered to the reads of a refresh, slot by
    /// slot; no reply, or none at all for a slot, where the read failed.
    /// Gives the updates to publish.
    pub fn readings(&mut self, replies: &Vec<Option<ReadReply>>) -> (updates: Vec<BrightnessUpdated>)
        ensures
            final(self)@ == old(self)@.after_readings(),
            final(self)@.valid(),
            update_views(updates@) == old(self)@.updates(replies@),
            forall|k: int| 0 <= k < updates.len() ==> (#[trigger] updates[k]).brightness <= 100,
    {
        proof {
            use_type_invariant(&*self);
        }
        let mut updates: Vec<BrightnessUpdated> = Vec::new();
        match self.phase {
            Phase::Ready(Activity::Refreshing) => {},
            _ => {
                assert(update_views(updates@) =~= Seq::empty());
                return updates;
            },
        }
        let mut i: usize = 0;
        assert(update_views(updates@) =~= answered(self.registry@, replies@, 0));
        while i < self.registry.len()
            invariant
                i <= self.registry.len(),
                update_views(updates@) =~= answered(self.registry@, replies@, i as int),
                forall|k: int| 0 <= k < updates.len() ==> (#[trigger] updates[k]).brightness <= 100,
            decreases self.registry.len() - i,
        {
            let reading = if i < replies.len() {
                match &replies[i] {
                    Some(reply) => self.registry[i].decode_reading(reply),
                    None => None,
                }
            } else {
                None
            };
            assert(reading == reading_at(self.registry@, replies@, i as int));
            match reading {
                Some(brightness) => {
                    let id = self.registry[i].id();
                    updates.push(BrightnessUpdated { id, brightness });
                },
                None => {},
            }
            i += 1;
        }
        self.phase = Phase::Ready(Activity::Idle);
        updates
    }

    /// Reports that the write asked for has ended, and whether the display
    /// confirmed it. Gives the update to publish where it did.
    pub fn write_finished(&mut self, confirmed: bool) -> (update: Option<BrightnessUpdated>)
        ensures
            final(self)@ == old(self)@.after_write(),
            final(self)@.valid(),
            match update {
                Some(u) => old(self)@.confirmation(confirmed) == Some((u.id@, u.brightness))
                    && u.brightness <= 100,
                None => old(self)@.confirmation(confirmed) is None,
            },
    {
        proof {
            use_type_invariant(&*self);
        }
        match self.phase {
            Phase::Ready(Activity::Writing(slot, value)) => {
                let update = if confirmed {
                    Some(BrightnessUpdated { id: self.registry[slot].id(), brightness: value })
                } else {
                    None
                };
                self.phase = Phase::Ready(Activity::Settling);
                update
            },
            _ => None,
        }
    }
}

} // verus!
