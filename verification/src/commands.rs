//! The command path from the consumer to the coordinator: a queue that hands
//! commands on in the order they came, and drops a command only where it
//! repeats the one that came just before it.

use vstd::prelude::*;
use crate::monitor::EventToSub;

verus! {

/// Two commands ask for the same thing: both a refresh, or both a set of the
/// same display to the same value.
pub open spec fn same_command(a: EventToSub, b: EventToSub) -> bool {
    match (a, b) {
        (EventToSub::Refresh, EventToSub::Refresh) => true,
        (EventToSub::SetBrightness(i, v), EventToSub::SetBrightness(j, w)) => i@ == j@ && v == w,
        _ => false,
    }
}

/// The display that a command aims at; none for a refresh.
pub open spec fn target(command: EventToSub) -> Option<Seq<char>> {
    match command {
        EventToSub::Refresh => None,
        EventToSub::SetBrightness(id, _) => Some(id@),
    }
}

/// A queue after `command` has come in: unchanged where the command repeats
/// the last one waiting, one longer otherwise.
pub open spec fn pushed(queue: Seq<EventToSub>, command: EventToSub) -> Seq<EventToSub> {
    if queue.len() > 0 && same_command(queue.last(), command) {
        queue
    } else {
        queue.push(command)
    }
}

/// The value that `id` is left at once every command of `queue` has been
/// served in order; none where no command sets it.
pub open spec fn last_value(queue: Seq<EventToSub>, id: Seq<char>) -> Option<u16>
    decreases queue.len(),
{
    if queue.len() == 0 {
        None
    } else {
        match queue.last() {
            EventToSub::SetBrightness(target, value) if target@ == id => Some(value),
            _ => last_value(queue.drop_last(), id),
        }
    }
}

/// Decides whether two commands ask for the same thing.
pub fn is_same_command(a: &EventToSub, b: &EventToSub) -> (same: bool)
    ensures
        same == same_command(*a, *b),
{
    match a {
        EventToSub::Refresh => match b {
            EventToSub::Refresh => true,
            EventToSub::SetBrightness(_, _) => false,
        },
        EventToSub::SetBrightness(i, v) => match b {
            EventToSub::Refresh => false,
            EventToSub::SetBrightness(j, w) => *i == *j && *v == *w,
        },
    }
}

/// The commands that wait to be served, oldest first.
#[derive(Debug)]
pub struct CommandQueue {
    waiting: Vec<EventToSub>,
}

impl View for CommandQueue {
    type V = Seq<EventToSub>;

    closed spec fn view(&self) -> Seq<EventToSub> {
        self.waiting@
    }
}

impl CommandQueue {
    /// A queue with nothing waiting.
    pub fn new() -> (queue: CommandQueue)
        ensures
            queue@ == Seq::<EventToSub>::empty(),
    {
        CommandQueue { waiting: Vec::new() }
    }

    /// Number of commands waiting.
    pub fn len(&self) -> (count: usize)
        ensures
            count == self@.len(),
    {
        self.waiting.len()
    }

    /// Whether nothing waits.
    pub fn is_empty(&self) -> (empty: bool)
        ensures
            empty == (self@.len() == 0),
    {
        self.waiting.len() == 0
    }

    /// Takes a command in. Says whether it was queued; it is not where it
    /// repeats the command that came just before it and still waits.
    pub fn push(&mut self, command: EventToSub) -> (queued: bool)
        ensures
            final(self)@ == pushed(old(self)@, command),
            queued == !(old(self)@.len() > 0 && same_command(old(self)@.last(), command)),
    {
        let count = self.waiting.len();
        if count > 0 && is_same_command(&self.waiting[count - 1], &command) {
            false
        } else {
            self.waiting.push(command);
            true
        }
    }

    /// Hands out the oldest command waiting, if any.
    pub fn pop(&mut self) -> (next: Option<EventToSub>)
        ensures
            old(self)@.len() == 0 ==> next is None && final(self)@ == old(self)@,
            old(self)@.len() > 0 ==> next == Some(old(self)@[0]) && final(self)@ == old(self)@.subrange(
                1,
                old(self)@.len() as int,
            ),
    {
        if self.waiting.len() == 0 {
            None
        } else {
            let next = self.waiting.remove(0);
            assert(self.waiting@ =~= old(self).waiting@.subrange(1, old(self).waiting@.len() as int));
            Some(next)
        }
    }
}

/// A command is never dropped for one that aims elsewhere: where the last
/// command waiting aims at another display, or is of another kind, the new
/// one is queued behind it, and everything that waited still waits in its
/// place.
pub proof fn commands_for_other_displays_are_kept(queue: Seq<EventToSub>, command: EventToSub)
    ensures
        queue.len() == 0 || target(queue.last()) != target(command) ==> pushed(queue, command)
            == queue.push(command),
        forall|i: int| 0 <= i < queue.len() ==> pushed(queue, command)[i] == queue[i],
        queue.len() <= pushed(queue, command).len() <= queue.len() + 1,
{
}

/// Dropping a repeated command changes no outcome: every display is left
/// at the value it would have been left at had the command been queued.
pub proof fn dropping_a_repeat_changes_nothing(
    queue: Seq<EventToSub>,
    command: EventToSub,
    id: Seq<char>,
)
    ensures
        last_value(pushed(queue, command), id) == last_value(queue.push(command), id),
{
    let longer = queue.push(command);
    assert(longer.drop_last() =~= queue);
    assert(longer.last() == command);
}

} // verus!
