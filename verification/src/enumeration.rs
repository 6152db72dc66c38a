//! One enumeration pass: the displays that were met, what each answered, and
//! what the pass leaves in the registry and in the published snapshot.

use vstd::prelude::*;
use crate::monitor::{reading_is_a_percentage, DisplayBackend, DisplayId, MonitorInfo};
use crate::protocols::ReadReply;

verus! {

/// One display met during enumeration, and what it answered when asked for
/// its brightness; no reply where the read failed.
#[derive(Debug, Clone)]
pub struct Probe {
    /// The display.
    pub backend: DisplayBackend,
    /// Its answer.
    pub reply: Option<ReadReply>,
}

/// A display of an enumeration pass with the brightness it answered.
pub struct Entry {
    /// The display.
    pub backend: DisplayBackend,
    /// Its brightness, 0 to 100.
    pub brightness: u16,
}

impl Probe {
    /// The brightness that the display answered, or nothing where the read
    /// failed or the answer is not one of the display's protocol.
    pub open spec fn reading(&self) -> Option<u16> {
        match self.reply {
            Some(reply) => self.backend.reading(reply),
            None => None,
        }
    }
}

/// Some display of `registry` is kept under `id`.
pub open spec fn knows(registry: Seq<DisplayBackend>, id: Seq<char>) -> bool {
    exists|i: int| 0 <= i < registry.len() && (#[trigger] registry[i]).spec_id() == id
}

/// The slot of `registry` that holds the display kept under `id`.
pub open spec fn slot_of(registry: Seq<DisplayBackend>, id: Seq<char>) -> int {
    choose|i: int| 0 <= i < registry.len() && (#[trigger] registry[i]).spec_id() == id
}

/// No two displays of `registry` share an id.
pub open spec fn distinct_ids(registry: Seq<DisplayBackend>) -> bool {
    forall|i: int, j: int|
        0 <= i < j < registry.len() ==> (#[trigger] registry[i]).spec_id() != (
        #[trigger] registry[j]).spec_id()
}

/// The displays of a list of entries.
pub open spec fn backends_of(entries: Seq<Entry>) -> Seq<DisplayBackend> {
    Seq::new(entries.len(), |i: int| entries[i].backend)
}

/// What is published of a list of entries: for each its id, its name and its
/// brightness.
pub open spec fn snapshot_of(entries: Seq<Entry>) -> Seq<(Seq<char>, Seq<char>, u16)> {
    Seq::new(
        entries.len(),
        |i: int| (entries[i].backend.spec_id(), entries[i].backend.spec_name(), entries[i].brightness),
    )
}

/// Id, name and brightness of each display of a published snapshot.
pub open spec fn snapshot_views(snapshot: Seq<(DisplayId, MonitorInfo)>) -> Seq<
    (Seq<char>, Seq<char>, u16),
> {
    Seq::new(snapshot.len(), |i: int| (snapshot[i].0@, snapshot[i].1.name@, snapshot[i].1.brightness))
}

/// `entries` with `entry` put in: in place of the entry with the same id
/// where there is one, at the end otherwise.
pub open spec fn put(entries: Seq<Entry>, entry: Entry) -> Seq<Entry> {
    let id = entry.backend.spec_id();
    if knows(backends_of(entries), id) {
        entries.update(slot_of(backends_of(entries), id), entry)
    } else {
        entries.push(entry)
    }
}

/// The displays that answered during an enumeration pass, each id once, a
/// later probe replacing an earlier one with the same id.
pub open spec fn merged(probes: Seq<Probe>) -> Seq<Entry>
    decreases probes.len(),
{
    if probes.len() == 0 {
        Seq::empty()
    } else {
        let before = merged(probes.drop_last());
        match probes.last().reading() {
            Some(brightness) => put(before, Entry { backend: probes.last().backend, brightness }),
            None => before,
        }
    }
}

/// Some display of the pass failed its read.
pub open spec fn some_failed(probes: Seq<Probe>) -> bool {
    exists|i: int| 0 <= i < probes.len() && (#[trigger] probes[i]).reading() is None
}

/// Where ids are distinct, the slot of an id is the one slot that holds it.
pub proof fn slot_is_unique(registry: Seq<DisplayBackend>, id: Seq<char>, i: int)
    requires
        distinct_ids(registry),
        0 <= i < registry.len(),
        registry[i].spec_id() == id,
    ensures
        knows(registry, id),
        slot_of(registry, id) == i,
{
    let j = slot_of(registry, id);
    assert(0 <= j < registry.len() && registry[j].spec_id() == id);
    if j < i {
        assert(registry[j].spec_id() != registry[i].spec_id());
    }
    if i < j {
        assert(registry[i].spec_id() != registry[j].spec_id());
    }
}

/// Putting an entry into a list with distinct ids leaves the ids distinct.
pub proof fn put_keeps_ids_distinct(entries: Seq<Entry>, entry: Entry)
    requires
        distinct_ids(backends_of(entries)),
    ensures
        distinct_ids(backends_of(put(entries, entry))),
        put(entries, entry).len() <= entries.len() + 1,
{
    let before = backends_of(entries);
    let after = backends_of(put(entries, entry));
    let id = entry.backend.spec_id();
    if knows(before, id) {
        let slot = slot_of(before, id);
        assert(0 <= slot < before.len() && before[slot].spec_id() == id);
        assert forall|i: int, j: int| 0 <= i < j < after.len() implies (#[trigger] after[i]).spec_id() != (
        #[trigger] after[j]).spec_id() by {
            assert(after[i].spec_id() == before[i].spec_id());
            assert(after[j].spec_id() == before[j].spec_id());
        }
    } else {
        assert forall|i: int, j: int| 0 <= i < j < after.len() implies (#[trigger] after[i]).spec_id() != (
        #[trigger] after[j]).spec_id() by {
            if j < before.len() {
                assert(after[i] == before[i] && after[j] == before[j]);
            } else {
                assert(after[i] == before[i]);
                assert(after[j].spec_id() == id);
            }
        }
    }
}

/// The displays that answered in a pass are kept under distinct ids, and
/// there are no more of them than probes.
pub proof fn merged_ids_are_distinct(probes: Seq<Probe>)
    ensures
        distinct_ids(backends_of(merged(probes))),
        merged(probes).len() <= probes.len(),
    decreases probes.len(),
{
    if probes.len() > 0 {
        merged_ids_are_distinct(probes.drop_last());
        match probes.last().reading() {
            Some(brightness) => {
                put_keeps_ids_distinct(
                    merged(probes.drop_last()),
                    Entry { backend: probes.last().backend, brightness },
                );
            },
            None => {},
        }
    }
}

/// Every display that answered in a pass is in what the pass publishes.
pub proof fn merged_holds_every_answer(probes: Seq<Probe>, i: int)
    requires
        0 <= i < probes.len(),
        probes[i].reading() is Some,
    ensures
        knows(backends_of(merged(probes)), probes[i].backend.spec_id()),
    decreases probes.len(),
{
    let before = merged(probes.drop_last());
    let id = probes[i].backend.spec_id();
    let after = backends_of(merged(probes));
    if i < probes.len() - 1 {
        merged_holds_every_answer(probes.drop_last(), i);
        assert(probes.drop_last()[i] == probes[i]);
        let slot = slot_of(backends_of(before), id);
        assert(0 <= slot < before.len() && backends_of(before)[slot].spec_id() == id);
        match probes.last().reading() {
            Some(brightness) => {
                let entry = Entry { backend: probes.last().backend, brightness };
                let other = entry.backend.spec_id();
                if knows(backends_of(before), other) {
                    let place = slot_of(backends_of(before), other);
                    assert(0 <= place < before.len() && backends_of(before)[place].spec_id() == other);
                    assert(after[slot].spec_id() == id);
                } else {
                    assert(after[slot].spec_id() == id);
                }
            },
            None => {},
        }
    } else {
        let entry = Entry { backend: probes.last().backend, brightness: probes.last().reading().unwrap() };
        if knows(backends_of(before), id) {
            let place = slot_of(backends_of(before), id);
            assert(0 <= place < before.len() && backends_of(before)[place].spec_id() == id);
            assert(after[place].spec_id() == id);
        } else {
            assert(after[before.len() as int].spec_id() == id);
        }
    }
}

/// Everything that a pass publishes is a display of the pass with the
/// brightness it answered, which is a percentage.
pub proof fn merged_holds_only_answers(probes: Seq<Probe>, k: int)
    requires
        0 <= k < merged(probes).len(),
    ensures
        exists|i: int|
            0 <= i < probes.len() && (#[trigger] probes[i]).backend == merged(probes)[k].backend
                && probes[i].reading() == Some(merged(probes)[k].brightness),
        merged(probes)[k].brightness <= 100,
    decreases probes.len(),
{
    if probes.len() > 0 {
        let shorter = probes.drop_last();
        let before = merged(shorter);
        let last = probes.len() - 1;
        let from_before = k < before.len() && merged(probes)[k] == before[k];
        if from_before {
            merged_holds_only_answers(shorter, k);
            let i = choose|i: int|
                0 <= i < shorter.len() && (#[trigger] shorter[i]).backend == before[k].backend
                    && shorter[i].reading() == Some(before[k].brightness);
            assert(probes[i] == shorter[i]);
        } else {
            let brightness = probes.last().reading().unwrap();
            let entry = Entry { backend: probes.last().backend, brightness };
            let id = entry.backend.spec_id();
            if knows(backends_of(before), id) {
                let place = slot_of(backends_of(before), id);
                assert(0 <= place < before.len() && backends_of(before)[place].spec_id() == id);
            }
            assert(merged(probes)[k] == entry);
            assert(probes[last].backend == entry.backend);
            reading_is_a_percentage(probes[last].backend, probes[last].reply.unwrap());
        }
    }
}

pub(crate) fn find_slot(registry: &Vec<DisplayBackend>, id: &String) -> (slot: Option<usize>)
    ensures
        match slot {
            Some(i) => i < registry.len() && registry[i as int].spec_id() == id@,
            None => !knows(registry@, id@),
        },
{
    let mut i: usize = 0;
    while i < registry.len()
        invariant
            i <= registry.len(),
            forall|k: int| 0 <= k < i ==> (#[trigger] registry[k]).spec_id() != id@,
        decreases registry.len() - i,
    {
        if registry[i].has_id(id) {
            return Some(i);
        }
        i += 1;
    }
    None
}

pub(crate) fn merge(probes: &Vec<Probe>) -> (result: (Vec<DisplayBackend>, Vec<(DisplayId, MonitorInfo)>, bool))
    ensures
        result.0@ == backends_of(merged(probes@)),
        snapshot_views(result.1@) == snapshot_of(merged(probes@)),
        result.2 == some_failed(probes@),
        distinct_ids(result.0@),
        forall|k: int| 0 <= k < result.1.len() ==> (#[trigger] result.1[k]).1.brightness <= 100,
{
    let mut registry: Vec<DisplayBackend> = Vec::new();
    let mut snapshot: Vec<(DisplayId, MonitorInfo)> = Vec::new();
    let mut failed = false;
    let ghost mut entries: Seq<Entry> = Seq::empty();
    let mut i: usize = 0;
    proof {
        assert(probes@.take(0) =~= Seq::empty());
    }
    while i < probes.len()
        invariant
            i <= probes.len(),
            entries == merged(probes@.take(i as int)),
            registry@ =~= backends_of(entries),
            registry.len() == entries.len(),
            snapshot.len() == entries.len(),
            snapshot_views(snapshot@) =~= snapshot_of(entries),
            distinct_ids(registry@),
            forall|k: int| 0 <= k < snapshot.len() ==> (#[trigger] snapshot[k]).1.brightness <= 100,
            failed == some_failed(probes@.take(i as int)),
        decreases probes.len() - i,
    {
        let probe = &probes[i];
        let ghost seen = probes@.take(i as int);
        let ghost now = probes@.take(i + 1);
        proof {
            assert(now.drop_last() =~= seen);
            assert(now.last() == *probe);
        }
        let reading = match &probe.reply {
            Some(reply) => probe.backend.decode_reading(reply),
            None => None,
        };
        match reading {
            Some(brightness) => {
                let id = probe.backend.id();
                let name = probe.backend.name();
                let slot = find_slot(&registry, &id);
                let backend = probe.backend.duplicate();
                let info = MonitorInfo { name, brightness };
                let ghost entry = Entry { backend: probe.backend, brightness };
                let ghost old_entries = entries;
                let ghost old_snapshot = snapshot@;
                proof {
                    put_keeps_ids_distinct(entries, entry);
                }
                match slot {
                    Some(j) => {
                        proof {
                            slot_is_unique(registry@, id@, j as int);
                        }
                        registry.set(j, backend);
                        snapshot.set(j, (id, info));
                    },
                    None => {
                        registry.push(backend);
                        snapshot.push((id, info));
                    },
                }
                proof {
                    entries = put(entries, entry);
                    assert(registry@ =~= backends_of(entries));
                    assert forall|k: int| 0 <= k < entries.len() implies snapshot_views(snapshot@)[k]
                        == snapshot_of(entries)[k] by {
                        if k < old_entries.len() && entries[k] == old_entries[k] {
                            assert(snapshot_views(old_snapshot)[k] == snapshot_of(old_entries)[k]);
                        }
                    }
                    assert(snapshot_views(snapshot@) =~= snapshot_of(entries));
                    assert forall|k: int| 0 <= k < now.len() && (#[trigger] now[k]).reading() is None implies k
                        < seen.len() && seen[k].reading() is None by {}
                    assert forall|k: int| 0 <= k < seen.len() && (#[trigger] seen[k]).reading() is None implies now[k].reading() is None by {}
                    assert(some_failed(now) == some_failed(seen)) by {
                        if some_failed(seen) {
                            let k = choose|k: int| 0 <= k < seen.len() && (#[trigger] seen[k]).reading() is None;
                            assert(now[k].reading() is None);
                        }
                    }
                }
            },
            None => {
                failed = true;
                proof {
                    assert(now[i as int].reading() is None);
                }
            },
        }
        i += 1;
    }
    proof {
        assert(probes@.take(probes.len() as int) =~= probes@);
    }
    (registry, snapshot, failed)
}

} // verus!
