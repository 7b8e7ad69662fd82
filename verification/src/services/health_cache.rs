//! The cache of health records, one per device id.

use crate::types::health::{DeviceHealth, DeviceHealthView};
use vstd::prelude::*;

verus! {

/// Health records keyed by device id. No id occurs twice.
pub struct HealthCache {
    entries: Vec<DeviceHealth>,
}

/// Some record at an index of `entries` belongs to the device `id`.
pub open spec fn holds(entries: Seq<DeviceHealth>, id: Seq<char>, i: int) -> bool {
    0 <= i < entries.len() && entries[i].device_id@ == id
}

/// No two records belong to the same device.
pub open spec fn distinct_ids(entries: Seq<DeviceHealth>) -> bool {
    forall|i: int, j: int|
        0 <= i < j < entries.len() ==> entries[i].device_id@ != entries[j].device_id@
}

/// The records as a map from device id to record.
pub open spec fn as_map(entries: Seq<DeviceHealth>) -> Map<Seq<char>, DeviceHealthView> {
    Map::new(
        |id: Seq<char>| exists|i: int| holds(entries, id, i),
        |id: Seq<char>| entries[choose|i: int| holds(entries, id, i)]@,
    )
}

proof fn lemma_entry_is_mapped(entries: Seq<DeviceHealth>, i: int)
    requires
        distinct_ids(entries),
        0 <= i < entries.len(),
    ensures
        as_map(entries).contains_key(entries[i].device_id@),
        as_map(entries)[entries[i].device_id@] == entries[i]@,
{
    let id = entries[i].device_id@;
    assert(holds(entries, id, i));
    let chosen = choose|k: int| holds(entries, id, k);
    assert(holds(entries, id, chosen));
    if chosen < i {
        assert(entries[chosen].device_id@ != entries[i].device_id@);
    } else if i < chosen {
        assert(entries[i].device_id@ != entries[chosen].device_id@);
    }
}

proof fn lemma_push_is_insert(entries: Seq<DeviceHealth>, health: DeviceHealth)
    requires
        distinct_ids(entries),
        forall|i: int| 0 <= i < entries.len() ==> entries[i].device_id@ != health.device_id@,
    ensures
        distinct_ids(entries.push(health)),
        as_map(entries.push(health)) == as_map(entries).insert(health.device_id@, health@),
{
    let after = entries.push(health);
    assert(distinct_ids(after));
    assert forall|id: Seq<char>| #[trigger]
        as_map(after).contains_key(id) == as_map(entries).insert(
            health.device_id@,
            health@,
        ).contains_key(id) by {
        if as_map(after).contains_key(id) {
            let i = choose|i: int| holds(after, id, i);
            if i < entries.len() {
                assert(holds(entries, id, i));
            }
        }
        if id == health.device_id@ {
            assert(holds(after, id, entries.len() as int));
        } else if as_map(entries).contains_key(id) {
            let i = choose|i: int| holds(entries, id, i);
            assert(holds(after, id, i));
        }
    }
    assert forall|id: Seq<char>| #[trigger] as_map(after).contains_key(id) implies as_map(after)[id]
        == as_map(entries).insert(health.device_id@, health@)[id] by {
        let i = choose|i: int| holds(after, id, i);
        lemma_entry_is_mapped(after, i);
        if i < entries.len() {
            lemma_entry_is_mapped(entries, i);
        }
    }
    assert(as_map(after) =~= as_map(entries).insert(health.device_id@, health@));
}

proof fn lemma_update_is_insert(entries: Seq<DeviceHealth>, at: int, health: DeviceHealth)
    requires
        distinct_ids(entries),
        0 <= at < entries.len(),
        entries[at].device_id@ == health.device_id@,
    ensures
        distinct_ids(entries.update(at, health)),
        as_map(entries.update(at, health)) == as_map(entries).insert(health.device_id@, health@),
{
    let after = entries.update(at, health);
    assert forall|i: int, j: int| 0 <= i < j < after.len() implies after[i].device_id@
        != after[j].device_id@ by {
        assert(entries[i].device_id@ != entries[j].device_id@);
    }
    assert forall|id: Seq<char>| #[trigger]
        as_map(after).contains_key(id) == as_map(entries).insert(
            health.device_id@,
            health@,
        ).contains_key(id) by {
        if as_map(after).contains_key(id) {
            let i = choose|i: int| holds(after, id, i);
            assert(holds(entries, id, i));
        }
        if id == health.device_id@ {
            assert(holds(after, id, at));
        } else if as_map(entries).contains_key(id) {
            let i = choose|i: int| holds(entries, id, i);
            assert(holds(after, id, i));
        }
    }
    assert forall|id: Seq<char>| #[trigger] as_map(after).contains_key(id) implies as_map(after)[id]
        == as_map(entries).insert(health.device_id@, health@)[id] by {
        let i = choose|i: int| holds(after, id, i);
        lemma_entry_is_mapped(after, i);
        if i != at {
            lemma_entry_is_mapped(entries, i);
        }
    }
    assert(as_map(after) =~= as_map(entries).insert(health.device_id@, health@));
}

impl View for HealthCache {
    type V = Map<Seq<char>, DeviceHealthView>;

    closed spec fn view(&self) -> Map<Seq<char>, DeviceHealthView> {
        as_map(self.entries@)
    }
}

impl HealthCache {
    /// No device id occurs twice among the records.
    pub closed spec fn wf(&self) -> bool {
        distinct_ids(self.entries@)
    }

    /// A cache without records.
    pub fn new() -> (cache: HealthCache)
        ensures
            cache.wf(),
            cache@ == Map::<Seq<char>, DeviceHealthView>::empty(),
    {
        let cache = HealthCache { entries: Vec::new() };
        assert(cache@ =~= Map::<Seq<char>, DeviceHealthView>::empty());
        cache
    }

    fn position(&self, device_id: &str) -> (at: Option<usize>)
        ensures
            match at {
                Some(i) => holds(self.entries@, device_id@, i as int),
                None => forall|i: int| !holds(self.entries@, device_id@, i),
            },
    {
        let wanted = device_id.to_owned();
        let mut i: usize = 0;
        while i < self.entries.len()
            invariant
                i <= self.entries@.len(),
                wanted@ == device_id@,
                forall|j: int| 0 <= j < i ==> !holds(self.entries@, device_id@, j),
            decreases self.entries@.len() - i,
        {
            if self.entries[i].device_id == wanted {
                return Some(i);
            }
            i += 1;
        }
        None
    }

    /// A copy of the record of a device, if the cache holds one.
    pub fn get(&self, device_id: &str) -> (found: Option<DeviceHealth>)
        requires
            self.wf(),
        ensures
            match found {
                Some(health) => self@.contains_key(device_id@) && self@[device_id@] == health@
                    && health@.device_id == device_id@,
                None => !self@.contains_key(device_id@),
            },
    {
        match self.position(device_id) {
            Some(i) => {
                proof {
                    lemma_entry_is_mapped(self.entries@, i as int);
                }
                Some(self.entries[i].snapshot())
            },
            None => None,
        }
    }

    /// Puts a record into the cache, in place of the one that the cache
    /// held for the same device, if any.
    pub fn insert(&mut self, health: DeviceHealth)
        requires
            old(self).wf(),
        ensures
            final(self).wf(),
            final(self)@ == old(self)@.insert(health.device_id@, health@),
    {
        match self.position(health.device_id.as_str()) {
            Some(i) => {
                proof {
                    lemma_update_is_insert(self.entries@, i as int, health);
                }
                self.entries.set(i, health);
            },
            None => {
                proof {
                    assert forall|i: int| 0 <= i < self.entries@.len() implies self.entries@[i].device_id@
                        != health.device_id@ by {
                        assert(!holds(self.entries@, health.device_id@, i));
                    }
                    lemma_push_is_insert(self.entries@, health);
                }
                self.entries.push(health);
            },
        }
    }

    /// Removes every record.
    pub fn clear(&mut self)
        ensures
            final(self).wf(),
            final(self)@ == Map::<Seq<char>, DeviceHealthView>::empty(),
    {
        self.entries.clear();
        assert(as_map(self.entries@) =~= Map::<Seq<char>, DeviceHealthView>::empty());
    }
}

} // verus!
