//! The task registry: the persistent mapping from agent identity to its
//! current task.
//!
//! The registry survives across ticks within one continuously running
//! process and is reset to empty only on a full process restart. It holds at
//! most one task per agent: the store is a list of entries with pairwise
//! distinct names (`wf`), and its meaning is the map `tasks()`.

use vstd::prelude::*;
use crate::task::CreepTarget;

verus! {

struct RegistryEntry {
    name: String,
    task: CreepTarget,
}

/// Mapping from agent identity to its current task.
pub struct TaskRegistry {
    entries: Vec<RegistryEntry>,
}

impl TaskRegistry {
    /// The registry as a map from agent name to task.
    pub closed spec fn tasks(self) -> Map<Seq<char>, CreepTarget> {
        Self::map_of(self.entries@)
    }

    /// The names of the stored entries, in storage order.
    pub closed spec fn entry_names(self) -> Seq<Seq<char>> {
        self.entries@.map_values(|e: RegistryEntry| e.name@)
    }

    /// Well-formed: no two entries name the same agent.
    pub closed spec fn wf(self) -> bool {
        forall|i: int, j: int|
            0 <= i < j < self.entries@.len() ==> self.entries@[i].name@ != self.entries@[j].name@
    }

    spec fn map_of(s: Seq<RegistryEntry>) -> Map<Seq<char>, CreepTarget>
        decreases s.len(),
    {
        if s.len() == 0 {
            Map::empty()
        } else {
            Self::map_of(s.drop_last()).insert(s.last().name@, s.last().task)
        }
    }

    spec fn names_unique(s: Seq<RegistryEntry>) -> bool {
        forall|i: int, j: int| 0 <= i < j < s.len() ==> s[i].name@ != s[j].name@
    }

    proof fn lemma_map_of(s: Seq<RegistryEntry>)
        requires
            Self::names_unique(s),
        ensures
            Self::map_of(s).dom().finite(),
            Self::map_of(s).dom().len() == s.len(),
            forall|i: int|
                0 <= i < s.len() ==> #[trigger] Self::map_of(s).contains_key(s[i].name@)
                    && Self::map_of(s)[s[i].name@] == s[i].task,
            forall|k: Seq<char>|
                #[trigger] Self::map_of(s).contains_key(k) ==> exists|i: int|
                    0 <= i < s.len() && s[i].name@ == k,
        decreases s.len(),
    {
        if s.len() == 0 {
        } else {
            let pre = s.drop_last();
            assert(Self::names_unique(pre));
            Self::lemma_map_of(pre);
            let last = s.last();
            assert(!Self::map_of(pre).contains_key(last.name@)) by {
                if Self::map_of(pre).contains_key(last.name@) {
                    let i = choose|i: int| 0 <= i < pre.len() && pre[i].name@ == last.name@;
                    assert(s[i].name@ == s[s.len() - 1].name@);
                }
            }
            assert(forall|i: int| 0 <= i < pre.len() ==> pre[i] == s[i]);
        }
    }

    /// `map_of` of a removal is removal on the map, for unique names.
    proof fn lemma_map_of_remove(s: Seq<RegistryEntry>, i: int)
        requires
            Self::names_unique(s),
            0 <= i < s.len(),
        ensures
            Self::map_of(s.remove(i)) == Self::map_of(s).remove(s[i].name@),
        decreases s.len(),
    {
        Self::lemma_map_of(s);
        let k = s[i].name@;
        if i == s.len() - 1 {
            assert(s.remove(i) =~= s.drop_last());
            assert(!Self::map_of(s.drop_last()).contains_key(k)) by {
                assert(Self::names_unique(s.drop_last()));
                Self::lemma_map_of(s.drop_last());
                if Self::map_of(s.drop_last()).contains_key(k) {
                    let j = choose|j: int| 0 <= j < s.drop_last().len() && s.drop_last()[j].name@ == k;
                    assert(s[j].name@ == s[i].name@);
                }
            }
            assert(Self::map_of(s).remove(k) =~= Self::map_of(s.drop_last()));
        } else {
            let pre = s.drop_last();
            let last = s.last();
            assert(Self::names_unique(pre));
            assert(s.remove(i).last() == last);
            assert(s.remove(i).drop_last() =~= pre.remove(i));
            Self::lemma_map_of_remove(pre, i);
            assert(pre[i] == s[i]);
            assert(Self::map_of(s.remove(i)) == Self::map_of(pre.remove(i)).insert(last.name@, last.task));
            assert(k != last.name@);
            assert(Self::map_of(pre).remove(k).insert(last.name@, last.task) =~= Self::map_of(
                pre,
            ).insert(last.name@, last.task).remove(k));
        }
    }

    /// An empty registry: the state right after a process restart.
    pub fn new() -> (r: Self)
        ensures
            r.wf(),
            r.tasks() == Map::<Seq<char>, CreepTarget>::empty(),
    {
        TaskRegistry { entries: Vec::new() }
    }

    /// The task currently assigned to `name`, if any.
    pub fn get(&self, name: &String) -> (r: Option<CreepTarget>)
        requires
            self.wf(),
        ensures
            match r {
                Some(t) => self.tasks().contains_key(name@) && self.tasks()[name@] == t,
                None => !self.tasks().contains_key(name@),
            },
    {
        proof {
            Self::lemma_map_of(self.entries@);
        }
        let n = self.entries.len();
        let mut i: usize = 0;
        while i < n
            invariant
                0 <= i <= n,
                forall|j: int| 0 <= j < i ==> self.entries@[j].name@ != name@,
            decreases n - i,
        {
            if self.entries[i].name == *name {
                return Some(self.entries[i].task);
            }
            i = i + 1;
        }
        proof {
            if self.tasks().contains_key(name@) {
                let j = choose|j: int|
                    0 <= j < self.entries@.len() && self.entries@[j].name@ == name@;
            }
        }
        None
    }

    /// Remove `name`'s entry (eviction); a no-op when no entry exists.
    pub fn remove(&mut self, name: &String)
        requires
            old(self).wf(),
        ensures
            final(self).wf(),
            final(self).tasks() == old(self).tasks().remove(name@),
    {
        let n = self.entries.len();
        let mut i: usize = 0;
        while i < n
            invariant
                0 <= i <= n,
                *self == *old(self),
                n == self.entries@.len(),
                forall|j: int| 0 <= j < i ==> self.entries@[j].name@ != name@,
            decreases n - i,
        {
            if self.entries[i].name == *name {
                proof {
                    Self::lemma_map_of_remove(self.entries@, i as int);
                }
                self.entries.remove(i);
                return;
            }
            i = i + 1;
        }
        proof {
            Self::lemma_map_of(self.entries@);
            if self.tasks().contains_key(name@) {
                let j = choose|j: int|
                    0 <= j < self.entries@.len() && self.entries@[j].name@ == name@;
            }
            assert(self.tasks() =~= self.tasks().remove(name@));
        }
    }

    /// Give `name` the task `t`, replacing any previous entry.
    pub fn insert(&mut self, name: String, t: CreepTarget)
        requires
            old(self).wf(),
        ensures
            final(self).wf(),
            final(self).tasks() == old(self).tasks().insert(name@, t),
    {
        self.remove(&name);
        proof {
            Self::lemma_map_of(self.entries@);
            if exists|j: int| 0 <= j < self.entries@.len() && self.entries@[j].name@ == name@ {
                let j = choose|j: int|
                    0 <= j < self.entries@.len() && self.entries@[j].name@ == name@;
                assert(self.tasks().contains_key(name@));
                assert(false);
            }
        }
        let ghost pre = self.entries@;
        self.entries.push(RegistryEntry { name, task: t });
        proof {
            assert(self.entries@.drop_last() =~= pre);
            assert(self.tasks() =~= old(self).tasks().insert(self.entries@.last().name@, t));
        }
    }

    /// The number of agents that currently hold a task.
    pub fn len(&self) -> (r: usize)
        requires
            self.wf(),
        ensures
            r == self.tasks().dom().len(),
    {
        proof {
            Self::lemma_map_of(self.entries@);
        }
        self.entries.len()
    }

    /// Single active task: a well-formed registry holds at most one entry
    /// per agent name, and accordingly its map has exactly one key per entry.
    pub proof fn lemma_single_active_task(self)
        requires
            self.wf(),
        ensures
            forall|i: int, j: int|
                0 <= i < self.entry_names().len() && 0 <= j < self.entry_names().len()
                    && self.entry_names()[i] == self.entry_names()[j] ==> i == j,
            self.tasks().dom().len() == self.entry_names().len(),
    {
        Self::lemma_map_of(self.entries@);
    }
}

} // verus!
