//! Session-scoped launch statuses, keyed by catalog index.
//!
//! The store is the single source of truth the UI reads each frame. An index
//! with no entry was never launched this session: absence is meaningful and is
//! distinct from every launch state.

use vstd::prelude::*;

verus! {

broadcast use vstd::std_specs::hash::group_hash_axioms;

/// Why a launch request never produced a tracked process.
#[derive(Clone, Copy, PartialEq, Eq, Structural, Debug)]
pub enum LaunchError {
    /// The entry has neither an install directory plus command nor a launch URL.
    MissingLaunchTarget,
    /// The operating system refused to create the process.
    SpawnFailure,
}

/// The lifecycle of one launch request, from the moment a tile is activated.
#[derive(Clone, Copy, PartialEq, Eq, Structural, Debug)]
pub enum LaunchStatus {
    Starting,
    Running,
    Success,
    FailedToLaunch(LaunchError),
    Error(i32),
}

/// A mapping from catalog index to the current `LaunchStatus` of that entry.
///
/// Entries are created on launch request and only ever overwritten, never
/// removed; an absent index was never activated this session.
pub struct StatusStore {
    entries: std::collections::HashMap<usize, LaunchStatus>,
}

impl View for StatusStore {
    type V = Map<usize, LaunchStatus>;

    closed spec fn view(&self) -> Map<usize, LaunchStatus> {
        self.entries@
    }
}

impl StatusStore {
    /// An empty store: no entry has ever been launched.
    pub fn new() -> (s: Self)
        ensures
            s@ == Map::<usize, LaunchStatus>::empty(),
    {
        StatusStore { entries: std::collections::HashMap::new() }
    }

    /// The current status of catalog index `i`, or `None` if `i` was never
    /// written this session.
    pub fn get(&self, i: usize) -> (r: Option<LaunchStatus>)
        ensures
            r == if self@.contains_key(i) {
                Some(self@[i])
            } else {
                None::<LaunchStatus>
            },
    {
        match self.entries.get(&i) {
            Some(s) => Some(*s),
            None => None,
        }
    }

    /// Records `status` for catalog index `i`, overwriting any earlier status.
    pub fn set(&mut self, i: usize, status: LaunchStatus)
        ensures
            final(self)@ == old(self)@.insert(i, status),
    {
        self.entries.insert(i, status);
    }
}

/// The store contents after a sequence of `set` calls on a fresh store, each
/// write given as (catalog index, status).
pub open spec fn store_after(writes: Seq<(usize, LaunchStatus)>) -> Map<usize, LaunchStatus>
    decreases writes.len(),
{
    if writes.len() == 0 {
        Map::empty()
    } else {
        store_after(writes.drop_last()).insert(writes.last().0, writes.last().1)
    }
}

/// A catalog index at which no status was ever recorded has no entry in the
/// store: absence, not a default state. Every write into a `StatusStore` goes
/// through `set`, whose contract is `insert` at the written index, and a fresh
/// store is empty, so any reachable store is `store_after` of its writes.
pub proof fn lemma_unwritten_index_absent(writes: Seq<(usize, LaunchStatus)>, j: usize)
    requires
        forall|k: int| 0 <= k < writes.len() ==> (#[trigger] writes[k]).0 != j,
    ensures
        !store_after(writes).contains_key(j),
    decreases writes.len(),
{
    if writes.len() > 0 {
        lemma_unwritten_index_absent(writes.drop_last(), j);
    }
}

} // verus!
