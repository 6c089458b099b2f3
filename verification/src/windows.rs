use vstd::prelude::*;
use std::collections::HashMap;

verus! {

broadcast use vstd::std_specs::hash::group_hash_axioms;

/// Whether every window of `windows` is hidden (true of no windows).
pub open spec fn all_hidden(windows: Map<u64, bool>) -> bool {
    forall|id: u64| #[trigger] windows.contains_key(id) ==> !windows[id]
}

/// The open windows of the application, each by its window id, with whether
/// it is visible.
pub struct WindowTable {
    windows: HashMap<u64, bool>,
}

impl View for WindowTable {
    type V = Map<u64, bool>;

    closed spec fn view(&self) -> Map<u64, bool> {
        self.windows@
    }
}

impl WindowTable {
    /// A table without windows.
    pub fn new() -> (res: WindowTable)
        ensures
            res@ == Map::<u64, bool>::empty(),
    {
        WindowTable { windows: HashMap::new() }
    }

    /// Records the window `id` with its visibility, replacing an earlier
    /// record of the same id.
    pub fn insert(&mut self, id: u64, visible: bool)
        ensures
            final(self)@ == old(self)@.insert(id, visible),
    {
        self.windows.insert(id, visible);
    }

    /// Whether the window `id` is recorded.
    pub fn contains(&self, id: u64) -> (res: bool)
        ensures
            res == self@.contains_key(id),
    {
        self.windows.contains_key(&id)
    }

    /// Whether no window is recorded.
    pub fn is_empty(&self) -> (res: bool)
        ensures
            res == (self@ == Map::<u64, bool>::empty()),
    {
        let r = self.windows.is_empty();
        proof {
            if !r {
                assert(self@.dom() != Set::<u64>::empty());
            } else {
                assert(self@ =~= Map::<u64, bool>::empty());
            }
        }
        r
    }

    /// Records that the window `id` became visible or hidden; a window that
    /// is not recorded stays unrecorded.
    pub fn set_visible(&mut self, id: u64, visible: bool) -> (found: bool)
        ensures
            found == old(self)@.contains_key(id),
            final(self)@ == (if found { old(self)@.insert(id, visible) } else { old(self)@ }),
    {
        if self.windows.contains_key(&id) {
            self.windows.insert(id, visible);
            true
        } else {
            false
        }
    }

    /// Whether every recorded window is hidden; true when none is recorded.
    pub fn all_hidden(&self) -> (res: bool)
        ensures
            res == all_hidden(self@),
    {
        let ghost m = self@;
        for v in it: self.windows.values()
            invariant
                m == self.windows@,
                m.values().contains(true) ==> exists|j: int|
                    it.index() <= j < it.seq().len() && *#[trigger] it.seq()[j],
        {
            if *v {
                return false;
            }
        }
        proof {
            assert forall|id: u64| #[trigger] m.contains_key(id) implies !m[id] by {
                assert(m.values().contains(m[id]));
            }
        }
        true
    }
}

} // verus!
