//! The set of players that are online right now.

use std::collections::HashSet;
use vstd::prelude::*;
use vstd::std_specs::iter::IteratorSpec;

verus! {

broadcast use vstd::std_specs::hash::group_hash_axioms;

/// Numeric ids of the players currently believed online. Membership means
/// online. It starts empty and only the persistence writer changes it.
#[derive(Debug)]
pub struct PresenceSet {
    online: HashSet<u32>,
}

impl View for PresenceSet {
    type V = Set<u32>;

    closed spec fn view(&self) -> Set<u32> {
        self.online@
    }
}

impl PresenceSet {
    /// The set is finite.
    pub proof fn lemma_finite(&self)
        ensures
            self@.finite(),
    {
        let listed = vstd::std_specs::hash::spec_hash_keys_iter(&self.online).remaining().unref();
        assert(listed.to_set() == self@);
        vstd::seq_lib::seq_to_set_is_finite(listed);
    }

    /// Nobody is online.
    pub fn new() -> (presence: PresenceSet)
        ensures
            presence@ == Set::<u32>::empty(),
    {
        PresenceSet { online: HashSet::new() }
    }

    /// Whether `player_id` is online.
    pub fn contains(&self, player_id: u32) -> (online: bool)
        ensures
            online == self@.contains(player_id),
    {
        self.online.contains(&player_id)
    }

    /// How many players are online.
    pub fn len(&self) -> (count: usize)
        ensures
            count == self@.len(),
    {
        self.online.len()
    }

    /// Records `player_id` as online or offline. Returns whether the player
    /// was online before. Only the persistence writer does this.
    pub(crate) fn set(&mut self, player_id: u32, online: bool) -> (was_online: bool)
        ensures
            was_online == old(self)@.contains(player_id),
            final(self)@ == if online {
                old(self)@.insert(player_id)
            } else {
                old(self)@.remove(player_id)
            },
    {
        if online {
            !self.online.insert(player_id)
        } else {
            self.online.remove(&player_id)
        }
    }

    /// A copy of the set as it is now: every online id once, no other.
    pub fn snapshot(&self) -> (ids: Vec<u32>)
        ensures
            ids@.to_set() == self@,
            ids@.no_duplicates(),
            ids@.len() == self@.len(),
    {
        let mut ids: Vec<u32> = Vec::new();
        let ghost listed = vstd::std_specs::hash::spec_hash_keys_iter(&self.online).remaining();
        for id in it: self.online.iter()
            invariant
                it.seq() == listed,
                ids@.len() == it.index(),
                forall|j: int| 0 <= j < ids@.len() ==> ids@[j] == *it.seq()[j],
        {
            ids.push(*id);
        }
        assert(ids@ =~= listed.unref());
        assert(ids@.no_duplicates()) by {
            assert forall|i: int, j: int|
                0 <= i < ids@.len() && 0 <= j < ids@.len() && i != j implies ids@[i] != ids@[j] by {
                assert(listed[i] != listed[j]);
            }
        }
        ids
    }
}

} // verus!
