//! The upstream session's view of who takes part.

use vstd::prelude::*;

verus! {

/// One participant: the session-local handle, the stable outside identity,
/// and the display name.
#[derive(Debug, Clone, PartialEq, Eq)]
pub struct RosterEntry {
    pub uid: u64,
    pub uuid: u128,
    pub alias: String,
}

/// The participants of a session, in the order the session reports them.
#[derive(Debug, Clone, PartialEq, Eq)]
pub struct Roster {
    pub entries: Vec<RosterEntry>,
}

/// The position of the first entry with handle `uid`, if there is one.
pub open spec fn position_of(entries: Seq<RosterEntry>, uid: u64) -> Option<int> {
    if exists|i: int| 0 <= i < entries.len() && entries[i].uid == uid {
        Some(
            choose|i: int|
                0 <= i < entries.len() && entries[i].uid == uid && forall|j: int|
                    0 <= j < i ==> entries[j].uid != uid,
        )
    } else {
        None
    }
}

impl Roster {
    /// The entries as a sequence.
    pub open spec fn view(&self) -> Seq<RosterEntry> {
        self.entries@
    }

    /// The entry that a handle resolves to: the first that carries it.
    pub open spec fn resolve(&self, uid: u64) -> Option<RosterEntry> {
        match position_of(self@, uid) {
            Some(i) => Some(self@[i]),
            None => None,
        }
    }

    /// A roster with nobody in it.
    pub fn new() -> (roster: Roster)
        ensures
            roster@ == Seq::<RosterEntry>::empty(),
    {
        Roster { entries: Vec::new() }
    }

    /// Whether nobody takes part.
    pub fn is_empty(&self) -> (empty: bool)
        ensures
            empty == (self@.len() == 0),
    {
        self.entries.len() == 0
    }

    /// Looks a handle up. `None` means the session does not know it.
    pub fn get(&self, uid: u64) -> (found: Option<&RosterEntry>)
        ensures
            match found {
                Some(entry) => self.resolve(uid) == Some(*entry),
                None => self.resolve(uid).is_none(),
            },
    {
        let mut i: usize = 0;
        while i < self.entries.len()
            invariant
                i <= self.entries.len(),
                forall|j: int| 0 <= j < i ==> self@[j].uid != uid,
            decreases self.entries.len() - i,
        {
            if self.entries[i].uid == uid {
                return Some(&self.entries[i]);
            }
            i += 1;
        }
        None
    }
}

} // verus!
