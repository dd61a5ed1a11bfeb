//! The set of installation channels the bot knows of, kept in memory so that a
//! voice state update can tell at once whether a member joined one of them.

use vstd::prelude::*;
use std::collections::HashSet;

verus! {

broadcast use vstd::std_specs::hash::group_hash_axioms;

/// The ids of the channels that members join to get an auto voice channel.
pub struct InstallationChannels {
    ids: HashSet<u64>,
}

impl View for InstallationChannels {
    type V = Set<u64>;

    closed spec fn view(&self) -> Set<u64> {
        self.ids@
    }
}

impl InstallationChannels {
    /// No installation channels.
    pub fn new() -> (r: Self)
        ensures
            r@ == Set::<u64>::empty(),
    {
        InstallationChannels { ids: HashSet::new() }
    }

    /// The installation channels listed in `ids`.
    pub fn from_ids(ids: &Vec<u64>) -> (r: Self)
        ensures
            r@ == ids@.to_set(),
    {
        let mut r = InstallationChannels::new();
        let mut i: usize = 0;
        while i < ids.len()
            invariant
                i <= ids@.len(),
                r@ == ids@.subrange(0, i as int).to_set(),
            decreases ids@.len() - i,
        {
            r.insert(ids[i]);
            let ghost next = ids@.subrange(0, i + 1);
            assert(next.drop_last() =~= ids@.subrange(0, i as int));
            assert(next.last() == ids@[i as int]);
            assert(next.drop_last().to_set().insert(next.last()) =~= next.to_set());
            i = i + 1;
        }
        assert(ids@.subrange(0, i as int) =~= ids@);
        r
    }

    /// Records a new installation channel.
    pub fn insert(&mut self, channel_id: u64)
        ensures
            final(self)@ == old(self)@.insert(channel_id),
    {
        self.ids.insert(channel_id);
    }

    /// Forgets an installation channel.
    pub fn remove(&mut self, channel_id: u64)
        ensures
            final(self)@ == old(self)@.remove(channel_id),
    {
        self.ids.remove(&channel_id);
    }

    /// Whether `channel_id` is an installation channel.
    pub fn contains(&self, channel_id: u64) -> (r: bool)
        ensures
            r == self@.contains(channel_id),
    {
        self.ids.contains(&channel_id)
    }
}

/// Whether deleting a channel removed an installation record, from the number of
/// records the deletion removed; only then is the uninstallation reported.
pub fn installation_removed(rows_affected: u64) -> (r: bool)
    ensures
        r == (rows_affected > 0),
{
    rows_affected > 0
}

/// After a channel is recorded, it is an installation channel, and whether any
/// other channel is one has not changed.
pub proof fn lemma_insert_then_contains(before: Set<u64>, channel_id: u64, other: u64)
    ensures
        before.insert(channel_id).contains(channel_id),
        other != channel_id ==> (before.insert(channel_id).contains(other) == before.contains(other)),
{
}

/// After a channel is forgotten, it is no installation channel, and whether any
/// other channel is one has not changed.
pub proof fn lemma_remove_then_not_contains(before: Set<u64>, channel_id: u64, other: u64)
    ensures
        !before.remove(channel_id).contains(channel_id),
        other != channel_id ==> (before.remove(channel_id).contains(other) == before.contains(other)),
{
}

/// Recording a channel and then forgetting it leaves the channels as they were
/// when it had not been one before.
pub proof fn lemma_insert_remove_roundtrip(before: Set<u64>, channel_id: u64)
    requires
        !before.contains(channel_id),
    ensures
        before.insert(channel_id).remove(channel_id) =~= before,
{
}

} // verus!
