//! Task-channel registry: a table mapping an opaque task identifier to a
//! live duplex-channel client handle, letting one part of the system hand
//! off a running task's channel to another part that only knows the
//! identifier.
//!
//! The registry is strongly typed over one channel-handle type; its model
//! is a map from identifier to handle, with at most one live entry per
//! identifier.  Entries live until explicitly taken — callers remove them
//! on task completion.  Reader/writer locking for shared access belongs to
//! the driver that owns the registry; the operations here are the verified
//! transitions under that lock.

use std::collections::HashMap;

use vstd::prelude::*;

use crate::channel::Dup;

verus! {

broadcast use vstd::std_specs::hash::group_hash_axioms;

/// Registry of the channel handles of running tasks, keyed by a
/// caller-supplied numeric task identifier.
pub trait GlobalTaskChanStorage<Chan: Dup>: Sized {
    /// The live entries: task identifier to stored handle.
    spec fn table(&self) -> Map<u64, Chan>;

    /// Stores `chan` under `task_id`, overwriting and returning the prior
    /// entry if one was present.
    fn insert(&mut self, task_id: u64, chan: Chan) -> (prev: Option<Chan>)
        ensures
            final(self).table() == old(self).table().insert(task_id, chan),
            prev == if old(self).table().contains_key(task_id) {
                Some(old(self).table()[task_id])
            } else {
                None::<Chan>
            },
    ;

    /// Removes and returns the handle stored under `task_id`, transferring
    /// ownership to the caller.
    fn take_chan(&mut self, task_id: u64) -> (r: Option<Chan>)
        ensures
            final(self).table() == old(self).table().remove(task_id),
            r == if old(self).table().contains_key(task_id) {
                Some(old(self).table()[task_id])
            } else {
                None::<Chan>
            },
    ;

    /// Whether a handle is stored under `task_id`.
    fn contains_task(&self, task_id: u64) -> (r: bool)
        ensures
            r == self.table().contains_key(task_id),
    ;

    /// Hands out a duplicate of the handle stored under `task_id`, equal
    /// to the stored one, which stays in place.
    fn get_cloned(&self, task_id: u64) -> (r: Option<Chan>)
        ensures
            r == if self.table().contains_key(task_id) {
                Some(self.table()[task_id])
            } else {
                None::<Chan>
            },
    ;
}

/// The registry over a hash table.
pub struct HashMapTaskChanStorage<Chan> {
    map: HashMap<u64, Chan>,
}

impl<Chan> View for HashMapTaskChanStorage<Chan> {
    type V = Map<u64, Chan>;

    /// The live entries: task identifier to stored handle.
    closed spec fn view(&self) -> Map<u64, Chan> {
        self.map@
    }
}

impl<Chan> HashMapTaskChanStorage<Chan> {
    /// A fresh registry with no entries.
    pub fn new() -> (s: Self)
        ensures
            s@ == Map::<u64, Chan>::empty(),
    {
        HashMapTaskChanStorage { map: HashMap::new() }
    }
}

impl<Chan: Dup> GlobalTaskChanStorage<Chan> for HashMapTaskChanStorage<Chan> {
    open spec fn table(&self) -> Map<u64, Chan> {
        self@
    }

    fn insert(&mut self, task_id: u64, chan: Chan) -> (prev: Option<Chan>) {
        self.map.insert(task_id, chan)
    }

    fn take_chan(&mut self, task_id: u64) -> (r: Option<Chan>) {
        self.map.remove(&task_id)
    }

    fn contains_task(&self, task_id: u64) -> (r: bool) {
        self.map.contains_key(&task_id)
    }

    fn get_cloned(&self, task_id: u64) -> (r: Option<Chan>) {
        match self.map.get(&task_id) {
            Some(chan) => Some(chan.dup()),
            None => None,
        }
    }
}

/// Registry round-trip law: storing a handle and then taking it back under
/// the same identifier yields exactly the stored handle and removes the
/// entry; the identifier exists between the two operations and does not
/// exist afterwards, and every other entry is untouched.
pub proof fn lemma_registry_round_trip<Chan>(table: Map<u64, Chan>, task_id: u64, chan: Chan)
    ensures
        table.insert(task_id, chan).contains_key(task_id),
        table.insert(task_id, chan)[task_id] == chan,
        !table.insert(task_id, chan).remove(task_id).contains_key(task_id),
        table.insert(task_id, chan).remove(task_id) =~= table.remove(task_id),
        forall|k: u64|
            k != task_id && table.contains_key(k) ==> table.insert(task_id, chan).remove(
                task_id,
            ).contains_key(k) && table.insert(task_id, chan).remove(task_id)[k] == table[k],
{
}

} // verus!
