//! The local watch list.

use std::collections::HashMap;
use vstd::prelude::*;

verus! {

broadcast use vstd::std_specs::hash::group_hash_axioms;

/// Where a title stands on the user's list.
#[allow(clippy::upper_case_acronyms)]
#[derive(Debug, Clone, Copy, PartialEq, Eq, Structural)]
pub enum WatchStatus {
    CURRENT,
    PLANNING,
    COMPLETED,
    DROPPED,
    PAUSED,
    REPEATING,
}

/// One title on the list.
#[derive(Debug)]
pub struct RegistryEntry {
    pub id: i32,
    pub title: String,
    pub status: WatchStatus,
    pub progress: i32,
    pub total_episodes: Option<i32>,
    /// The user's score, as the bits of a number in single precision.
    pub score_bits: u32,
    /// When the entry was last changed, as a timestamp in text.
    pub last_updated: String,
    /// Whether the entry has changes that the catalogue has not seen.
    pub dirty: bool,
}

/// The list: its entries by their identifiers.
pub struct Registry {
    pub entries: HashMap<i32, RegistryEntry>,
}

/// The list together with the place it is stored at.
pub struct RegistryManager {
    pub file_path: std::path::PathBuf,
    pub data: Registry,
}

impl RegistryManager {
    /// Puts `entry` on the list, in place of an entry with the same
    /// identifier if there is one.
    pub fn update_entry(&mut self, entry: RegistryEntry)
        ensures
            final(self).data.entries@ == old(self).data.entries@.insert(entry.id, entry),
            final(self).file_path == old(self).file_path,
    {
        let id = entry.id;
        self.data.entries.insert(id, entry);
    }

    /// The entry with the identifier `id`, where the list has one.
    pub fn get_entry(&self, id: i32) -> (entry: Option<&RegistryEntry>)
        ensures
            match entry {
                Some(found) => self.data.entries@.contains_key(id) && *found
                    == self.data.entries@[id],
                None => !self.data.entries@.contains_key(id),
            },
    {
        self.data.entries.get(&id)
    }
}

/// An entry that was put on the list is found again under its identifier,
/// and every other entry stays as it was.
pub proof fn lemma_update_then_get(
    entries: Map<i32, RegistryEntry>,
    entry: RegistryEntry,
    other: i32,
)
    ensures
        entries.insert(entry.id, entry).contains_key(entry.id),
        entries.insert(entry.id, entry)[entry.id] == entry,
        other != entry.id ==> entries.insert(entry.id, entry).contains_key(other)
            == entries.contains_key(other),
        other != entry.id && entries.contains_key(other) ==> entries.insert(entry.id, entry)[other]
            == entries[other],
{
}

} // verus!
