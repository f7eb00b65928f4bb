//! Reference data: snapshots of what the note service defines.

use vstd::prelude::*;

verus! {

/// What resolution reads of a reference entry: its identifier and its name.
pub struct Entry {
    pub id: Seq<char>,
    pub name: Seq<char>,
}

/// A reference entry that has an identifier and a human-readable name.
pub trait Named {
    /// The identifier and name of this entry.
    spec fn entry(&self) -> Entry;

    fn id(&self) -> (id: &String)
        ensures
            id@ == self.entry().id,
    ;

    fn name(&self) -> (name: &String)
        ensures
            name@ == self.entry().name,
    ;
}

/// The entries of a list of reference data, in order.
pub open spec fn entries<T: Named>(items: Seq<T>) -> Seq<Entry> {
    items.map_values(|item: T| item.entry())
}

/// The shape that note types and collections share.
#[derive(Clone, Debug, PartialEq, Eq)]
pub struct NamedEntity {
    pub id: String,
    pub name: String,
}

/// A kind of note that the service knows.
#[derive(Clone, Debug, PartialEq, Eq)]
pub struct NoteType {
    pub id: String,
    pub name: String,
}

/// A collection that notes are filed under.
#[derive(Clone, Debug, PartialEq, Eq)]
pub struct Collection {
    pub id: String,
    pub name: String,
    pub other_date_required: bool,
}

/// A single-character code with its label.
#[derive(Clone, Debug, PartialEq, Eq)]
pub struct NoteMod {
    pub name: String,
    pub character: String,
}

/// The names used where the user gives no note type or no collection.
#[derive(Clone, Debug, PartialEq, Eq)]
pub struct Defaults {
    pub default_collection: String,
    pub default_note_type: String,
}

impl Named for NamedEntity {
    open spec fn entry(&self) -> Entry {
        Entry { id: self.id@, name: self.name@ }
    }

    fn id(&self) -> (id: &String) {
        &self.id
    }

    fn name(&self) -> (name: &String) {
        &self.name
    }
}

impl Named for NoteType {
    open spec fn entry(&self) -> Entry {
        Entry { id: self.id@, name: self.name@ }
    }

    fn id(&self) -> (id: &String) {
        &self.id
    }

    fn name(&self) -> (name: &String) {
        &self.name
    }
}

impl Named for Collection {
    open spec fn entry(&self) -> Entry {
        Entry { id: self.id@, name: self.name@ }
    }

    fn id(&self) -> (id: &String) {
        &self.id
    }

    fn name(&self) -> (name: &String) {
        &self.name
    }
}

impl NoteMod {
    /// The code is exactly one character long.
    pub open spec fn well_formed(&self) -> bool {
        self.character@.len() == 1
    }
}

} // verus!
