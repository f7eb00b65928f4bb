//! Adding reference data: which kind is meant, and whether a note type is
//! new.

use crate::reference::{entries, Entry, NoteType};
use crate::resolve::{matching, resolve, ResolutionError};
use crate::text::same_text;
use vstd::prelude::*;
use vstd::string::*;

verus! {

/// The kinds of reference data that can be named when adding.
#[derive(Clone, Copy, Debug, PartialEq, Eq, Structural)]
pub enum DataKind {
    NoteType,
    NoteMod,
    Collection,
    Unknown,
}

/// The kind that `name` names, by its exact spelling.
pub open spec fn kind_named(name: Seq<char>) -> DataKind {
    if name == "NoteType"@ {
        DataKind::NoteType
    } else if name == "NoteMod"@ {
        DataKind::NoteMod
    } else if name == "Collection"@ {
        DataKind::Collection
    } else {
        DataKind::Unknown
    }
}

/// The kind of reference data that `name` names.
pub fn data_kind(name: &str) -> (kind: DataKind)
    ensures
        kind == kind_named(name@),
{
    if same_text(name, "NoteType") {
        DataKind::NoteType
    } else if same_text(name, "NoteMod") {
        DataKind::NoteMod
    } else if same_text(name, "Collection") {
        DataKind::Collection
    } else {
        DataKind::Unknown
    }
}

/// The request that creates a note type.
#[derive(Clone, Debug, PartialEq, Eq)]
pub struct NoteTypePostBody {
    pub note_type_name: String,
}

/// What to do with a note type that the user asks to add.
#[derive(Clone, Debug, PartialEq, Eq)]
pub enum NoteTypePlan {
    /// No known note type matches the name: create it.
    Create(NoteTypePostBody),
    /// The name matches a known note type: leave things as they are.
    AlreadyExists,
}

/// Whether a note type of this name is new: no known note type matches it.
pub open spec fn is_new_note_type(name: Seq<char>, note_types: Seq<Entry>) -> bool {
    matching(name, note_types).len() == 0
}

/// Plans the addition of a note type: it is created only where the name
/// matches no note type that exists.
pub fn plan_note_type(name: &str, note_types: &Vec<NoteType>) -> (plan: NoteTypePlan)
    ensures
        match plan {
            NoteTypePlan::Create(body) => is_new_note_type(name@, entries(note_types@))
                && body.note_type_name@ == name@,
            NoteTypePlan::AlreadyExists => !is_new_note_type(name@, entries(note_types@)),
        },
{
    match resolve(name, note_types) {
        Err(ResolutionError::NotFound) => NoteTypePlan::Create(
            NoteTypePostBody { note_type_name: String::from_str(name) },
        ),
        _ => NoteTypePlan::AlreadyExists,
    }
}

} // verus!
