//! Note assembly: from fragments, reference data and message tokens to the
//! record that is submitted, or to the reason why nothing is.

use crate::modifiers::{extract_modifiers, join_tokens, joined, leading_modifiers, remainder};
use crate::reference::{entries, Collection, Defaults, Entry, NoteType};
use crate::resolve::{resolution, resolve, Failure, ResolutionError};
use crate::text::texts;
use vstd::prelude::*;

verus! {

/// A note as it is submitted.
#[derive(Clone, Debug, PartialEq, Eq)]
pub struct NotePostBody {
    pub body: String,
    pub note_type_id: String,
    pub collection_id: String,
    pub modifiers: Vec<String>,
}

/// The mathematical value of a `NotePostBody`.
pub struct Submission {
    pub body: Seq<char>,
    pub note_type_id: Seq<char>,
    pub collection_id: Seq<char>,
    pub modifiers: Seq<Seq<char>>,
}

impl View for NotePostBody {
    type V = Submission;

    open spec fn view(&self) -> Submission {
        Submission {
            body: self.body@,
            note_type_id: self.note_type_id@,
            collection_id: self.collection_id@,
            modifiers: texts(self.modifiers@),
        }
    }
}

/// Which of the two fragments of a note a rejection is about.
#[derive(Clone, Copy, Debug, PartialEq, Eq, Structural)]
pub enum Selector {
    NoteType,
    Collection,
}

/// Why a note is not submitted: the fragment that named no single entry.
#[derive(Clone, Debug, PartialEq, Eq)]
pub struct Rejection {
    pub selector: Selector,
    pub fragment: String,
    pub error: ResolutionError,
}

/// The mathematical value of a `Rejection`.
pub struct Refusal {
    pub selector: Selector,
    pub fragment: Seq<char>,
    pub failure: Failure,
}

impl View for Rejection {
    type V = Refusal;

    open spec fn view(&self) -> Refusal {
        Refusal { selector: self.selector, fragment: self.fragment@, failure: self.error@ }
    }
}

/// The fragment to resolve: the one given, or the default where none is.
pub open spec fn fragment_or(given: Option<String>, default: String) -> Seq<char> {
    match given {
        Some(fragment) => fragment@,
        None => default@,
    }
}

/// What becomes of a note. Both fragments must resolve to a single entry;
/// the note type is looked at first.
pub open spec fn planned(
    note_type: Seq<char>,
    collection: Seq<char>,
    tokens: Seq<Seq<char>>,
    note_types: Seq<Entry>,
    collections: Seq<Entry>,
) -> Result<Submission, Refusal> {
    match resolution(note_type, note_types) {
        Err(failure) => Err(Refusal { selector: Selector::NoteType, fragment: note_type, failure }),
        Ok(note_type_id) => match resolution(collection, collections) {
            Err(failure) => Err(
                Refusal { selector: Selector::Collection, fragment: collection, failure },
            ),
            Ok(collection_id) => Ok(
                Submission {
                    body: joined(remainder(tokens)),
                    note_type_id,
                    collection_id,
                    modifiers: leading_modifiers(tokens),
                },
            ),
        },
    }
}

/// The mathematical value of what `plan_note` returns.
pub open spec fn plan_view(plan: Result<NotePostBody, Rejection>) -> Result<Submission, Refusal> {
    match plan {
        Ok(record) => Ok(record@),
        Err(rejection) => Err(rejection@),
    }
}

/// A note is submitted only when both its note type and its collection
/// resolve: where either fails, the plan is a rejection, and there is
/// nothing to send.
pub proof fn law_no_submission_without_resolution(
    note_type: Seq<char>,
    collection: Seq<char>,
    tokens: Seq<Seq<char>>,
    note_types: Seq<Entry>,
    collections: Seq<Entry>,
)
    ensures
        planned(note_type, collection, tokens, note_types, collections) is Ok <==> (resolution(
            note_type,
            note_types,
        ) is Ok && resolution(collection, collections) is Ok),
{
}

/// Puts the four parts of a note together, unchanged.
pub fn assemble(
    body: String,
    note_type_id: String,
    collection_id: String,
    modifiers: Vec<String>,
) -> (record: NotePostBody)
    ensures
        record.body == body,
        record.note_type_id == note_type_id,
        record.collection_id == collection_id,
        record.modifiers == modifiers,
{
    NotePostBody { body, note_type_id, collection_id, modifiers }
}

/// The fragment to resolve: the one given, or `default` where none is.
pub fn choose_fragment(given: &Option<String>, default: &String) -> (fragment: String)
    ensures
        fragment@ == fragment_or(*given, *default),
{
    match given {
        Some(fragment) => fragment.clone(),
        None => default.clone(),
    }
}

/// Plans a note: resolves the note type and the collection, each from the
/// fragment given or else from the default, takes the modifier codes off the
/// front of the message, and assembles the record; or says which fragment
/// named no single entry.
pub fn plan_note(
    note_type: &Option<String>,
    collection: &Option<String>,
    message: &Vec<String>,
    note_types: &Vec<NoteType>,
    collections: &Vec<Collection>,
    defaults: &Defaults,
) -> (plan: Result<NotePostBody, Rejection>)
    ensures
        plan_view(plan) == planned(
            fragment_or(*note_type, defaults.default_note_type),
            fragment_or(*collection, defaults.default_collection),
            texts(message@),
            entries(note_types@),
            entries(collections@),
        ),
{
    let note_type_fragment = choose_fragment(note_type, &defaults.default_note_type);
    let collection_fragment = choose_fragment(collection, &defaults.default_collection);
    match resolve(note_type_fragment.as_str(), note_types) {
        Err(error) => Err(
            Rejection { selector: Selector::NoteType, fragment: note_type_fragment, error },
        ),
        Ok(note_type_id) => match resolve(collection_fragment.as_str(), collections) {
            Err(error) => Err(
                Rejection { selector: Selector::Collection, fragment: collection_fragment, error },
            ),
            Ok(collection_id) => {
                let (modifiers, rest) = extract_modifiers(message);
                let body = join_tokens(&rest);
                Ok(assemble(body, note_type_id, collection_id, modifiers))
            },
        },
    }
}

} // verus!
