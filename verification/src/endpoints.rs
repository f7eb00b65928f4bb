//! The addresses of the note service, below the base address that the
//! configuration gives.

use vstd::prelude::*;
use vstd::string::*;

verus! {

/// The address of `path` below `base`: the two texts, one after the other.
pub fn endpoint(base: &str, path: &str) -> (url: String)
    ensures
        url@ == base@ + path@,
{
    let mut url = String::from_str(base);
    url.append(path);
    url
}

/// Where the note types are listed, and where a new one is posted.
pub fn note_types_url(base: &str) -> (url: String)
    ensures
        url@ == base@ + "api/note-type"@,
{
    endpoint(base, "api/note-type")
}

/// Where the modifier definitions are listed.
pub fn note_mods_url(base: &str) -> (url: String)
    ensures
        url@ == base@ + "api/note-mods"@,
{
    endpoint(base, "api/note-mods")
}

/// Where the collections are listed.
pub fn collections_url(base: &str) -> (url: String)
    ensures
        url@ == base@ + "api/collection"@,
{
    endpoint(base, "api/collection")
}

/// Where the defaults are given.
pub fn defaults_url(base: &str) -> (url: String)
    ensures
        url@ == base@ + "api/defaults"@,
{
    endpoint(base, "api/defaults")
}

/// Where a note is posted.
pub fn note_url(base: &str) -> (url: String)
    ensures
        url@ == base@ + "api/note"@,
{
    endpoint(base, "api/note")
}

} // verus!
