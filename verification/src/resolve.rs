//! Fuzzy resolution: from a typed fragment to the one entry it names.

use crate::reference::{entries, Entry, Named, NamedEntity, NoteType, Collection};
use crate::text::{ascii_lower, contains_seq, lemma_contains_self, str_contains, to_ascii_lowercase};
use vstd::prelude::*;

verus! {

/// Why a fragment names no single entry.
#[derive(Clone, Debug, PartialEq, Eq)]
pub enum ResolutionError {
    /// No entry matches.
    NotFound,
    /// Two or more entries match; they are listed in the order of the input.
    Ambiguous { candidates: Vec<NamedEntity> },
}

/// The mathematical value of a `ResolutionError`.
pub enum Failure {
    NotFound,
    Ambiguous(Seq<Entry>),
}

impl View for ResolutionError {
    type V = Failure;

    open spec fn view(&self) -> Failure {
        match self {
            ResolutionError::NotFound => Failure::NotFound,
            ResolutionError::Ambiguous { candidates } => Failure::Ambiguous(entries(candidates@)),
        }
    }
}

impl ResolutionError {
    /// How many candidates matched: none, or the two or more that did.
    pub fn candidate_count(&self) -> (n: usize)
        ensures
            n == match self@ {
                Failure::NotFound => 0,
                Failure::Ambiguous(hits) => hits.len(),
            },
    {
        match self {
            ResolutionError::NotFound => 0,
            ResolutionError::Ambiguous { candidates } => candidates.len(),
        }
    }
}

/// A name matches a fragment when the name, lower-cased, contains the
/// fragment, lower-cased.
pub open spec fn name_matches(fragment: Seq<char>, name: Seq<char>) -> bool {
    contains_seq(ascii_lower(name), ascii_lower(fragment))
}

/// The entries whose name matches `fragment`, in the order of `list`.
pub open spec fn matching(fragment: Seq<char>, list: Seq<Entry>) -> Seq<Entry> {
    list.filter(|e: Entry| name_matches(fragment, e.name))
}

/// What `fragment` resolves to in `list`: the identifier of the single
/// matching entry, or the reason why there is none.
pub open spec fn resolution(fragment: Seq<char>, list: Seq<Entry>) -> Result<Seq<char>, Failure> {
    let hits = matching(fragment, list);
    if hits.len() == 1 {
        Ok(hits[0].id)
    } else if hits.len() == 0 {
        Err(Failure::NotFound)
    } else {
        Err(Failure::Ambiguous(hits))
    }
}

/// The mathematical value of what `resolve` returns.
pub open spec fn outcome(r: Result<String, ResolutionError>) -> Result<Seq<char>, Failure> {
    match r {
        Ok(id) => Ok(id@),
        Err(e) => Err(e@),
    }
}

/// The identifier that stands for a resolution: the one found, or the empty
/// text where none was.
pub open spec fn id_or_empty(r: Result<Seq<char>, Failure>) -> Seq<char> {
    match r {
        Ok(id) => id,
        Err(_) => Seq::empty(),
    }
}

proof fn lemma_matching_step(fragment: Seq<char>, list: Seq<Entry>, i: int)
    requires
        0 <= i < list.len(),
    ensures
        matching(fragment, list.take(i + 1)) == if name_matches(fragment, list[i].name) {
            matching(fragment, list.take(i)).push(list[i])
        } else {
            matching(fragment, list.take(i))
        },
{
    reveal(Seq::filter);
    assert(list.take(i + 1).drop_last() =~= list.take(i));
}

/// Resolves `fragment` against `candidates`: succeeds with the identifier of
/// the only candidate whose name contains the fragment, letter case of ASCII
/// letters aside, and otherwise says whether none or several matched.
pub fn resolve<T: Named>(fragment: &str, candidates: &Vec<T>) -> (r: Result<
    String,
    ResolutionError,
>)
    ensures
        outcome(r) == resolution(fragment@, entries(candidates@)),
{
    let needle = to_ascii_lowercase(fragment);
    let mut found: Vec<NamedEntity> = Vec::new();
    let mut i: usize = 0;
    proof {
        reveal(Seq::filter);
        assert(entries(candidates@).take(0) =~= Seq::<Entry>::empty());
        assert(entries(found@) =~= Seq::<Entry>::empty());
    }
    while i < candidates.len()
        invariant
            i <= candidates.len(),
            needle@ == ascii_lower(fragment@),
            entries(found@) == matching(fragment@, entries(candidates@).take(i as int)),
        decreases candidates.len() - i,
    {
        let candidate = &candidates[i];
        let lowered = to_ascii_lowercase(candidate.name().as_str());
        let ghost before = found@;
        if str_contains(lowered.as_str(), needle.as_str()) {
            let hit = NamedEntity { id: candidate.id().clone(), name: candidate.name().clone() };
            found.push(hit);
            assert(entries(found@) =~= entries(before).push(candidate.entry()));
        }
        proof {
            lemma_matching_step(fragment@, entries(candidates@), i as int);
        }
        i += 1;
    }
    assert(entries(candidates@).take(i as int) =~= entries(candidates@));
    if found.len() == 1 {
        Ok(found[0].id.clone())
    } else if found.len() == 0 {
        Err(ResolutionError::NotFound)
    } else {
        Err(ResolutionError::Ambiguous { candidates: found })
    }
}

/// The identifier of the note type that `note_type` names, or the empty
/// string where it names none or several.
pub fn get_final_note_type(note_type: &String, note_types: &Vec<NoteType>) -> (id: String)
    ensures
        id@ == id_or_empty(resolution(note_type@, entries(note_types@))),
{
    match resolve(note_type.as_str(), note_types) {
        Ok(id) => id,
        Err(_) => String::new(),
    }
}

/// The identifier of the collection that `collection` names, or the empty
/// string where it names none or several.
pub fn get_final_collection_id(collection: &String, collections: &Vec<Collection>) -> (id: String)
    ensures
        id@ == id_or_empty(resolution(collection@, entries(collections@))),
{
    match resolve(collection.as_str(), collections) {
        Ok(id) => id,
        Err(_) => String::new(),
    }
}


proof fn lemma_no_hits(fragment: Seq<char>, list: Seq<Entry>)
    requires
        forall|j: int| 0 <= j < list.len() ==> !name_matches(fragment, #[trigger] list[j].name),
    ensures
        matching(fragment, list).len() == 0,
    decreases list.len(),
{
    reveal(Seq::filter);
    if list.len() > 0 {
        lemma_no_hits(fragment, list.drop_last());
    }
}

proof fn lemma_one_hit(fragment: Seq<char>, list: Seq<Entry>, j: int)
    requires
        0 <= j < list.len(),
        name_matches(fragment, list[j].name),
    ensures
        matching(fragment, list).len() >= 1,
    decreases list.len(),
{
    reveal(Seq::filter);
    if j < list.len() - 1 {
        lemma_one_hit(fragment, list.drop_last(), j);
    }
}

proof fn lemma_matching_split(fragment: Seq<char>, list: Seq<Entry>, k: int)
    requires
        0 <= k <= list.len(),
    ensures
        matching(fragment, list) == matching(fragment, list.take(k)) + matching(
            fragment,
            list.skip(k),
        ),
{
    assert(list =~= list.take(k) + list.skip(k));
    Seq::filter_distributes_over_add(
        list.take(k),
        list.skip(k),
        |e: Entry| name_matches(fragment, e.name),
    );
}

/// A fragment that is the full name of one entry, and that no other entry's
/// name matches, resolves to that entry's identifier.
pub proof fn law_full_name_resolves(fragment: Seq<char>, list: Seq<Entry>, k: int)
    requires
        0 <= k < list.len(),
        list[k].name == fragment,
        forall|j: int|
            0 <= j < list.len() && j != k ==> !name_matches(fragment, #[trigger] list[j].name),
    ensures
        resolution(fragment, list) == Ok::<Seq<char>, Failure>(list[k].id),
{
    let head = list.take(k);
    let tail = list.skip(k);
    let rest = tail.skip(1);
    lemma_matching_split(fragment, list, k);
    lemma_matching_split(fragment, tail, 1);
    assert forall|j: int| 0 <= j < head.len() implies !name_matches(
        fragment,
        #[trigger] head[j].name,
    ) by {
        assert(head[j] == list[j]);
    }
    assert forall|j: int| 0 <= j < rest.len() implies !name_matches(
        fragment,
        #[trigger] rest[j].name,
    ) by {
        assert(rest[j] == list[k + 1 + j]);
    }
    lemma_no_hits(fragment, head);
    lemma_no_hits(fragment, rest);
    lemma_contains_self(ascii_lower(fragment));
    assert(matching(fragment, tail.take(1)) =~= seq![list[k]]) by {
        reveal_with_fuel(Seq::filter, 2);
        assert(tail.take(1).last() == list[k]);
    }
    assert(matching(fragment, list) =~= seq![list[k]]);
}

/// A fragment that no entry's name matches resolves to nothing: not found.
pub proof fn law_no_match_not_found(fragment: Seq<char>, list: Seq<Entry>)
    requires
        forall|j: int| 0 <= j < list.len() ==> !name_matches(fragment, #[trigger] list[j].name),
    ensures
        resolution(fragment, list) == Err::<Seq<char>, Failure>(Failure::NotFound),
{
    lemma_no_hits(fragment, list);
}

/// A fragment that the names of two different entries match is ambiguous:
/// no entry is picked, and every matching entry is reported.
pub proof fn law_several_matches_ambiguous(fragment: Seq<char>, list: Seq<Entry>, j: int, k: int)
    requires
        0 <= j < k < list.len(),
        name_matches(fragment, list[j].name),
        name_matches(fragment, list[k].name),
    ensures
        matching(fragment, list).len() >= 2,
        resolution(fragment, list) == Err::<Seq<char>, Failure>(
            Failure::Ambiguous(matching(fragment, list)),
        ),
{
    lemma_matching_split(fragment, list, k);
    assert(list.take(k)[j] == list[j]);
    assert(list.skip(k)[0] == list[k]);
    lemma_one_hit(fragment, list.take(k), j);
    lemma_one_hit(fragment, list.skip(k), 0);
}

/// Resolution ignores the case of ASCII letters in the fragment: two
/// fragments with the same lower-case form resolve alike in every list.
pub proof fn law_fragment_case_ignored(a: Seq<char>, b: Seq<char>, list: Seq<Entry>)
    requires
        ascii_lower(a) == ascii_lower(b),
    ensures
        resolution(a, list) == resolution(b, list),
{
    let by_a = |e: Entry| name_matches(a, e.name);
    let by_b = |e: Entry| name_matches(b, e.name);
    assert(by_a =~= by_b);
}

/// Resolution ignores the case of ASCII letters in the names: an entry
/// matches a fragment exactly when its lower-cased name does.
pub proof fn law_name_case_ignored(fragment: Seq<char>, a: Seq<char>, b: Seq<char>)
    requires
        ascii_lower(a) == ascii_lower(b),
    ensures
        name_matches(fragment, a) == name_matches(fragment, b),
{
}

} // verus!
