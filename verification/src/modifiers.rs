//! Modifier extraction: the leading single-character tokens of a message are
//! its modifier codes, the rest is its body.

use crate::text::texts;
use vstd::prelude::*;
use vstd::string::*;
use vstd::utf8::{char_u32_cast, encode_scalar, encode_utf8, has_width_1_encoding, is_ascii_chars};

verus! {

/// A token is a modifier code when its text is exactly one byte long.
pub open spec fn is_modifier(token: Seq<char>) -> bool {
    encode_utf8(token).len() == 1
}

/// `n` is where the modifiers of `tokens` end: the first `n` tokens are
/// modifier codes, and the token after them, if there is one, is not.
pub open spec fn modifiers_end_at(tokens: Seq<Seq<char>>, n: int) -> bool {
    &&& 0 <= n <= tokens.len()
    &&& forall|i: int| 0 <= i < n ==> is_modifier(#[trigger] tokens[i])
    &&& n < tokens.len() ==> !is_modifier(tokens[n])
}

/// The number of modifier codes that `tokens` begins with.
pub open spec fn modifier_count(tokens: Seq<Seq<char>>) -> nat
    decreases tokens.len(),
{
    if tokens.len() > 0 && is_modifier(tokens[0]) {
        1 + modifier_count(tokens.skip(1))
    } else {
        0
    }
}

/// The modifier codes of a message: its leading tokens of one byte each.
pub open spec fn leading_modifiers(tokens: Seq<Seq<char>>) -> Seq<Seq<char>> {
    tokens.take(modifier_count(tokens) as int)
}

/// What remains of a message after its modifier codes.
pub open spec fn remainder(tokens: Seq<Seq<char>>) -> Seq<Seq<char>> {
    tokens.skip(modifier_count(tokens) as int)
}

/// The tokens joined by single spaces.
pub open spec fn joined(tokens: Seq<Seq<char>>) -> Seq<char>
    decreases tokens.len(),
{
    if tokens.len() == 0 {
        Seq::empty()
    } else if tokens.len() == 1 {
        tokens[0]
    } else {
        joined(tokens.drop_last()) + seq![' '] + tokens.last()
    }
}

/// A token is a modifier code exactly when it is a single ASCII character:
/// those are the texts that take one byte.
pub proof fn law_modifier_is_one_ascii_char(token: Seq<char>)
    ensures
        is_modifier(token) <==> (token.len() == 1 && is_ascii_chars(token)),
{
    reveal_with_fuel(encode_utf8, 3);
    if token.len() > 0 {
        let scalar = token[0] as u32;
        let rest = token.drop_first();
        char_u32_cast(token[0], scalar);
        assert(encode_utf8(token) == encode_scalar(scalar) + encode_utf8(rest));
        assert(encode_scalar(scalar).len() == 1 <==> has_width_1_encoding(scalar));
        if rest.len() > 0 {
            assert(encode_scalar(rest[0] as u32).len() >= 1);
        }
    }
}

/// The modifiers of a message end at one place only.
pub proof fn law_modifiers_end_once(tokens: Seq<Seq<char>>, a: int, b: int)
    requires
        modifiers_end_at(tokens, a),
        modifiers_end_at(tokens, b),
    ensures
        a == b,
{
    if a < b {
        assert(is_modifier(tokens[a]));
    } else if b < a {
        assert(is_modifier(tokens[b]));
    }
}

/// The modifiers of a message end exactly after `modifier_count` tokens.
pub proof fn law_modifier_count_ends(tokens: Seq<Seq<char>>)
    ensures
        modifiers_end_at(tokens, modifier_count(tokens) as int),
    decreases tokens.len(),
{
    if tokens.len() > 0 && is_modifier(tokens[0]) {
        let rest = tokens.skip(1);
        let m = modifier_count(rest) as int;
        law_modifier_count_ends(rest);
        assert forall|i: int| 0 <= i < m + 1 implies is_modifier(#[trigger] tokens[i]) by {
            if i > 0 {
                assert(tokens[i] == rest[i - 1]);
            }
        }
        if m + 1 < tokens.len() {
            assert(tokens[m + 1] == rest[m]);
        }
    }
}

/// Modifiers and remainder together are the message, in the order typed.
pub proof fn law_split_keeps_message(tokens: Seq<Seq<char>>)
    ensures
        leading_modifiers(tokens) + remainder(tokens) == tokens,
{
    law_modifier_count_ends(tokens);
    assert(leading_modifiers(tokens) + remainder(tokens) =~= tokens);
}

/// A message whose first token is not a modifier code has no modifiers,
/// whatever follows.
pub proof fn law_modifiers_are_a_prefix(tokens: Seq<Seq<char>>)
    requires
        tokens.len() > 0,
        !is_modifier(tokens[0]),
    ensures
        leading_modifiers(tokens) == Seq::<Seq<char>>::empty(),
        remainder(tokens) == tokens,
{
    assert(leading_modifiers(tokens) =~= Seq::<Seq<char>>::empty());
    assert(remainder(tokens) =~= tokens);
}

/// Tells whether `token` is a modifier code.
pub fn is_modifier_token(token: &str) -> (yes: bool)
    ensures
        yes == is_modifier(token@),
{
    token.as_bytes().len() == 1
}

/// The number of leading modifier codes in `body`.
pub fn count_mods(body: &Vec<String>) -> (n: usize)
    ensures
        n == modifier_count(texts(body@)),
        n <= body@.len(),
{
    let mut n: usize = 0;
    while n < body.len()
        invariant
            n <= body.len(),
            forall|i: int| 0 <= i < n ==> is_modifier(#[trigger] texts(body@)[i]),
        ensures
            modifiers_end_at(texts(body@), n as int),
        decreases body.len() - n,
    {
        if !is_modifier_token(body[n].as_str()) {
            break;
        }
        n += 1;
    }
    proof {
        law_modifier_count_ends(texts(body@));
        law_modifiers_end_once(texts(body@), n as int, modifier_count(texts(body@)) as int);
    }
    n
}

/// The tokens of `tokens` from `from` up to `to`, copied.
fn copy_tokens(tokens: &Vec<String>, from: usize, to: usize) -> (copy: Vec<String>)
    requires
        from <= to <= tokens.len(),
    ensures
        texts(copy@) == texts(tokens@).subrange(from as int, to as int),
{
    let mut copy: Vec<String> = Vec::new();
    let mut i: usize = from;
    while i < to
        invariant
            from <= i <= to,
            to <= tokens.len(),
            texts(copy@) =~= texts(tokens@).subrange(from as int, i as int),
        decreases to - i,
    {
        let ghost before = copy@;
        copy.push(tokens[i].clone());
        assert(texts(copy@) =~= texts(before).push(tokens@[i as int]@));
        i += 1;
    }
    copy
}

/// The modifier codes of a message: its leading one-byte tokens, up to the
/// first token that is not one.
pub fn collect_mods(body: &Vec<String>) -> (mods: Vec<String>)
    ensures
        texts(mods@) == leading_modifiers(texts(body@)),
{
    let n = count_mods(body);
    copy_tokens(body, 0, n)
}

/// Splits a message into its modifier codes and the tokens that remain, both
/// in the order typed.
pub fn extract_modifiers(tokens: &Vec<String>) -> (split: (Vec<String>, Vec<String>))
    ensures
        texts(split.0@) == leading_modifiers(texts(tokens@)),
        texts(split.1@) == remainder(texts(tokens@)),
{
    let n = count_mods(tokens);
    let mods = copy_tokens(tokens, 0, n);
    let rest = copy_tokens(tokens, n, tokens.len());
    (mods, rest)
}

/// Joins tokens with single spaces.
pub fn join_tokens(tokens: &Vec<String>) -> (line: String)
    ensures
        line@ == joined(texts(tokens@)),
{
    let mut line = String::new();
    let mut i: usize = 0;
    while i < tokens.len()
        invariant
            i <= tokens.len(),
            line@ == joined(texts(tokens@).take(i as int)),
        decreases tokens.len() - i,
    {
        let ghost before = texts(tokens@).take(i as int);
        let ghost after = texts(tokens@).take(i + 1);
        proof {
            reveal_strlit(" ");
            assert(after.drop_last() =~= before);
            assert(after.last() == tokens@[i as int]@);
            assert(" "@ =~= seq![' ']);
        }
        if i > 0 {
            line.append(" ");
        }
        line.append(tokens[i].as_str());
        proof {
            if i == 0 {
                assert(line@ =~= after[0]);
            }
        }
        i += 1;
    }
    assert(texts(tokens@).take(i as int) =~= texts(tokens@));
    line
}

/// The body of a message: the tokens after its modifier codes, joined by
/// single spaces.
pub fn message_body(tokens: &Vec<String>) -> (body: String)
    ensures
        body@ == joined(remainder(texts(tokens@))),
{
    let n = count_mods(tokens);
    let rest = copy_tokens(tokens, n, tokens.len());
    join_tokens(&rest)
}

} // verus!
