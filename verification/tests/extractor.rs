use jlz::modifiers::{
    collect_mods, count_mods, extract_modifiers, is_modifier_token, join_tokens, message_body,
};

fn tokens(words: &[&str]) -> Vec<String> {
    words.iter().map(|w| w.to_string()).collect()
}

#[test]
fn leading_single_characters_are_modifiers() {
    let message = tokens(&["!", "@", "remember", "the", "milk"]);
    let (mods, rest) = extract_modifiers(&message);
    assert_eq!(mods, tokens(&["!", "@"]));
    assert_eq!(rest, tokens(&["remember", "the", "milk"]));
    assert_eq!(join_tokens(&rest), "remember the milk");
    assert_eq!(message_body(&message), "remember the milk");
    assert_eq!(collect_mods(&message), tokens(&["!", "@"]));
}

#[test]
fn extraction_stops_at_first_long_token() {
    let message = tokens(&["remember", "!", "milk"]);
    let (mods, rest) = extract_modifiers(&message);
    assert_eq!(mods, Vec::<String>::new());
    assert_eq!(rest, tokens(&["remember", "!", "milk"]));
    assert_eq!(message_body(&message), "remember ! milk");
    assert_eq!(collect_mods(&message), Vec::<String>::new());
}

#[test]
fn all_single_characters_leave_no_body() {
    let message = tokens(&["a", "b", "c"]);
    let (mods, rest) = extract_modifiers(&message);
    assert_eq!(mods, tokens(&["a", "b", "c"]));
    assert_eq!(rest, Vec::<String>::new());
    assert_eq!(message_body(&message), "");
}

#[test]
fn later_single_characters_stay_in_the_body() {
    let message = tokens(&["!", "buy", "a", "b"]);
    let (mods, rest) = extract_modifiers(&message);
    assert_eq!(mods, tokens(&["!"]));
    assert_eq!(rest, tokens(&["buy", "a", "b"]));
    assert_eq!(count_mods(&message), 1);
}

#[test]
fn empty_message_has_no_modifiers_and_no_body() {
    let message: Vec<String> = vec![];
    let (mods, rest) = extract_modifiers(&message);
    assert_eq!(mods, Vec::<String>::new());
    assert_eq!(rest, Vec::<String>::new());
    assert_eq!(message_body(&message), "");
    assert_eq!(count_mods(&message), 0);
}

#[test]
fn modifier_length_is_counted_in_bytes() {
    assert!(is_modifier_token("!"));
    assert!(is_modifier_token("a"));
    assert!(!is_modifier_token(""));
    assert!(!is_modifier_token("ab"));
    assert!(!is_modifier_token("é"));
    let message = tokens(&["é", "x"]);
    assert_eq!(collect_mods(&message), Vec::<String>::new());
    let message = tokens(&["x", "", "y"]);
    assert_eq!(collect_mods(&message), tokens(&["x"]));
}

#[test]
fn modifiers_and_remainder_make_the_message() {
    let message = tokens(&["!", "@", "remember", "the", "milk"]);
    let (mut mods, rest) = extract_modifiers(&message);
    mods.extend(rest);
    assert_eq!(mods, message);
}

#[test]
fn join_puts_single_spaces_between_tokens() {
    assert_eq!(join_tokens(&tokens(&[])), "");
    assert_eq!(join_tokens(&tokens(&["one"])), "one");
    assert_eq!(join_tokens(&tokens(&["one", "two"])), "one two");
    assert_eq!(join_tokens(&tokens(&["a", "", "b"])), "a  b");
    assert_eq!(join_tokens(&tokens(&["", ""])), " ");
}

#[test]
fn modifiers_are_passed_on_as_typed() {
    let message = tokens(&["?", "~", "7", "note"]);
    let (mods, rest) = extract_modifiers(&message);
    assert_eq!(mods, tokens(&["?", "~", "7"]));
    assert_eq!(rest, tokens(&["note"]));
}
