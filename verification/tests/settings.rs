use jlz::config::{
    choose_url, config_file_for, config_file_in, get_config_file, get_home_dir, home_from,
    is_blank, update_config, Config, ConfigError,
};
use jlz::data::{data_kind, plan_note_type, DataKind, NoteTypePlan, NoteTypePostBody};
use jlz::reference::{NoteMod, NoteType};
use jlz::text::same_text;

#[test]
fn config_file_lies_in_the_home_directory() {
    assert_eq!(config_file_in("/home/u"), "/home/u/.jlzrc");
    assert_eq!(config_file_in(""), "/.jlzrc");
}

#[test]
fn config_file_follows_the_home_directory() {
    match (get_home_dir(), get_config_file()) {
        (Ok(home), Ok(file)) => assert_eq!(file, format!("{}/.jlzrc", home)),
        (Err(_), Err(_)) => {}
        (home, file) => panic!("home {:?} and file {:?} disagree", home, file),
    }
}

#[test]
fn blank_line_leaves_the_address() {
    let config = Config { url: "http://x/".to_string() };
    assert_eq!(update_config(config.clone(), ""), config);
    assert_eq!(update_config(config.clone(), "\n"), config);
    assert_eq!(update_config(config.clone(), "  \t \r\n"), config);
    assert!(is_blank(" \n"));
    assert!(!is_blank(" x \n"));
}

#[test]
fn entered_line_is_trimmed_and_taken() {
    let config = Config { url: "http://x/".to_string() };
    assert_eq!(
        update_config(config.clone(), "  http://y/ \n"),
        Config { url: "http://y/".to_string() }
    );
    assert_eq!(
        update_config(config, "http://z/ path\n"),
        Config { url: "http://z/ path".to_string() }
    );
}

#[test]
fn data_kinds_go_by_exact_spelling() {
    assert_eq!(data_kind("NoteType"), DataKind::NoteType);
    assert_eq!(data_kind("NoteMod"), DataKind::NoteMod);
    assert_eq!(data_kind("Collection"), DataKind::Collection);
    assert_eq!(data_kind("notetype"), DataKind::Unknown);
    assert_eq!(data_kind(""), DataKind::Unknown);
    assert_eq!(data_kind("NoteTypes"), DataKind::Unknown);
}

#[test]
fn new_note_type_is_created_only_without_a_match() {
    let types = vec![
        NoteType { id: "1".to_string(), name: "Task".to_string() },
        NoteType { id: "2".to_string(), name: "Idea".to_string() },
    ];
    assert_eq!(
        plan_note_type("Journal", &types),
        NoteTypePlan::Create(NoteTypePostBody { note_type_name: "Journal".to_string() })
    );
    assert_eq!(plan_note_type("task", &types), NoteTypePlan::AlreadyExists);
    assert_eq!(plan_note_type("a", &types), NoteTypePlan::AlreadyExists);
    let none: Vec<NoteType> = vec![];
    assert_eq!(
        plan_note_type("", &none),
        NoteTypePlan::Create(NoteTypePostBody { note_type_name: "".to_string() })
    );
}

#[test]
fn same_text_compares_whole_texts() {
    assert!(same_text("abc", "abc"));
    assert!(same_text("", ""));
    assert!(!same_text("abc", "abd"));
    assert!(!same_text("abc", "ab"));
}

#[test]
fn note_mod_holds_its_code_and_label() {
    let urgent = NoteMod { name: "urgent".to_string(), character: "!".to_string() };
    assert_eq!(urgent.character.chars().count(), 1);
    assert_eq!(urgent.name, "urgent");
}

#[test]
fn config_file_needs_a_home_directory() {
    assert_eq!(config_file_for(Ok("/root".to_string())), Ok("/root/.jlzrc".to_string()));
    assert_eq!(config_file_for(Err(ConfigError::NoHomeDir)), Err(ConfigError::NoHomeDir));
    assert_eq!(
        config_file_for(Err(ConfigError::HomeNotUnicode)),
        Err(ConfigError::HomeNotUnicode)
    );
}

#[test]
fn empty_entry_keeps_the_current_address() {
    assert_eq!(choose_url("http://x/".to_string(), "".to_string()), "http://x/");
    assert_eq!(choose_url("http://x/".to_string(), "http://y/".to_string()), "http://y/");
    assert_eq!(choose_url("".to_string(), "".to_string()), "");
    assert_eq!(choose_url("http://x/".to_string(), " ".to_string()), " ");
}

#[test]
fn home_is_known_only_with_a_readable_path() {
    assert_eq!(home_from(None), Err(ConfigError::NoHomeDir));
    assert_eq!(home_from(Some(None)), Err(ConfigError::HomeNotUnicode));
    assert_eq!(home_from(Some(Some("/home/u".to_string()))), Ok("/home/u".to_string()));
    assert_eq!(home_from(Some(Some("".to_string()))), Ok("".to_string()));
}
