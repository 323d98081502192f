use ccswitcher::prompts::{
    answer_or_default, optional_answer, parse_flag_answer, parse_menu_action, parse_yes_no,
    provider_from_answer, select_preset_index, MenuAction,
};
use ccswitcher::provider::ProviderKind;

#[test]
fn yes_no_answers() {
    assert_eq!(parse_yes_no("", true), Some(true));
    assert_eq!(parse_yes_no("", false), Some(false));
    assert_eq!(parse_yes_no("y", false), Some(true));
    assert_eq!(parse_yes_no("YES", false), Some(true));
    assert_eq!(parse_yes_no("No", true), Some(false));
    assert_eq!(parse_yes_no("n", true), Some(false));
    assert_eq!(parse_yes_no("maybe", true), None);
    assert_eq!(parse_yes_no("yess", true), None);
}

#[test]
fn flag_answers() {
    assert_eq!(parse_flag_answer(""), Some(None));
    for word in ["true", "T", "1", "Yes", "y"] {
        assert_eq!(parse_flag_answer(word), Some(Some(true)), "{word}");
    }
    for word in ["FALSE", "f", "0", "no", "N"] {
        assert_eq!(parse_flag_answer(word), Some(Some(false)), "{word}");
    }
    assert_eq!(parse_flag_answer("2"), None);
}

#[test]
fn menu_actions() {
    assert_eq!(parse_menu_action("1"), MenuAction::List);
    assert_eq!(parse_menu_action("LIST"), MenuAction::List);
    assert_eq!(parse_menu_action("2"), MenuAction::Current);
    assert_eq!(parse_menu_action("use"), MenuAction::Use);
    assert_eq!(parse_menu_action("4"), MenuAction::Add);
    assert_eq!(parse_menu_action("Remove"), MenuAction::Remove);
    assert_eq!(parse_menu_action("reset-official"), MenuAction::Reset);
    assert_eq!(parse_menu_action("6"), MenuAction::Reset);
    assert_eq!(parse_menu_action("install"), MenuAction::Install);
    assert_eq!(parse_menu_action("quit"), MenuAction::Exit);
    assert_eq!(parse_menu_action("0"), MenuAction::Exit);
    assert_eq!(parse_menu_action("8"), MenuAction::Invalid);
    assert_eq!(parse_menu_action(""), MenuAction::Invalid);
}

#[test]
fn provider_answers() {
    assert_eq!(provider_from_answer("glm"), ProviderKind::Glm);
    assert_eq!(provider_from_answer("GLM"), ProviderKind::Glm);
    assert_eq!(provider_from_answer(""), ProviderKind::Custom);
    assert_eq!(provider_from_answer("glm4"), ProviderKind::Custom);
}

#[test]
fn preset_selection_by_number() {
    assert_eq!(select_preset_index("1", 3), Some(0));
    assert_eq!(select_preset_index("3", 3), Some(2));
    assert_eq!(select_preset_index("4", 3), None);
    assert_eq!(select_preset_index("0", 3), None);
    assert_eq!(select_preset_index("two", 3), None);
    assert_eq!(select_preset_index("1", 0), None);
}

#[test]
fn defaults_for_empty_answers() {
    assert_eq!(answer_or_default(String::new(), "GLM-4.7"), "GLM-4.7");
    assert_eq!(answer_or_default("other".to_owned(), "GLM-4.7"), "other");
    assert_eq!(optional_answer(String::new()), None);
    assert_eq!(optional_answer("x".to_owned()), Some("x".to_owned()));
}
