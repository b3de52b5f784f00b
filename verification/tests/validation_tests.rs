//! Tests for input validation, the constraint and preset tables, and the
//! text primitives they rest on.

use dualsensectl_gui::constraints::{
    get_field_constraints, validate_comma_separated_input_exact_10,
    validate_comma_separated_input_up_to_9, validate_input, FieldConstraint,
};
use dualsensectl_gui::decode::decode_trigger;
use dualsensectl_gui::presets::get_presets;
use dualsensectl_gui::text::{parse_u8_lenient, parse_u8_str, tokenize, trim_str};

#[test]
fn constraint_table_rows() {
    let table = get_field_constraints();
    assert_eq!(table.len(), 24);
    let (name, c) = &table[0];
    assert_eq!(name, "Feedback_Position");
    assert_eq!((c.min, c.max), (0, 9));
    assert_eq!(c.tooltip, "Position must be between 0 and 9.");
    let (name, c) = &table[2];
    assert_eq!(name, "Weapon_Start");
    assert_eq!((c.min, c.max), (2, 7));
    let (name, c) = &table[23];
    assert_eq!(name, "Mode_Params");
    assert_eq!((c.min, c.max), (0, 255));
}

#[test]
fn validate_field_text_against_range() {
    let c = FieldConstraint { min: 1, max: 8, tooltip: String::new() };
    assert!(validate_input("5", &c));
    assert!(validate_input("1,8", &c));
    assert!(validate_input(" 3 , 4 ", &c));
    assert!(!validate_input("0", &c));
    assert!(!validate_input("9", &c));
    assert!(!validate_input("abc", &c));
    assert!(!validate_input("", &c));
    assert!(!validate_input("5,", &c));
    // A leading plus sign parses, as it does for the standard byte parse.
    assert!(validate_input("+5", &c));
}

#[test]
fn validate_up_to_nine_values() {
    assert!(validate_comma_separated_input_up_to_9("0,1,2"));
    assert!(validate_comma_separated_input_up_to_9("255"));
    assert!(validate_comma_separated_input_up_to_9("1, 2, 3"));
    assert!(validate_comma_separated_input_up_to_9("1,2,3,4,5,6,7,8,9"));
    assert!(!validate_comma_separated_input_up_to_9("1,2,3,4,5,6,7,8,9,10"));
    assert!(!validate_comma_separated_input_up_to_9("256"));
    assert!(!validate_comma_separated_input_up_to_9(""));
    assert!(!validate_comma_separated_input_up_to_9("1,,2"));
}

#[test]
fn validate_exactly_ten_values() {
    assert!(validate_comma_separated_input_exact_10("0,0,215,0,0,0,125,10,0,0"));
    assert!(!validate_comma_separated_input_exact_10("0,0,215,0,0,0,125,10,0"));
    assert!(!validate_comma_separated_input_exact_10("0,0,215,0,0,0,125,10,0,0,0"));
    assert!(!validate_comma_separated_input_exact_10("0,0,215,0,0,0,125,x,0,0"));
}

#[test]
fn preset_table_rows() {
    let presets = get_presets();
    assert_eq!(presets.len(), 22);
    assert_eq!(presets[0].name, "Right Trigger Constant Resistance");
    assert_eq!(presets[0].command, "dualsensectl trigger right feedback 0 1");
    assert_eq!(presets[0].category, "Feedback Mode");
    assert_eq!(presets[21].name, "Disable Feedback");
    assert_eq!(presets[21].command, "dualsensectl trigger both off");
}

#[test]
fn every_preset_command_decodes() {
    for preset in get_presets() {
        let parts = tokenize(preset.command);
        assert!(
            decode_trigger(&parts).is_some(),
            "preset {} should decode",
            preset.name
        );
    }
}

#[test]
fn tokenizer_splits_on_any_whitespace() {
    assert_eq!(tokenize("a  b\tc\nd"), vec!["a", "b", "c", "d"]);
    assert_eq!(tokenize("  leading and trailing  "), vec!["leading", "and", "trailing"]);
    assert_eq!(tokenize(""), Vec::<String>::new());
    assert_eq!(tokenize(" \t\n"), Vec::<String>::new());
}

#[test]
fn strict_parse_matches_std() {
    assert_eq!(parse_u8_str("0"), Some(0));
    assert_eq!(parse_u8_str("255"), Some(255));
    assert_eq!(parse_u8_str("007"), Some(7));
    assert_eq!(parse_u8_str("+5"), Some(5));
    assert_eq!(parse_u8_str("256"), None);
    assert_eq!(parse_u8_str(""), None);
    assert_eq!(parse_u8_str("+"), None);
    assert_eq!(parse_u8_str(" 5"), None);
    assert_eq!(parse_u8_str("5x"), None);
    assert_eq!(parse_u8_str("-1"), None);
}

#[test]
fn strict_parse_agrees_with_str_parse() {
    for text in ["0", "255", "007", "+5", "++5", "256", "", "+", " 5", "5x", "-1", "1000000"] {
        assert_eq!(parse_u8_str(text), text.parse::<u8>().ok(), "on {:?}", text);
    }
}

#[test]
fn lenient_parse_sheds_one_bracket_each_side() {
    assert_eq!(parse_u8_lenient("3"), 3);
    assert_eq!(parse_u8_lenient("[3"), 3);
    assert_eq!(parse_u8_lenient("3]"), 3);
    assert_eq!(parse_u8_lenient("[3]"), 3);
    assert_eq!(parse_u8_lenient("[[3]"), 0);
    assert_eq!(parse_u8_lenient("x"), 0);
    assert_eq!(parse_u8_lenient("["), 0);
    assert_eq!(parse_u8_lenient(""), 0);
    assert_eq!(parse_u8_lenient("300"), 0);
}

#[test]
fn trim_removes_surrounding_whitespace() {
    assert_eq!(trim_str("  5 "), "5");
    assert_eq!(trim_str("\t a b \n"), "a b");
    assert_eq!(trim_str(""), "");
    assert_eq!(trim_str("   "), "");
}
