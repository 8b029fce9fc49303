use lc_backup::menu::MainChoice;
use lc_backup::menu::MenuChoice;
use lc_backup::menu::format_save_vec;
use lc_backup::menu::parse_main_choice;
use lc_backup::menu::parse_menu_selection;
use lc_backup::numeral::pad2_string;
use lc_backup::numeral::pad4_string;
use lc_backup::numeral::u64_to_string;

#[test]
fn empty_input_aborts_the_flow() {
    assert_eq!(parse_menu_selection("", 5), MenuChoice::Abort);
    assert_eq!(parse_menu_selection("", 0), MenuChoice::Abort);
}

#[test]
fn number_in_range_selects_that_entry() {
    assert_eq!(parse_menu_selection("1", 5), MenuChoice::Select(0));
    assert_eq!(parse_menu_selection("3", 5), MenuChoice::Select(2));
    assert_eq!(parse_menu_selection("5", 5), MenuChoice::Select(4));
    assert_eq!(parse_menu_selection("12", 25), MenuChoice::Select(11));
}

#[test]
fn out_of_range_or_garbled_input_asks_again() {
    assert_eq!(parse_menu_selection("0", 5), MenuChoice::Retry);
    assert_eq!(parse_menu_selection("6", 5), MenuChoice::Retry);
    assert_eq!(parse_menu_selection("abc", 5), MenuChoice::Retry);
    assert_eq!(parse_menu_selection("1a", 5), MenuChoice::Retry);
    assert_eq!(parse_menu_selection("-1", 5), MenuChoice::Retry);
    assert_eq!(parse_menu_selection("1", 0), MenuChoice::Retry);
    assert_eq!(
        parse_menu_selection("99999999999999999999999999999999", 5),
        MenuChoice::Retry
    );
}

#[test]
fn leading_zeros_still_select() {
    assert_eq!(parse_menu_selection("003", 5), MenuChoice::Select(2));
    assert_eq!(parse_menu_selection("000", 5), MenuChoice::Retry);
}

#[test]
fn main_menu_offers_create_and_load() {
    assert_eq!(parse_main_choice("1"), MainChoice::Create);
    assert_eq!(parse_main_choice("2"), MainChoice::Load);
    assert_eq!(parse_main_choice(""), MainChoice::ShowMenu);
    assert_eq!(parse_main_choice("3"), MainChoice::ShowMenu);
    assert_eq!(parse_main_choice("12"), MainChoice::ShowMenu);
}

#[test]
fn list_is_rendered_with_one_based_numbers() {
    let items: Vec<String> = vec!["LCSaveFile1".to_string(), "LCSaveFile2".to_string()];
    assert_eq!(format_save_vec(&items), "1. LCSaveFile1\n2. LCSaveFile2");
}

#[test]
fn empty_list_renders_empty() {
    let items: Vec<String> = Vec::new();
    assert_eq!(format_save_vec(&items), "");
}

#[test]
fn numbering_past_nine_uses_two_digits() {
    let items: Vec<String> = (0..12).map(|_| "x".to_string()).collect();
    let expected = (1..=12)
        .map(|i| format!("{}. x", i))
        .collect::<Vec<String>>()
        .join("\n");
    assert_eq!(format_save_vec(&items), expected);
}

#[test]
fn numerals_print_exactly() {
    assert_eq!(u64_to_string(0), "0");
    assert_eq!(u64_to_string(7), "7");
    assert_eq!(u64_to_string(2024), "2024");
    assert_eq!(pad2_string(3), "03");
    assert_eq!(pad2_string(59), "59");
    assert_eq!(pad4_string(0), "0000");
    assert_eq!(pad4_string(42), "0042");
    assert_eq!(pad4_string(987), "0987");
    assert_eq!(pad4_string(12345), "12345");
}
