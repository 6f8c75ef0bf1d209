use egui_inspect::names::{
    button_label, decimal_text, field_binding_name, field_label, format_word, item_label,
    letters_end, list_header, plain_field_label, prettify_name, prettify_word, unnamed_field_name, variant_label,
};

fn chars(s: &str) -> Vec<char> {
    s.chars().collect()
}

#[test]
fn prettify_splits_words_and_digits() {
    assert_eq!(prettify_name("max_speed2"), "Max Speed 2");
    assert_eq!(prettify_name("field10"), "Field 10");
    assert_eq!(prettify_name("field_10"), "Field  10");
    assert_eq!(prettify_name("a_bool"), "A Bool");
}

#[test]
fn prettify_drops_empty_pieces() {
    assert_eq!(prettify_name("__a__b_"), "A B");
    assert_eq!(prettify_name(""), "");
    assert_eq!(prettify_name("___"), "");
}

#[test]
fn prettify_digits_only_word() {
    assert_eq!(prettify_name("123"), " 123");
    assert_eq!(prettify_name("x_2"), "X  2");
}

#[test]
fn prettify_upper_cases_beyond_ascii() {
    assert_eq!(prettify_name("élan"), "Élan");
    assert_eq!(prettify_name("ßeta"), "SSeta");
}

#[test]
fn prettify_keeps_inner_case() {
    assert_eq!(prettify_name("myField"), "MyField");
    assert_eq!(prettify_name("Field 0"), "Field  0");
}

#[test]
fn word_parts() {
    assert_eq!(letters_end(&chars("abc12")), 3);
    assert_eq!(letters_end(&chars("12")), 0);
    assert_eq!(letters_end(&chars("a1b")), 3);
    assert_eq!(prettify_word(&chars("speed2")), chars("Speed 2"));
    assert_eq!(format_word(&chars("A"), &chars("b"), &chars("1")), chars("Ab 1"));
    assert_eq!(format_word(&chars("X"), &chars("yz"), &chars("")), chars("Xyz"));
}

#[test]
fn decimal_names() {
    assert_eq!(decimal_text(0), vec!['0']);
    assert_eq!(decimal_text(205), chars("205"));
    assert_eq!(unnamed_field_name(3), "Field 3");
    assert_eq!(field_binding_name(12), "field12");
    assert_eq!(item_label(7), "Item 7");
    assert_eq!(list_header("Items", 3), "Items[3]");
    assert_eq!(list_header("", 10), "[10]");
}

#[test]
fn field_labels() {
    assert_eq!(field_label(&Some("Custom".to_string()), &Some("x".to_string()), ""), "Custom");
    assert_eq!(field_label(&None, &Some("my_field".to_string()), ""), "My Field");
    assert_eq!(field_label(&None, &None, "Field 0"), "Field  0");
}

#[test]
fn variant_and_button_labels() {
    assert_eq!(variant_label(&None, "MyVariant"), "MyVariant");
    assert_eq!(variant_label(&Some("Other".to_string()), "MyVariant"), "Other");
    assert_eq!(button_label(&None, "do_thing"), "Do Thing");
    assert_eq!(button_label(&Some("Go".to_string()), "do_thing"), "Go");
}

#[test]
fn plain_labels() {
    assert_eq!(plain_field_label(&Some("N".to_string()), &Some("my_x".to_string()), "d"), "N");
    assert_eq!(plain_field_label(&None, &Some("my_x".to_string()), "d"), "my_x");
    assert_eq!(plain_field_label(&None, &None, "Field 2"), "Field 2");
}
