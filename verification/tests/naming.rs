use flusty::names::{
    camel_case, capitalize, capitalize_with, has_stable_forms, is_capitalizable_name,
    is_own_snake_form, is_separable_name, is_snake_case_name, lower_first, lower_first_with,
    pascal_case, snake_case, snake_case_with, NameCase, Named,
};
use flusty::types::{RsEnum, RsField, RsFn, RsPrimitive, RsStruct, RsType, RsVariant};

fn field(name: &str) -> RsField {
    RsField::new(name.to_string(), RsType::Primitive(RsPrimitive::I32))
}

#[test]
fn test_dart_object() {
    let obj = field("hello_world");
    assert_eq!(obj.pascal_case_name(), "HelloWorld");
    assert_eq!(obj.camel_case_name(), "helloWorld");
}

#[test]
fn snake_stored_name_is_returned_as_it_is() {
    let obj = field("hello_world");
    assert_eq!(obj.stored_case(), NameCase::Snake);
    assert_eq!(obj.stored_name(), "hello_world");
    assert_eq!(obj.snake_case_name(), "hello_world");
}

#[test]
fn function_names_are_stored_in_snake_case() {
    let f = RsFn::new("add_two_numbers".to_string(), vec![], RsType::Primitive(RsPrimitive::Unit));
    assert_eq!(f.snake_case_name(), "add_two_numbers");
    assert_eq!(f.pascal_case_name(), "AddTwoNumbers");
    assert_eq!(f.camel_case_name(), "addTwoNumbers");
}

#[test]
fn pascal_stored_name_is_returned_as_it_is() {
    let s = RsStruct::new("HelloWorld".to_string(), vec![]);
    assert_eq!(s.stored_case(), NameCase::Pascal);
    assert_eq!(s.pascal_case_name(), "HelloWorld");
    assert_eq!(s.camel_case_name(), "helloWorld");
    assert_eq!(s.snake_case_name(), "hello_world");
}

#[test]
fn pascal_stored_name_with_an_acronym_is_kept() {
    let s = RsStruct::new("HTTPServer".to_string(), vec![]);
    assert_eq!(s.pascal_case_name(), "HTTPServer");
    assert_eq!(s.camel_case_name(), "hTTPServer");
    assert_eq!(s.snake_case_name(), "http_server");
}

#[test]
fn enums_and_variants_are_stored_in_pascal_case() {
    let e = RsEnum::new("ColorKind".to_string(), vec![]);
    assert_eq!(e.snake_case_name(), "color_kind");
    assert_eq!(e.pascal_case_name(), "ColorKind");
    let v = RsVariant::new("DarkRed".to_string(), vec![]);
    assert_eq!(v.camel_case_name(), "darkRed");
    assert_eq!(v.snake_case_name(), "dark_red");
}

#[test]
fn snake_case_splits_before_upper_followed_by_lower() {
    assert_eq!(snake_case("helloWorld"), "hello_world");
    assert_eq!(snake_case("HelloWorld"), "hello_world");
    assert_eq!(snake_case("aBC"), "abc");
    assert_eq!(snake_case("ABc"), "a_bc");
    assert_eq!(snake_case("getX"), "getx");
    assert_eq!(snake_case(""), "");
    assert_eq!(snake_case("X"), "x");
}

#[test]
fn snake_case_keeps_every_character() {
    assert_eq!(snake_case("parseHTTPResponse"), "parsehttp_response");
    assert_eq!(snake_case("helloWorld").chars().filter(|c| *c != '_').count(), 10);
}

#[test]
fn snake_case_of_a_snake_name_is_the_name() {
    for name in ["hello_world", "a", "", "a_b_c", "with_1_digit", "__x__", "trailing_"] {
        assert_eq!(snake_case(name), name);
        assert_eq!(snake_case(&snake_case(name)), snake_case(name));
    }
}

#[test]
fn pascal_case_capitalizes_each_segment() {
    assert_eq!(pascal_case("hello_world"), "HelloWorld");
    assert_eq!(pascal_case("helloWorld"), "HelloWorld");
    assert_eq!(pascal_case("a_b_c"), "ABC");
    assert_eq!(pascal_case("with_1_digit"), "With1Digit");
    assert_eq!(pascal_case("__x__"), "X");
    assert_eq!(pascal_case(""), "");
}

#[test]
fn camel_case_lowers_the_first_character_only() {
    assert_eq!(camel_case("hello_world"), "helloWorld");
    assert_eq!(camel_case("HelloWorld"), "helloWorld");
    assert_eq!(camel_case("a_b_c"), "aBC");
    assert_eq!(camel_case(""), "");
}

#[test]
fn camel_of_pascal_of_camel_is_camel_for_names_of_long_words() {
    for name in ["hello_world", "HelloWorld", "helloWorld", "get_value_of", "x", "with_1_digit"] {
        let camel = camel_case(name);
        assert_eq!(camel_case(&pascal_case(&camel)), camel);
    }
}

#[test]
fn camel_of_pascal_of_camel_differs_for_a_one_letter_word() {
    let camel = camel_case("a_b_c");
    assert_eq!(camel, "aBC");
    assert_eq!(camel_case(&pascal_case(&camel)), "abc");
}

#[test]
fn capitalize_and_lower_first_work_on_the_text_as_given() {
    assert_eq!(capitalize("hello_world"), "HelloWorld");
    assert_eq!(capitalize("hello__world_"), "HelloWorld");
    assert_eq!(capitalize("Hello"), "Hello");
    assert_eq!(lower_first("HelloWorld"), "helloWorld");
    assert_eq!(lower_first("helloWorld"), "helloWorld");
    assert_eq!(lower_first(""), "");
}

#[test]
fn the_case_tables_of_std_are_consulted() {
    assert_eq!(snake_case("caf\u{c9}Ouvert"), "caf\u{e9}_ouvert");
    assert_eq!(capitalize("\u{e9}t\u{e9}"), "\u{c9}t\u{e9}");
    assert_eq!(capitalize("\u{df}a"), "SSa");
    assert_eq!(lower_first("\u{c9}t\u{e9}"), "\u{e9}t\u{e9}");
}

#[test]
fn snake_case_with_takes_the_tables_answers_as_given() {
    let chars: Vec<char> = "aXb".chars().collect();
    let upper = vec![false, true, false];
    let lower = vec![true, false, true];
    let lowered = vec![vec!['a'], vec!['y', 'z'], vec!['b']];
    assert_eq!(snake_case_with(&chars, &upper, &lower, &lowered), "a_yb");
    let none: Vec<bool> = vec![];
    assert_eq!(snake_case_with(&chars, &none, &lower, &lowered), "aXb");
    let no_rows: Vec<Vec<char>> = vec![];
    assert_eq!(snake_case_with(&chars, &upper, &lower, &no_rows), "a_Xb");
    assert_eq!(snake_case_with(&chars, &upper, &none, &lowered), "ayb");
}

#[test]
fn capitalize_with_and_lower_first_with_take_the_mappings_as_given() {
    let chars: Vec<char> = "ab_cd".chars().collect();
    let raised = vec![vec!['1', '2'], vec!['B'], vec!['_'], vec![], vec!['D']];
    assert_eq!(capitalize_with(&chars, &raised), "12bd");
    let short = vec![vec!['A']];
    assert_eq!(capitalize_with(&chars, &short), "Abcd");
    assert_eq!(lower_first_with(&chars, &vec!['x', 'y']), "xyb_cd");
    assert_eq!(lower_first_with(&vec![], &vec!['x']), "");
}

#[test]
fn a_name_without_upper_case_characters_is_in_snake_case() {
    for name in ["hello_world", "", "a", "_x_", "with_1_digit", "caf\u{e9}"] {
        assert!(is_snake_case_name(name), "{}", name);
        assert_eq!(snake_case(name), name);
    }
    for name in ["helloWorld", "Hello", "x_Y", "\u{c9}t\u{e9}"] {
        assert!(!is_snake_case_name(name), "{}", name);
    }
}

#[test]
fn a_snake_name_is_separable_if_its_later_words_begin_with_two_letters() {
    for name in ["hello_world", "x", "", "with_1_digit", "_foo", "trailing_", "a__bc", "get_value_of", "1_abc", "___"] {
        assert!(is_separable_name(name), "{}", name);
    }
    for name in ["a_b_c", "get_x", "a__b", "x_y1", "Hello", "hello_World", "b_\u{df}a"] {
        assert!(!is_separable_name(name), "{}", name);
    }
}

#[test]
fn the_camel_form_is_stable_where_the_snake_form_is_separable() {
    let names = [
        "hello_world", "HelloWorld", "helloWorld", "x", "", "with_1_digit", "_foo", "a__bc",
        "parse_http_response", "a_b_c", "get_x", "getX", "ABc", "aBC", "x_y1", "__",
    ];
    for name in names {
        let camel = camel_case(name);
        let again = camel_case(&pascal_case(&camel));
        assert_eq!(has_stable_forms(name), is_separable_name(&snake_case(name)), "{}", name);
        if has_stable_forms(name) {
            assert_eq!(again, camel, "{}", name);
            assert_eq!(pascal_case(&camel), pascal_case(name), "{}", name);
        }
    }
    assert!(has_stable_forms("hello_world"));
    assert!(has_stable_forms("HelloWorld"));
    assert!(!has_stable_forms("a_b_c"));
    assert!(!has_stable_forms("get_x"));
}

#[test]
fn a_stored_name_in_snake_case_is_its_own_snake_form() {
    for name in ["hello_world", "x", "", "with_1_digit", "_foo"] {
        assert!(is_own_snake_form(NameCase::Snake, name), "{}", name);
        assert!(is_own_snake_form(NameCase::Pascal, name), "{}", name);
        assert_eq!(field(name).snake_case_name(), name);
        assert_eq!(RsStruct::new(name.to_string(), vec![]).snake_case_name(), name);
    }
    for name in ["Hello", "helloWorld", "x_Y"] {
        assert!(!is_own_snake_form(NameCase::Snake, name), "{}", name);
        assert!(!is_own_snake_form(NameCase::Pascal, name), "{}", name);
    }
}

#[test]
fn the_camel_form_of_a_capitalizable_stored_name_is_stable() {
    let names = [
        "hello_world", "a_b_c", "get_x", "x", "", "_x", "with_1_digit", "Hello", "a__b", "1a",
        "\u{df}a", "x_\u{df}", "\u{149}x", "\u{130}stanbul", "\u{1c5}x",
    ];
    for name in names {
        assert!(is_capitalizable_name(name), "{}", name);
        let camel = field(name).camel_case_name();
        let pascal = field(&camel).pascal_case_name();
        assert_eq!(field(&pascal).camel_case_name(), camel, "{}", name);
    }
    assert_eq!(field("a_b_c").camel_case_name(), "aBC");
    assert_eq!(field("\u{df}a").pascal_case_name(), "SSa");
    assert_eq!(field("\u{df}a").camel_case_name(), "sSa");
}

#[test]
fn the_camel_form_of_a_name_that_is_not_capitalizable_may_change() {
    let name = "\u{1e9e}a";
    assert!(!is_capitalizable_name(name));
    let camel = field(name).camel_case_name();
    assert_eq!(camel, "\u{df}a");
    let pascal = field(&camel).pascal_case_name();
    assert_eq!(pascal, "SSa");
    assert_eq!(field(&pascal).camel_case_name(), "sSa");
}
