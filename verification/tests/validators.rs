use bob::input::{validate_lang_response, validate_stdlib_response, validate_yes_no_response};
use bob::text::str_eq;

#[test]
fn yes_no_accepts_exactly_y_and_n() {
    assert!(validate_yes_no_response(String::from("y")));
    assert!(validate_yes_no_response(String::from("n")));
    assert!(!validate_yes_no_response(String::from("Y")));
    assert!(!validate_yes_no_response(String::from("yes")));
    assert!(!validate_yes_no_response(String::from("")));
}

#[test]
fn lang_accepts_exactly_the_three_tokens() {
    assert!(validate_lang_response(String::from("c")));
    assert!(validate_lang_response(String::from("cpp")));
    assert!(validate_lang_response(String::from("c++")));
    assert!(!validate_lang_response(String::from("C")));
    assert!(!validate_lang_response(String::from("c+")));
    assert!(!validate_lang_response(String::from("rust")));
    assert!(!validate_lang_response(String::from("")));
}

#[test]
fn stdlib_accepts_latest_and_flag_prefixed() {
    assert!(validate_stdlib_response(String::from("latest")));
    assert!(validate_stdlib_response(String::from("-std=c11")));
    assert!(validate_stdlib_response(String::from("-std=c++2b")));
    assert!(validate_stdlib_response(String::from("-std=")));
    assert!(!validate_stdlib_response(String::from("c23")));
    assert!(!validate_stdlib_response(String::from("std=c11")));
    assert!(!validate_stdlib_response(String::from("-st")));
    assert!(!validate_stdlib_response(String::from("Latest")));
    assert!(!validate_stdlib_response(String::from("")));
}

#[test]
fn str_eq_compares_by_content() {
    assert!(str_eq("", ""));
    assert!(str_eq("abc", "abc"));
    assert!(!str_eq("abc", "abd"));
    assert!(!str_eq("abc", "ab"));
    assert!(!str_eq("", "a"));
}
