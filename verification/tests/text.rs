use leaf::decimal::decimal_i64;
use leaf::text::{contains, join_path, replace_all, replace_char, starts_with};

#[test]
fn replace_all_left_to_right() {
    assert_eq!(replace_all("a.wasm.wasm", ".wasm", "_wizer.wasm"), "a_wizer.wasm_wizer.wasm");
    assert_eq!(replace_all("aaa", "aa", "b"), "ba");
    assert_eq!(replace_all("abc", "x", "y"), "abc");
    assert_eq!(replace_all("", "x", "y"), "");
}

#[test]
fn replace_name_placeholder() {
    assert_eq!(
        replace_all("name = \"{{name}}\"\n# {{name}}", "{{name}}", "demo"),
        "name = \"demo\"\n# demo"
    );
}

#[test]
fn replace_char_everywhere() {
    assert_eq!(replace_char("rust-basic-app", '-', '_'), "rust_basic_app");
    assert_eq!(replace_char("", '-', '_'), "");
}

#[test]
fn contains_and_starts_with() {
    assert!(contains("hello-rust", "rust"));
    assert!(contains("abc", ""));
    assert!(!contains("ab", "abc"));
    assert!(starts_with("hello-rust/src/lib.rs", "hello-rust/src"));
    assert!(!starts_with("hello", "hello-rust"));
}

#[test]
fn join_path_like_std() {
    for (base, comp) in [("a", "b"), ("a/", "b"), ("", "b"), ("a", "/b"), ("a", ""), ("./target", "wasm32-wasi")] {
        let expected = std::path::Path::new(base).join(comp).to_str().unwrap().to_string();
        assert_eq!(join_path(base, comp), expected);
    }
}

#[test]
fn decimal_numbers() {
    assert_eq!(decimal_i64(0), "0");
    assert_eq!(decimal_i64(7), "7");
    assert_eq!(decimal_i64(1234567890), "1234567890");
    assert_eq!(decimal_i64(-45), "-45");
    assert_eq!(decimal_i64(i64::MIN), i64::MIN.to_string());
    assert_eq!(decimal_i64(i64::MAX), i64::MAX.to_string());
}

#[test]
fn replace_with_empty_pattern() {
    assert_eq!(replace_all("abc", "", "x"), "abc".replace("", "x"));
    assert_eq!(replace_all("abc", "", "x"), "xaxbxcx");
    assert_eq!(replace_all("", "", "x"), "x");
}
