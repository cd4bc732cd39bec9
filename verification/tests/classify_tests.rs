use snipet::classify::detect_language;

#[test]
fn python_signature() {
    assert_eq!(detect_language("def foo():\n    return 1"), "python");
}

#[test]
fn json_object_literal() {
    assert_eq!(detect_language("{\"a\":1}"), "json");
}

#[test]
fn sql_query_uppercase() {
    assert_eq!(detect_language("SELECT * FROM users"), "sql");
}

#[test]
fn go_with_braces() {
    assert_eq!(detect_language("func main() { package main }"), "go");
}

#[test]
fn rust_function_arrow() {
    assert_eq!(detect_language("fn add(a: i32) -> i32 { a }"), "rust");
}

#[test]
fn java_public_class() {
    assert_eq!(detect_language("public class Foo {}"), "java");
}

#[test]
fn csharp_namespace_using() {
    assert_eq!(detect_language("using System;\nnamespace App {}"), "csharp");
}

#[test]
fn cpp_include() {
    assert_eq!(detect_language("#include <stdio.h>"), "cpp");
}

#[test]
fn html_doctype() {
    assert_eq!(detect_language("<!DOCTYPE html><body></body>"), "html");
}

#[test]
fn json_array_after_whitespace() {
    assert_eq!(detect_language("   [1, 2, 3]"), "json");
}

#[test]
fn typescript_annotation() {
    assert_eq!(detect_language("const x: string = \"y\";"), "typescript");
}

#[test]
fn javascript_plain_function() {
    assert_eq!(detect_language("function f() { return 1 }"), "javascript");
}

#[test]
fn css_media_query() {
    assert_eq!(detect_language("@media screen and (max-width: 100px)"), "css");
}

#[test]
fn css_rule_block() {
    assert_eq!(detect_language("body { color: red; }"), "css");
}

#[test]
fn default_fallback_is_javascript() {
    assert_eq!(detect_language("plain words only"), "javascript");
}

#[test]
fn python_rule_loses_to_braces() {
    // a brace anywhere disables the python rule; "fn " and "->" are absent,
    // so the block rule below decides
    assert_eq!(detect_language("def f(): {x: 1};"), "css");
}

#[test]
fn classification_is_repeatable() {
    let text = "const x = 1; let y = 2;";
    let first = detect_language(text);
    let second = detect_language(text);
    assert_eq!(first, second);
    assert_eq!(first, "javascript");
}

#[test]
fn lowercasing_feeds_the_rules() {
    // matches only because the rules see the lower-cased text
    assert_eq!(detect_language("DEF F(): RETURN 1"), "python");
}
