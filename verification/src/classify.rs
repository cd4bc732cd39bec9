//! The heuristic language classifier: an ordered list of substring checks
//! against the lower-cased text, where the first matching rule wins. The
//! ordering is itself the tie-break policy; the result is a best-effort tag,
//! not a guarantee.

use vstd::prelude::*;

use crate::strutil::{contains_str, first_non_space, first_non_space_char, spec_contains};

verus! {

/// What `str::to_lowercase` returns for the given characters; the mapping
/// depends on the characters alone.
pub uninterp spec fn lower_of(s: Seq<char>) -> Seq<char>;

/// Relies on `str::to_lowercase`: returns the lowercase mapping of the
/// input, a function of the input characters alone.
#[verifier::external_body]
fn to_lower(s: &str) -> (r: String)
    ensures
        r@ == lower_of(s@),
{
    s.to_lowercase()
}

/// The tag that the ordered rules assign to `code`. Each rule tests
/// substrings of the lower-cased text, except the bracket rule, which looks
/// at the first non-whitespace character of the text as given.
pub open spec fn classify_spec(code: Seq<char>) -> Seq<char> {
    let low = lower_of(code);
    if spec_contains(low, "def "@) && spec_contains(low, ":"@) && !spec_contains(low, "{"@) {
        "python"@
    } else if spec_contains(low, "fn "@) && spec_contains(low, "->"@) {
        "rust"@
    } else if spec_contains(low, "func "@) && spec_contains(low, "package "@) {
        "go"@
    } else if spec_contains(low, "public class "@) || spec_contains(low, "private class "@) {
        "java"@
    } else if spec_contains(low, "namespace "@) && spec_contains(low, "using "@) {
        "csharp"@
    } else if spec_contains(low, "#include"@) {
        "cpp"@
    } else if spec_contains(low, "<html"@) || spec_contains(low, "<!doctype"@) {
        "html"@
    } else if spec_contains(low, "select "@) && spec_contains(low, "from "@) {
        "sql"@
    } else if first_non_space(code) == Some('{') || first_non_space(code) == Some('[') {
        "json"@
    } else if spec_contains(low, "function "@) || spec_contains(low, "const "@) || spec_contains(
        low,
        "let "@,
    ) {
        if spec_contains(low, ": string"@) || spec_contains(low, ": number"@) || spec_contains(
            low,
            "<"@,
        ) {
            "typescript"@
        } else {
            "javascript"@
        }
    } else if spec_contains(low, "@media"@) || (spec_contains(low, "{"@) && spec_contains(
        low,
        ":"@,
    ) && spec_contains(low, ";"@)) {
        "css"@
    } else {
        "javascript"@
    }
}

/// Assigns a language tag to untyped text by the first matching rule.
pub fn detect_language(code: &str) -> (r: String)
    ensures
        r@ == classify_spec(code@),
{
    let lowered = to_lower(code);
    let low = lowered.as_str();
    if contains_str(low, "def ") && contains_str(low, ":") && !contains_str(low, "{") {
        String::from_str("python")
    } else if contains_str(low, "fn ") && contains_str(low, "->") {
        String::from_str("rust")
    } else if contains_str(low, "func ") && contains_str(low, "package ") {
        String::from_str("go")
    } else if contains_str(low, "public class ") || contains_str(low, "private class ") {
        String::from_str("java")
    } else if contains_str(low, "namespace ") && contains_str(low, "using ") {
        String::from_str("csharp")
    } else if contains_str(low, "#include") {
        String::from_str("cpp")
    } else if contains_str(low, "<html") || contains_str(low, "<!doctype") {
        String::from_str("html")
    } else if contains_str(low, "select ") && contains_str(low, "from ") {
        String::from_str("sql")
    } else {
        let first = first_non_space_char(code);
        if first == Some('{') || first == Some('[') {
            String::from_str("json")
        } else if contains_str(low, "function ") || contains_str(low, "const ") || contains_str(
            low,
            "let ",
        ) {
            if contains_str(low, ": string") || contains_str(low, ": number") || contains_str(
                low,
                "<",
            ) {
                String::from_str("typescript")
            } else {
                String::from_str("javascript")
            }
        } else if contains_str(low, "@media") || (contains_str(low, "{") && contains_str(low, ":")
            && contains_str(low, ";")) {
            String::from_str("css")
        } else {
            String::from_str("javascript")
        }
    }
}

/// The classifier is deterministic and pure: it is a function of the input
/// text alone, so equal inputs always carry equal tags.
pub proof fn lemma_classify_deterministic(a: Seq<char>, b: Seq<char>)
    requires
        a == b,
    ensures
        classify_spec(a) == classify_spec(b),
{
}

} // verus!
