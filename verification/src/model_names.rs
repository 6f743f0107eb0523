//! Model-name rules for the OpenAI Responses API: which models route there,
//! and the reasoning-effort suffix a user may append to a model name.

use vstd::prelude::*;

use crate::text::opt_text;

verus! {

/// Whether `regex::Regex::new` accepts the pattern.
pub uninterp spec fn regex_compiles(pattern: Seq<char>) -> bool;

/// Whether the compiled pattern matches somewhere in the text
/// (`Regex::is_match`).
pub uninterp spec fn regex_matches(pattern: Seq<char>, text: Seq<char>) -> bool;

/// The text of a named capture group in the first match of the compiled
/// pattern in the text, when the group takes part in it (`Regex::captures`,
/// then `Captures::name`).
pub uninterp spec fn regex_capture(pattern: Seq<char>, text: Seq<char>, group: Seq<char>) -> Option<
    Seq<char>,
>;

/// `Regex::new(pattern)` and then `is_match(text)`: none when the pattern
/// does not compile, else whether it matches. The matching itself is named,
/// not described.
#[verifier::external_body]
fn regex_is_match(pattern: &str, text: &str) -> (r: Option<bool>)
    ensures
        r is Some <==> regex_compiles(pattern@),
        r matches Some(b) ==> b == regex_matches(pattern@, text@),
{
    match regex::Regex::new(pattern) {
        Ok(re) => Some(re.is_match(text)),
        Err(_) => None,
    }
}

/// `Regex::new(pattern)`, `captures(text)`, and the texts of two named
/// groups: none when the pattern does not compile; else none inside when the
/// pattern does not match the text (`captures` finds a match exactly when
/// `is_match` does), else the text of each group that takes part.
#[verifier::external_body]
fn regex_named_captures(pattern: &str, text: &str, first: &str, second: &str) -> (r: Option<
    Option<(Option<String>, Option<String>)>,
>)
    ensures
        r is Some <==> regex_compiles(pattern@),
        r matches Some(found) ==> (found is Some <==> regex_matches(pattern@, text@)),
        r matches Some(Some(groups)) ==> opt_text(groups.0) == regex_capture(
            pattern@,
            text@,
            first@,
        ) && opt_text(groups.1) == regex_capture(pattern@, text@, second@),
{
    match regex::Regex::new(pattern) {
        Ok(re) => Some(
            re.captures(text).map(
                |c| (
                    c.name(first).map(|m| m.as_str().to_string()),
                    c.name(second).map(|m| m.as_str().to_string()),
                ),
            ),
        ),
        Err(_) => None,
    }
}

/// `c` with ASCII capitals made small.
pub open spec fn ascii_lower(c: char) -> char {
    if 'A' <= c <= 'Z' {
        ((c as u32) + 32) as char
    } else {
        c
    }
}

/// `s` with every ASCII capital made small.
pub open spec fn lowercase_ascii(s: Seq<char>) -> Seq<char> {
    s.map_values(|c: char| ascii_lower(c))
}

/// `str::to_ascii_lowercase`: every ASCII capital made small, every other
/// character kept.
#[verifier::external_body]
fn ascii_lowercase(s: &str) -> (r: String)
    ensures
        r@ == lowercase_ascii(s@),
{
    s.to_ascii_lowercase()
}

/// The pattern of model names that use the Responses API: an `o`-series
/// model (`o` and digits) or a `gpt-5` variant, at the start or after `-` or
/// `/`, in any case.
pub open spec fn responses_model_pattern() -> Seq<char> {
    "(?i)(?:^|[-/])(?:o\\d+(?:$|-)|gpt-5(?:$|[-.]))"@
}

/// The pattern of a reasoning-effort suffix: the base name, a `-`, and one of
/// `none`, `low`, `medium`, `high` or `xhigh`, in any case.
pub open spec fn effort_suffix_pattern() -> Seq<char> {
    "(?i)^(?P<base>.+)-(?P<effort>none|low|medium|high|xhigh)$"@
}

/// Whether the model should use the Responses API: its name matches the
/// pattern anywhere.
pub open spec fn is_responses_model(model_name: Seq<char>) -> bool {
    regex_compiles(responses_model_pattern()) && regex_matches(
        responses_model_pattern(),
        model_name,
    )
}

/// True when the model should use the OpenAI Responses API: every `o`-series
/// model and every `gpt-5` variant, also inside hosted aliases such as
/// `databricks-gpt-5.4` or `goose-o3-mini`.
pub fn is_openai_responses_model(model_name: &str) -> (r: bool)
    ensures
        r == is_responses_model(model_name@),
{
    match regex_is_match("(?i)(?:^|[-/])(?:o\\d+(?:$|-)|gpt-5(?:$|[-.]))", model_name) {
        Some(matched) => matched,
        None => false,
    }
}

/// The base name and the lowercased effort from a suffix split, or the whole
/// name and no effort when the name does not split.
pub fn reasoning_effort_from_split(model_name: &str, split: Option<(String, String)>) -> (r: (
    String,
    Option<String>,
))
    ensures
        split is None ==> r.0@ == model_name@ && r.1 is None,
        split matches Some(pair) ==> (r.0@ == pair.0@ && (r.1 matches Some(e) && e@
            == lowercase_ascii(pair.1@))),
{
    match split {
        Some((base, effort)) => (base, Some(ascii_lowercase(effort.as_str()))),
        None => (model_name.to_owned(), None),
    }
}

/// The base name and effort of a name when the effort pattern splits it.
pub open spec fn effort_split(model_name: Seq<char>) -> Option<(Seq<char>, Seq<char>)> {
    let base = regex_capture(effort_suffix_pattern(), model_name, "base"@);
    let effort = regex_capture(effort_suffix_pattern(), model_name, "effort"@);
    if regex_compiles(effort_suffix_pattern()) && regex_matches(effort_suffix_pattern(), model_name)
        && base is Some && effort is Some {
        Some((base->0, effort->0))
    } else {
        None
    }
}

/// Splits an explicit reasoning-effort suffix off a Responses model's name:
/// `gpt-5.4-high` gives `gpt-5.4` and `high`. Other names, and names without
/// a suffix, come back whole with no effort, so the API applies its own
/// default.
pub fn extract_reasoning_effort(model_name: &str) -> (r: (String, Option<String>))
    ensures
        !is_responses_model(model_name@) ==> r.0@ == model_name@ && r.1 is None,
        is_responses_model(model_name@) && effort_split(model_name@) is None ==> r.0@
            == model_name@ && r.1 is None,
        is_responses_model(model_name@) ==> (effort_split(model_name@) matches Some(pair) ==> (r.0@
            == pair.0 && (r.1 matches Some(e) && e@ == lowercase_ascii(pair.1)))),
{
    if !is_openai_responses_model(model_name) {
        return (model_name.to_owned(), None);
    }
    let split = match regex_named_captures(
        "(?i)^(?P<base>.+)-(?P<effort>none|low|medium|high|xhigh)$",
        model_name,
        "base",
        "effort",
    ) {
        Some(Some((Some(base), Some(effort)))) => Some((base, effort)),
        _ => None,
    };
    reasoning_effort_from_split(model_name, split)
}

} // verus!
