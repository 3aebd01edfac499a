//! The source allow-list that stands in front of both sinks.
//!
//! Events pass the allow-list up to a severity that the environment may
//! lower. The override is a piece of text; where it is absent or cannot be
//! read as a level, the allow-list admits everything.
use vstd::prelude::*;

use crate::level::Level;
use crate::level::SeverityFilter;
use crate::text::text_view;

verus! {

/// The sources whose events the allow-list lets pass, by name.
pub open spec fn allowed_source_names() -> Seq<Seq<char>> {
    seq!["glide"@, "redis"@, "logger_core"@]
}

/// The sources whose events the allow-list lets pass, by name.
pub fn allowed_sources() -> (names: Vec<&'static str>)
    ensures
        names@.len() == allowed_source_names().len(),
        forall|i: int| 0 <= i < names@.len() ==> (#[trigger] names@[i])@ == allowed_source_names()[i],
{
    vec!["glide", "redis", "logger_core"]
}

/// Whether `c` is one of the ten ASCII digits.
pub open spec fn is_ascii_digit(c: char) -> bool {
    '0' <= c && c <= '9'
}

/// Whether `text` is one or more ASCII digits.
pub open spec fn is_decimal(text: Seq<char>) -> bool {
    text.len() > 0 && forall|i: int| 0 <= i < text.len() ==> is_ascii_digit(#[trigger] text[i])
}

/// The number that a sequence of ASCII digits writes in base ten.
pub open spec fn decimal_value(text: Seq<char>) -> nat
    decreases text.len(),
{
    if text.len() == 0 {
        0
    } else {
        (10 * decimal_value(text.drop_last()) + (text.last() as nat - '0' as nat)) as nat
    }
}

/// The number that `text` writes: an optional `+` and then decimal digits.
pub open spec fn unsigned_value(text: Seq<char>) -> Option<nat> {
    let digits = if text.len() > 0 && text[0] == '+' {
        text.subrange(1, text.len() as int)
    } else {
        text
    };
    if is_decimal(digits) {
        Some(decimal_value(digits))
    } else {
        None
    }
}

/// The lower-case form of an ASCII capital; every other character is kept.
pub open spec fn ascii_lowercase(c: char) -> char {
    if 'A' <= c && c <= 'Z' {
        ((c as u32) + 32) as char
    } else {
        c
    }
}

/// Whether `text` is `word` up to the case of ASCII letters.
pub open spec fn eq_ignoring_ascii_case(text: Seq<char>, word: Seq<char>) -> bool {
    text.len() == word.len() && forall|i: int|
        0 <= i < text.len() ==> ascii_lowercase(#[trigger] text[i]) == ascii_lowercase(word[i])
}

/// The level that a number names, if any: 1 is the most severe.
pub open spec fn level_of_number(n: nat) -> Option<Level> {
    if n == 1 {
        Some(Level::Error)
    } else if n == 2 {
        Some(Level::Warn)
    } else if n == 3 {
        Some(Level::Info)
    } else if n == 4 {
        Some(Level::Debug)
    } else if n == 5 {
        Some(Level::Trace)
    } else {
        None
    }
}

/// The level that a word names, if any, whatever the case of its letters.
pub open spec fn level_of_word(text: Seq<char>) -> Option<Level> {
    if eq_ignoring_ascii_case(text, "error"@) {
        Some(Level::Error)
    } else if eq_ignoring_ascii_case(text, "warn"@) {
        Some(Level::Warn)
    } else if eq_ignoring_ascii_case(text, "info"@) {
        Some(Level::Info)
    } else if eq_ignoring_ascii_case(text, "debug"@) {
        Some(Level::Debug)
    } else if eq_ignoring_ascii_case(text, "trace"@) {
        Some(Level::Trace)
    } else {
        None
    }
}

/// The level that `text` names: a number from 1 to 5, or else one of the
/// five level words. It is never `Off`.
pub open spec fn named_level(text: Seq<char>) -> Option<Level> {
    match unsigned_value(text) {
        Some(n) if level_of_number(n) is Some => level_of_number(n),
        _ => level_of_word(text),
    }
}

/// The allow-list's threshold under an optional override.
pub open spec fn threshold_under(rust_log: Option<Seq<char>>) -> SeverityFilter {
    match rust_log {
        Some(text) => match named_level(text) {
            Some(level) => level.filter(),
            None => SeverityFilter::Trace,
        },
        None => SeverityFilter::Trace,
    }
}

/// Reads a level with `tracing::Level`'s `FromStr`.
///
/// That function first tries the text as a `usize` (an optional `+`, then
/// ASCII digits) and takes 1 to 5 as the levels from error to trace; failing
/// that, it compares the text with the five level words, ignoring the case of
/// ASCII letters. The contract states the same over the characters.
#[verifier::external_body]
fn parse_level(text: &str) -> (level: Option<Level>)
    ensures
        level == named_level(text@),
{
    match text.parse::<tracing::Level>() {
        Err(_) => None,
        Ok(tracing::Level::ERROR) => Some(Level::Error),
        Ok(tracing::Level::WARN) => Some(Level::Warn),
        Ok(tracing::Level::INFO) => Some(Level::Info),
        Ok(tracing::Level::DEBUG) => Some(Level::Debug),
        Ok(_) => Some(Level::Trace),
    }
}

/// The allow-list's threshold, given the environment's override if there is
/// one. An override that names no level is ignored.
pub fn source_filter(rust_log: Option<&str>) -> (filter: SeverityFilter)
    ensures
        filter == threshold_under(text_view(rust_log)),
{
    match rust_log {
        Some(text) => match parse_level(text) {
            Some(level) => level.to_filter(),
            None => SeverityFilter::Trace,
        },
        None => SeverityFilter::Trace,
    }
}

} // verus!
