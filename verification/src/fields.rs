//! Formatting of the individual record fields: time, level, method,
//! status, and the plain-text fallback.

use vstd::prelude::*;

use crate::style::{Color, Span, Style, dim_style, fg, fg_bold, plain_style};
use crate::text::{
    contains_str, contains_sub, dec_digits, eq_up_to_case, find_char, find_first, pad_right,
    pad_to, str_eq, u16_to_dec, upcase,
};

verus! {

/// The displayed portion of a `time` field: the text after the first `'T'`,
/// cut at the first `'.'` that follows.  `None` when there is no `'T'`.
pub open spec fn spec_extract_time(s: Seq<char>) -> Option<Seq<char>> {
    match find_first(s, 'T') {
        None => None,
        Some(i) => {
            let rest = s.subrange(i + 1, s.len() as int);
            match find_first(rest, '.') {
                None => Some(rest),
                Some(j) => Some(rest.subrange(0, j)),
            }
        },
    }
}

/// Extracts the `HH:MM:SS` portion of an ISO-8601-like timestamp: the text
/// between the first `'T'` and the first `'.'` after it.
pub fn extract_time(time_str: &str) -> (r: Option<String>)
    ensures
        match r {
            Some(t) => spec_extract_time(time_str@) == Some(t@),
            None => spec_extract_time(time_str@) is None,
        },
{
    let i = match find_char(time_str, 'T') {
        None => {
            return None;
        },
        Some(i) => i,
    };
    let n = time_str.unicode_len();
    proof {
        crate::text::lemma_find_first(time_str@, 'T');
    }
    let rest = time_str.substring_char(i + 1, n);
    match find_char(rest, '.') {
        None => Some(rest.to_owned()),
        Some(j) => {
            proof {
                crate::text::lemma_find_first(rest@, '.');
            }
            Some(rest.substring_char(0, j).to_owned())
        },
    }
}

/// Whether a `level` value means an error, up to ASCII case.
pub open spec fn is_error_level(l: Seq<char>) -> bool {
    upcase(l) == upcase("ERROR"@) || upcase(l) == upcase("FATAL"@)
}

/// Whether a `level` value means a warning, up to ASCII case.
pub open spec fn is_warn_level(l: Seq<char>) -> bool {
    upcase(l) == upcase("WARN"@) || upcase(l) == upcase("WARNING"@)
}

/// Whether a `level` value means an informational record, up to ASCII case.
pub open spec fn is_info_level(l: Seq<char>) -> bool {
    upcase(l) == upcase("INFO"@)
}

/// Whether a `level` value means a debug record, up to ASCII case.
pub open spec fn is_debug_level(l: Seq<char>) -> bool {
    upcase(l) == upcase("DEBUG"@)
}

/// The text shown for a `level` value: a fixed literal for the recognized
/// levels (warn and info padded to five characters), the value itself
/// otherwise.
pub open spec fn level_text(l: Seq<char>) -> Seq<char> {
    if is_error_level(l) {
        "ERROR"@
    } else if is_warn_level(l) {
        "WARN "@
    } else if is_info_level(l) {
        "INFO "@
    } else if is_debug_level(l) {
        "DEBUG"@
    } else {
        l
    }
}

/// The style of the text shown for a `level` value.
pub open spec fn level_style(l: Seq<char>) -> Style {
    if is_error_level(l) {
        fg_bold(Color::Red)
    } else if is_warn_level(l) {
        fg(Color::Yellow)
    } else if is_info_level(l) {
        fg(Color::Cyan)
    } else if is_debug_level(l) {
        dim_style()
    } else {
        plain_style()
    }
}

/// Renders a `level` value: `ERROR` bold red, `WARN ` yellow, `INFO ` cyan,
/// `DEBUG` dim; anything else is shown unchanged and unstyled.
pub fn colorize_level(level: &str) -> (r: Span)
    ensures
        r.text@ == level_text(level@),
        r.style == level_style(level@),
{
    if eq_up_to_case(level, "ERROR") || eq_up_to_case(level, "FATAL") {
        Span { text: "ERROR".to_owned(), style: Style { color: Color::Red, bold: true, dim: false } }
    } else if eq_up_to_case(level, "WARN") || eq_up_to_case(level, "WARNING") {
        Span { text: "WARN ".to_owned(), style: Style { color: Color::Yellow, bold: false, dim: false } }
    } else if eq_up_to_case(level, "INFO") {
        Span { text: "INFO ".to_owned(), style: Style { color: Color::Cyan, bold: false, dim: false } }
    } else if eq_up_to_case(level, "DEBUG") {
        Span { text: "DEBUG".to_owned(), style: Style { color: Color::Unstyled, bold: false, dim: true } }
    } else {
        Span { text: level.to_owned(), style: Style { color: Color::Unstyled, bold: false, dim: false } }
    }
}

/// The color of an HTTP method name.
pub open spec fn method_style(m: Seq<char>) -> Style {
    if m == "GET"@ {
        fg(Color::Blue)
    } else if m == "POST"@ {
        fg(Color::Green)
    } else if m == "PUT"@ {
        fg(Color::Yellow)
    } else if m == "DELETE"@ {
        fg(Color::Red)
    } else if m == "PATCH"@ {
        fg(Color::Magenta)
    } else {
        plain_style()
    }
}

/// Renders an HTTP method: colored by verb, padded with spaces to at least
/// six visible characters, never truncated.
pub fn format_method(method: &str) -> (r: Span)
    ensures
        r.text@ == pad_right(method@, 6),
        r.style == method_style(method@),
{
    let text = pad_to(method, 6);
    let style = if str_eq(method, "GET") {
        Style { color: Color::Blue, bold: false, dim: false }
    } else if str_eq(method, "POST") {
        Style { color: Color::Green, bold: false, dim: false }
    } else if str_eq(method, "PUT") {
        Style { color: Color::Yellow, bold: false, dim: false }
    } else if str_eq(method, "DELETE") {
        Style { color: Color::Red, bold: false, dim: false }
    } else if str_eq(method, "PATCH") {
        Style { color: Color::Magenta, bold: false, dim: false }
    } else {
        Style { color: Color::Unstyled, bold: false, dim: false }
    };
    Span { text, style }
}

/// The color class of a status code: bold green for 2xx, cyan for 3xx,
/// bold yellow for 4xx, bold red for 5xx, unstyled otherwise.
pub open spec fn status_style(n: int) -> Style {
    if 200 <= n <= 299 {
        fg_bold(Color::Green)
    } else if 300 <= n <= 399 {
        fg(Color::Cyan)
    } else if 400 <= n <= 499 {
        fg_bold(Color::Yellow)
    } else if 500 <= n <= 599 {
        fg_bold(Color::Red)
    } else {
        plain_style()
    }
}

/// Renders a status code in decimal, colored by range.
pub fn format_status(status: u16) -> (r: Span)
    ensures
        r.text@ == dec_digits(status as nat),
        r.style == status_style(status as int),
{
    let text = u16_to_dec(status);
    let style = if 200 <= status && status <= 299 {
        Style { color: Color::Green, bold: true, dim: false }
    } else if 300 <= status && status <= 399 {
        Style { color: Color::Cyan, bold: false, dim: false }
    } else if 400 <= status && status <= 499 {
        Style { color: Color::Yellow, bold: true, dim: false }
    } else if 500 <= status && status <= 599 {
        Style { color: Color::Red, bold: true, dim: false }
    } else {
        Style { color: Color::Unstyled, bold: false, dim: false }
    };
    Span { text, style }
}

/// Whether a plain line carries one of the error trigger substrings.
pub open spec fn has_error_trigger(s: Seq<char>) -> bool {
    contains_sub(s, "error"@) || contains_sub(s, "Error"@) || contains_sub(s, "ERROR"@)
}

/// Whether a plain line carries one of the warn trigger substrings.
pub open spec fn has_warn_trigger(s: Seq<char>) -> bool {
    contains_sub(s, "warn"@) || contains_sub(s, "Warn"@) || contains_sub(s, "WARN"@)
}

/// The style given to a plain line: red on an error trigger, else yellow
/// on a warn trigger, else none.
pub open spec fn plain_line_style(s: Seq<char>) -> Style {
    if has_error_trigger(s) {
        fg(Color::Red)
    } else if has_warn_trigger(s) {
        fg(Color::Yellow)
    } else {
        plain_style()
    }
}

/// Colorizes a line of unstructured text by substring heuristics; the text
/// itself is kept character for character.
pub fn colorize_plain_text(line: &str) -> (r: Span)
    ensures
        r.text@ == line@,
        r.style == plain_line_style(line@),
{
    let style = if contains_str(line, "error") || contains_str(line, "Error") || contains_str(
        line,
        "ERROR",
    ) {
        Style { color: Color::Red, bold: false, dim: false }
    } else if contains_str(line, "warn") || contains_str(line, "Warn") || contains_str(
        line,
        "WARN",
    ) {
        Style { color: Color::Yellow, bold: false, dim: false }
    } else {
        Style { color: Color::Unstyled, bold: false, dim: false }
    };
    Span { text: line.to_owned(), style }
}

} // verus!
