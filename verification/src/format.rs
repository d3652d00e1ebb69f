//! The line formatter: one input line in, one formatted line (or a
//! suppression) out.
//!
//! A line that decodes as a structured record is condensed to
//! `time level msg`, or to `time level method path status` when the record
//! carries all three HTTP fields; records whose message is the sentinel
//! `START` or `END` are suppressed.  Any other line is colorized as plain
//! text.

use vstd::prelude::*;

use crate::fields::{
    colorize_level, colorize_plain_text, extract_time, format_method, format_status, level_style,
    level_text, method_style, plain_line_style, spec_extract_time, status_style,
};
use crate::record::{LogRecord, RecordView, fields_of, parse_fields};
use crate::style::{
    Color, Span, Style, dim_style, flat, lemma_flat_push, plain_style, styled,
};
use crate::text::{dec_digits, pad_right, str_eq};
use crate::trim::{spec_trim, trim_spans};

verus! {

/// The message of a record: its `msg` field, else its `message` field,
/// else the empty string.
pub open spec fn effective_msg(r: RecordView) -> Seq<char> {
    match r.msg {
        Some(m) => m,
        None => match r.message {
            Some(m) => m,
            None => Seq::empty(),
        },
    }
}

/// Whether a record is a sentinel to be dropped from display: its message
/// is exactly `START` or exactly `END`.
pub open spec fn suppressed(r: RecordView) -> bool {
    effective_msg(r) == "START"@ || effective_msg(r) == "END"@
}

/// Whether a record is an HTTP-request record: `method`, `path` and
/// `statusCode` are all present, and the status fits an unsigned 16-bit
/// number.
pub open spec fn is_http(r: RecordView) -> bool {
    r.method is Some && r.path is Some && r.status_code is Some && r.status_code.unwrap() <= 0xFFFF
}

/// The displayed time of a record: the extracted portion of its `time`
/// field, or empty when the field is absent or holds no `'T'`.
pub open spec fn time_text(r: RecordView) -> Seq<char> {
    match r.time {
        Some(t) => match spec_extract_time(t) {
            Some(x) => x,
            None => Seq::empty(),
        },
        None => Seq::empty(),
    }
}

/// The displayed level text of a record; empty when the field is absent.
pub open spec fn level_part(r: RecordView) -> Seq<char> {
    match r.level {
        Some(l) => level_text(l),
        None => Seq::empty(),
    }
}

/// The style of the displayed level text.
pub open spec fn level_part_style(r: RecordView) -> Style {
    match r.level {
        Some(l) => level_style(l),
        None => plain_style(),
    }
}

/// One unstyled separating space.
pub open spec fn sep() -> Seq<(char, Style)> {
    styled(" "@, plain_style())
}

/// The characters of the generic form `{time} {level} {msg}`, before
/// trimming: dim time, styled level, unstyled message.
pub open spec fn generic_flat(r: RecordView) -> Seq<(char, Style)> {
    styled(time_text(r), dim_style()) + sep() + styled(level_part(r), level_part_style(r)) + sep()
        + styled(effective_msg(r), plain_style())
}

/// The characters of the HTTP form `{time} {level} {method:6} {path}
/// {status}`, before trimming: the method is padded to six characters and
/// colored by verb, the status is decimal and colored by range.
pub open spec fn http_flat(r: RecordView) -> Seq<(char, Style)> {
    styled(time_text(r), dim_style()) + sep() + styled(level_part(r), level_part_style(r)) + sep()
        + styled(pad_right(r.method.unwrap(), 6), method_style(r.method.unwrap())) + sep()
        + styled(r.path.unwrap(), plain_style()) + sep() + styled(
        dec_digits(r.status_code.unwrap() as nat),
        status_style(r.status_code.unwrap() as int),
    )
}

/// What a structured record formats to: nothing for a sentinel record,
/// else the HTTP or generic form, trimmed of white space at both ends.
pub open spec fn format_record_spec(r: RecordView) -> Option<Seq<(char, Style)>> {
    if suppressed(r) {
        None
    } else if is_http(r) {
        Some(spec_trim(http_flat(r)))
    } else {
        Some(spec_trim(generic_flat(r)))
    }
}

/// What one input line formats to: the record form when the line decodes
/// as a structured record, else the line itself under the heuristic
/// plain-text style.
pub open spec fn format_line_spec(line: Seq<char>) -> Option<Seq<(char, Style)>> {
    match fields_of(line) {
        Some(r) => format_record_spec(r),
        None => Some(styled(line, plain_line_style(line))),
    }
}

/// Appends one span, extending the flattening by its styled characters.
fn push_span(spans: &mut Vec<Span>, s: Span)
    ensures
        flat(final(spans)@) == flat(old(spans)@) + styled(s.text@, s.style),
{
    let ghost prev = spans@;
    let ghost pushed = s;
    spans.push(s);
    proof {
        assert(spans@ =~= prev.push(pushed));
        lemma_flat_push(prev, pushed);
    }
}

/// One unstyled separating space, as a span.
fn space_span() -> (r: Span)
    ensures
        styled(r.text@, r.style) == sep(),
{
    Span { text: " ".to_owned(), style: Style { color: Color::Unstyled, bold: false, dim: false } }
}

/// Formats a structured record, or suppresses it when its message is the
/// sentinel `START` or `END`.
pub fn format_json_log(rec: &LogRecord) -> (r: Option<Vec<Span>>)
    ensures
        match r {
            Some(spans) => format_record_spec(rec@) == Some(flat(spans@)),
            None => format_record_spec(rec@) is None,
        },
{
    let msg: String = match &rec.msg {
        Some(m) => m.clone(),
        None => match &rec.message {
            Some(m) => m.clone(),
            None => String::new(),
        },
    };
    proof {
        assert(msg@ == effective_msg(rec@));
    }
    if str_eq(msg.as_str(), "START") || str_eq(msg.as_str(), "END") {
        return None;
    }
    let time_str: String = match &rec.time {
        Some(t) => match extract_time(t.as_str()) {
            Some(x) => x,
            None => String::new(),
        },
        None => String::new(),
    };
    proof {
        assert(time_str@ == time_text(rec@));
    }
    let level_span: Span = match &rec.level {
        Some(l) => colorize_level(l.as_str()),
        None => Span {
            text: String::new(),
            style: Style { color: Color::Unstyled, bold: false, dim: false },
        },
    };
    let mut spans: Vec<Span> = Vec::new();
    proof {
        assert(flat(spans@) =~= Seq::<(char, Style)>::empty());
    }
    push_span(
        &mut spans,
        Span { text: time_str, style: Style { color: Color::Unstyled, bold: false, dim: true } },
    );
    push_span(&mut spans, space_span());
    push_span(&mut spans, level_span);
    push_span(&mut spans, space_span());
    let http = rec.method.is_some() && rec.path.is_some() && rec.status_code.is_some()
        && rec.status_code.unwrap() <= 65535;
    if http {
        let method: &String = rec.method.as_ref().unwrap();
        let path: &String = rec.path.as_ref().unwrap();
        let status = rec.status_code.unwrap() as u16;
        push_span(&mut spans, format_method(method.as_str()));
        push_span(&mut spans, space_span());
        push_span(
            &mut spans,
            Span {
                text: path.clone(),
                style: Style { color: Color::Unstyled, bold: false, dim: false },
            },
        );
        push_span(&mut spans, space_span());
        push_span(&mut spans, format_status(status));
        proof {
            assert(flat(spans@) =~= http_flat(rec@));
        }
    } else {
        push_span(
            &mut spans,
            Span { text: msg, style: Style { color: Color::Unstyled, bold: false, dim: false } },
        );
        proof {
            assert(flat(spans@) =~= generic_flat(rec@));
        }
    }
    let trimmed = trim_spans(spans);
    Some(trimmed)
}

/// Formats one input line: a condensed summary for a structured record
/// (nothing for a sentinel record), the heuristically colorized line
/// otherwise.
pub fn format_line(line: &str) -> (r: Option<Vec<Span>>)
    ensures
        match r {
            Some(spans) => format_line_spec(line@) == Some(flat(spans@)),
            None => format_line_spec(line@) is None,
        },
{
    match parse_fields(line) {
        Some(rec) => format_json_log(&rec),
        None => {
            let span = colorize_plain_text(line);
            let mut spans: Vec<Span> = Vec::new();
            proof {
                assert(flat(spans@) =~= Seq::<(char, Style)>::empty());
            }
            push_span(&mut spans, span);
            proof {
                assert(flat(spans@) =~= styled(line@, plain_line_style(line@)));
            }
            Some(spans)
        },
    }
}

} // verus!
