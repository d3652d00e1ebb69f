//! The behavioral laws of the formatter, stated over all inputs.

use vstd::prelude::*;

use crate::fields::{has_error_trigger, has_warn_trigger, plain_line_style};
use crate::format::{
    effective_msg, format_line_spec, format_record_spec, generic_flat, suppressed,
};
use crate::trim::spec_trim;
use crate::record::{RecordView, fields_of};
use crate::style::{Color, fg, lemma_visible_styled, plain_style, styled, visible};

verus! {

/// A line that carries none of the six trigger substrings keeps the plain
/// style, so the plain path leaves it untouched: the visible text of the
/// colorized line is the line itself, character for character.
pub proof fn lemma_plain_untouched(line: Seq<char>)
    ensures
        !has_error_trigger(line) && !has_warn_trigger(line) ==> plain_line_style(line)
            == plain_style(),
        visible(styled(line, plain_line_style(line))) == line,
{
    lemma_visible_styled(line, plain_line_style(line));
}

/// A line that carries an error trigger is styled red, whether or not a
/// warn trigger is present too: the error check comes first.  Yellow is
/// used only when a warn trigger stands alone.
pub proof fn lemma_error_beats_warn(line: Seq<char>)
    ensures
        has_error_trigger(line) ==> plain_line_style(line) == fg(Color::Red),
        (!has_error_trigger(line) && has_warn_trigger(line)) ==> plain_line_style(line) == fg(
            Color::Yellow,
        ),
{
}

/// A structured record whose message is exactly `START` or exactly `END`
/// yields no output line at all.
pub proof fn lemma_sentinel_suppressed(line: Seq<char>, r: RecordView)
    ensures
        (fields_of(line) == Some(r) && (effective_msg(r) == "START"@ || effective_msg(r)
            == "END"@)) ==> format_line_spec(line) is None,
{
}

/// Without a `statusCode` field a record is not an HTTP-request record,
/// whatever its `method` and `path`: it formats in the generic two-field
/// form.
pub proof fn lemma_http_needs_all_three(r: RecordView)
    ensures
        (r.status_code is None && !suppressed(r)) ==> format_record_spec(r) == Some(
            spec_trim(generic_flat(r)),
        ),
{
}

/// A line that is not a structured record and carries no trigger substring
/// round-trips: it comes back plain, with its characters unchanged.
pub proof fn lemma_non_json_round_trip(line: Seq<char>)
    ensures
        (fields_of(line) is None && !has_error_trigger(line) && !has_warn_trigger(line))
            ==> format_line_spec(line) == Some(styled(line, plain_style())),
        visible(styled(line, plain_style())) == line,
{
    lemma_visible_styled(line, plain_style());
}

} // verus!
