//! Turning spans into terminal text.
//!
//! Rendering is a presentation concern: the escape sequences emitted for a
//! styled span depend on the terminal and on global color controls, so
//! nothing is promised of them beyond the plain case.  The visible text of
//! a span sequence is available separately, for callers that need the
//! characters without any styling.

use vstd::prelude::*;

use colored::Colorize;

use crate::style::{Color, Span, all_plain, flat, lemma_visible_concat, lemma_visible_styled,
    plain_style, styled, visible};

verus! {

/// Relies on the `colored` crate (`Colorize::{red, green, yellow, blue,
/// magenta, cyan, normal, bold, dimmed}` and `ColoredString`'s `Display`):
/// a `ColoredString` with no color and no styling displays as exactly its
/// input text, so the plain style renders `text` unchanged.  For any other
/// style nothing is promised: the output depends on whether color is
/// enabled for the destination.
#[verifier::external_body]
fn style_text(text: &str, style: &crate::style::Style) -> (r: String)
    ensures
        *style == plain_style() ==> r@ == text@,
{
    let base = match style.color {
        Color::Red => text.red(),
        Color::Green => text.green(),
        Color::Yellow => text.yellow(),
        Color::Blue => text.blue(),
        Color::Magenta => text.magenta(),
        Color::Cyan => text.cyan(),
        Color::Unstyled => text.normal(),
    };
    let base = if style.bold { base.bold() } else { base };
    let base = if style.dim { base.dimmed() } else { base };
    base.to_string()
}

/// Renders the spans one after the other.  When every span is plain, the
/// result is exactly the visible text.
pub fn render_spans(spans: &Vec<Span>) -> (r: String)
    ensures
        all_plain(spans@) ==> r@ == visible(flat(spans@)),
{
    let mut out = String::new();
    let mut i: usize = 0;
    while i < spans.len()
        invariant
            0 <= i <= spans@.len(),
            all_plain(spans@) ==> out@ == visible(flat(spans@.take(i as int))),
        decreases spans@.len() - i,
    {
        let piece = style_text(spans[i].text.as_str(), &spans[i].style);
        out.append(piece.as_str());
        i += 1;
        proof {
            if all_plain(spans@) {
                lemma_take_one_more(spans@, i as int);
            }
        }
    }
    proof {
        assert(spans@.take(spans@.len() as int) =~= spans@);
    }
    out
}

/// The visible text of the spans: their characters, all styling forgotten.
pub fn visible_text(spans: &Vec<Span>) -> (r: String)
    ensures
        r@ == visible(flat(spans@)),
{
    let mut out = String::new();
    let mut i: usize = 0;
    while i < spans.len()
        invariant
            0 <= i <= spans@.len(),
            out@ == visible(flat(spans@.take(i as int))),
        decreases spans@.len() - i,
    {
        out.append(spans[i].text.as_str());
        i += 1;
        proof {
            lemma_take_one_more(spans@, i as int);
        }
    }
    proof {
        assert(spans@.take(spans@.len() as int) =~= spans@);
    }
    out
}

/// Taking one more span appends its text to the visible flattening.
proof fn lemma_take_one_more(spans: Seq<Span>, i: int)
    requires
        0 < i <= spans.len(),
    ensures
        visible(flat(spans.take(i))) == visible(flat(spans.take(i - 1))) + spans[i - 1].text@,
{
    assert(spans.take(i) =~= spans.take(i - 1).push(spans[i - 1]));
    crate::style::lemma_flat_push(spans.take(i - 1), spans[i - 1]);
    lemma_visible_concat(flat(spans.take(i - 1)), styled(spans[i - 1].text@, spans[i - 1].style));
    lemma_visible_styled(spans[i - 1].text@, spans[i - 1].style);
}

} // verus!
