//! Style descriptors and styled text spans.
//!
//! A formatted line is a sequence of [`Span`]s.  The mathematical model of
//! such a sequence is its flattening: one `(char, Style)` pair per visible
//! character, so that contracts can speak about the visible text and the
//! style of every character, independent of how the text is cut into spans.

use vstd::prelude::*;

verus! {

/// A foreground color, or no color at all.
#[derive(Clone, Copy, PartialEq, Eq, Structural, Debug)]
pub enum Color {
    Red,
    Green,
    Yellow,
    Blue,
    Magenta,
    Cyan,
    Unstyled,
}

/// How a piece of text is to be rendered.
#[derive(Clone, Copy, PartialEq, Eq, Structural, Debug)]
pub struct Style {
    pub color: Color,
    pub bold: bool,
    pub dim: bool,
}

/// The style of text that is rendered as-is.
pub open spec fn plain_style() -> Style {
    Style { color: Color::Unstyled, bold: false, dim: false }
}

/// A plain foreground color, neither bold nor dim.
pub open spec fn fg(color: Color) -> Style {
    Style { color, bold: false, dim: false }
}

/// A bold foreground color.
pub open spec fn fg_bold(color: Color) -> Style {
    Style { color, bold: true, dim: false }
}

/// The dim/muted style.
pub open spec fn dim_style() -> Style {
    Style { color: Color::Unstyled, bold: false, dim: true }
}

/// A piece of text together with the style it is to be rendered in.
pub struct Span {
    pub text: String,
    pub style: Style,
}

/// Every character of `text`, paired with the one style `st`.
pub open spec fn styled(text: Seq<char>, st: Style) -> Seq<(char, Style)> {
    Seq::new(text.len(), |i: int| (text[i], st))
}

/// The flattening of a sequence of spans: one pair per visible character.
pub open spec fn flat(spans: Seq<Span>) -> Seq<(char, Style)>
    decreases spans.len(),
{
    if spans.len() == 0 {
        Seq::empty()
    } else {
        styled(spans[0].text@, spans[0].style) + flat(spans.drop_first())
    }
}

/// The visible text of a flattened span sequence, styles forgotten.
pub open spec fn visible(fs: Seq<(char, Style)>) -> Seq<char> {
    fs.map_values(|p: (char, Style)| p.0)
}

/// Whether every span carries the plain style.
pub open spec fn all_plain(spans: Seq<Span>) -> bool {
    forall|i: int| 0 <= i < spans.len() ==> (#[trigger] spans[i].style) == plain_style()
}

/// Appending one span to a span sequence appends its styled characters
/// to the flattening.
pub proof fn lemma_flat_push(spans: Seq<Span>, s: Span)
    ensures
        flat(spans.push(s)) == flat(spans) + styled(s.text@, s.style),
    decreases spans.len(),
{
    if spans.len() == 0 {
        assert(spans.push(s)[0] == s);
        assert(spans.push(s).drop_first() =~= Seq::<Span>::empty());
        assert(flat(spans.push(s)) == styled(s.text@, s.style) + flat(Seq::<Span>::empty()));
        assert(styled(s.text@, s.style) + Seq::<(char, Style)>::empty() =~= styled(
            s.text@,
            s.style,
        ));
        assert(flat(spans) + styled(s.text@, s.style) =~= styled(s.text@, s.style));
    } else {
        assert(spans.push(s).drop_first() =~= spans.drop_first().push(s));
        lemma_flat_push(spans.drop_first(), s);
        assert(styled(spans[0].text@, spans[0].style) + (flat(spans.drop_first()) + styled(
            s.text@,
            s.style,
        )) =~= (styled(spans[0].text@, spans[0].style) + flat(spans.drop_first())) + styled(
            s.text@,
            s.style,
        ));
    }
}

/// The visible text of a flattening is the text of the spans, concatenated.
pub proof fn lemma_visible_concat(a: Seq<(char, Style)>, b: Seq<(char, Style)>)
    ensures
        visible(a + b) == visible(a) + visible(b),
{
    assert(visible(a + b) =~= visible(a) + visible(b));
}

/// Forgetting the styles of uniformly styled text gives the text back.
pub proof fn lemma_visible_styled(text: Seq<char>, st: Style)
    ensures
        visible(styled(text, st)) == text,
{
    assert(visible(styled(text, st)) =~= text);
}

} // verus!
