//! Trimming leading and trailing white space from a formatted line.
//!
//! The assembled line is a sequence of spans; trimming removes white-space
//! characters at both ends of the visible text, across span boundaries,
//! and leaves every remaining character with its style.

use vstd::prelude::*;

use crate::style::{Span, Style, flat, lemma_flat_push, styled};
use crate::text::{is_ws, is_ws_char};

verus! {

/// `s` with its leading white-space characters removed.
pub open spec fn trim_front_flat(s: Seq<(char, Style)>) -> Seq<(char, Style)>
    decreases s.len(),
{
    if s.len() > 0 && is_ws(s[0].0) {
        trim_front_flat(s.drop_first())
    } else {
        s
    }
}

/// `s` with its trailing white-space characters removed.
pub open spec fn trim_back_flat(s: Seq<(char, Style)>) -> Seq<(char, Style)>
    decreases s.len(),
{
    if s.len() > 0 && is_ws(s.last().0) {
        trim_back_flat(s.drop_last())
    } else {
        s
    }
}

/// `s` with white space removed at both ends.
pub open spec fn spec_trim(s: Seq<(char, Style)>) -> Seq<(char, Style)> {
    trim_back_flat(trim_front_flat(s))
}

/// A leading run of white-space characters is dropped whole.
proof fn lemma_trim_front_ws_block(t: Seq<char>, st: Style, rest: Seq<(char, Style)>)
    requires
        forall|j: int| 0 <= j < t.len() ==> is_ws(t[j]),
    ensures
        trim_front_flat(styled(t, st) + rest) == trim_front_flat(rest),
    decreases t.len(),
{
    if t.len() == 0 {
        assert(styled(t, st) + rest =~= rest);
    } else {
        assert((styled(t, st) + rest)[0] == (t[0], st));
        assert((styled(t, st) + rest).drop_first() =~= styled(t.drop_first(), st) + rest);
        lemma_trim_front_ws_block(t.drop_first(), st, rest);
    }
}

/// A leading span whose first non-white-space character stands at `k` is
/// cut to its tail from `k` on.
proof fn lemma_trim_front_partial(t: Seq<char>, st: Style, rest: Seq<(char, Style)>, k: int)
    requires
        0 <= k < t.len(),
        forall|j: int| 0 <= j < k ==> is_ws(t[j]),
        !is_ws(t[k]),
    ensures
        trim_front_flat(styled(t, st) + rest) == styled(t.subrange(k, t.len() as int), st) + rest,
    decreases k,
{
    if k == 0 {
        assert((styled(t, st) + rest)[0] == (t[0], st));
        assert(styled(t.subrange(0, t.len() as int), st) + rest =~= styled(t, st) + rest);
    } else {
        assert((styled(t, st) + rest)[0] == (t[0], st));
        assert((styled(t, st) + rest).drop_first() =~= styled(t.drop_first(), st) + rest);
        lemma_trim_front_partial(t.drop_first(), st, rest, k - 1);
        assert(t.drop_first().subrange(k - 1, t.drop_first().len() as int) =~= t.subrange(
            k,
            t.len() as int,
        ));
    }
}

/// A trailing run of white-space characters is dropped whole.
proof fn lemma_trim_back_ws_block(rest: Seq<(char, Style)>, t: Seq<char>, st: Style)
    requires
        forall|j: int| 0 <= j < t.len() ==> is_ws(t[j]),
    ensures
        trim_back_flat(rest + styled(t, st)) == trim_back_flat(rest),
    decreases t.len(),
{
    if t.len() == 0 {
        assert(rest + styled(t, st) =~= rest);
    } else {
        assert((rest + styled(t, st)).last() == (t.last(), st));
        assert((rest + styled(t, st)).drop_last() =~= rest + styled(t.drop_last(), st));
        lemma_trim_back_ws_block(rest, t.drop_last(), st);
    }
}

/// A trailing span whose last non-white-space character stands at `k` is
/// cut to its head up to and including `k`.
proof fn lemma_trim_back_partial(rest: Seq<(char, Style)>, t: Seq<char>, st: Style, k: int)
    requires
        0 <= k < t.len(),
        forall|j: int| k < j < t.len() ==> is_ws(t[j]),
        !is_ws(t[k]),
    ensures
        trim_back_flat(rest + styled(t, st)) == rest + styled(t.subrange(0, k + 1), st),
    decreases t.len() - k,
{
    if k == t.len() - 1 {
        assert((rest + styled(t, st)).last() == (t.last(), st));
        assert(rest + styled(t.subrange(0, k + 1), st) =~= rest + styled(t, st));
    } else {
        assert((rest + styled(t, st)).last() == (t.last(), st));
        assert((rest + styled(t, st)).drop_last() =~= rest + styled(t.drop_last(), st));
        lemma_trim_back_partial(rest, t.drop_last(), st, k);
        assert(t.drop_last().subrange(0, k + 1) =~= t.subrange(0, k + 1));
    }
}

/// Removes the white space at the front of the visible text.
#[verifier::loop_isolation(false)]
fn trim_front(spans: Vec<Span>) -> (r: Vec<Span>)
    ensures
        flat(r@) == trim_front_flat(flat(spans@)),
{
    let mut spans = spans;
    let ghost goal = trim_front_flat(flat(spans@));
    loop
        invariant
            trim_front_flat(flat(spans@)) == goal,
        decreases spans@.len(),
    {
        if spans.len() == 0 {
            return spans;
        }
        let len = spans[0].text.as_str().unicode_len();
        let mut k: usize = 0;
        while k < len && is_ws_char(spans[0].text.as_str().get_char(k))
            invariant
                spans@.len() > 0,
                len == spans@[0].text@.len(),
                0 <= k <= len,
                forall|j: int| 0 <= j < k ==> is_ws(spans@[0].text@[j]),
            decreases len - k,
        {
            k += 1;
        }
        if k == len {
            let first = spans.remove(0);
            proof {
                lemma_trim_front_ws_block(first.text@, first.style, flat(spans@));
            }
        } else {
            let newtext = spans[0].text.as_str().substring_char(k, len).to_owned();
            let first = spans.remove(0);
            proof {
                lemma_trim_front_partial(first.text@, first.style, flat(spans@), k as int);
            }
            let ghost tail = spans@;
            spans.insert(0, Span { text: newtext, style: first.style });
            proof {
                assert(spans@.drop_first() =~= tail);
            }
            return spans;
        }
    }
}

/// Removes the white space at the back of the visible text.
#[verifier::loop_isolation(false)]
fn trim_back(spans: Vec<Span>) -> (r: Vec<Span>)
    ensures
        flat(r@) == trim_back_flat(flat(spans@)),
{
    let mut spans = spans;
    let ghost goal = trim_back_flat(flat(spans@));
    loop
        invariant
            trim_back_flat(flat(spans@)) == goal,
        decreases spans@.len(),
    {
        if spans.len() == 0 {
            return spans;
        }
        let last = spans.len() - 1;
        let len = spans[last].text.as_str().unicode_len();
        let mut k: usize = len;
        while k > 0 && is_ws_char(spans[last].text.as_str().get_char(k - 1))
            invariant
                spans@.len() == last + 1,
                len == spans@[last as int].text@.len(),
                0 <= k <= len,
                forall|j: int| k <= j < len ==> is_ws(spans@[last as int].text@[j]),
            decreases k,
        {
            k -= 1;
        }
        proof {
            assert(spans@ =~= spans@.drop_last().push(spans@[last as int]));
            lemma_flat_push(spans@.drop_last(), spans@[last as int]);
        }
        if k == 0 {
            let ghost before = spans@;
            let lastspan = match spans.pop() {
                Some(s) => s,
                None => {
                    return spans;
                },
            };
            proof {
                assert(spans@ =~= before.drop_last());
                lemma_trim_back_ws_block(flat(spans@), lastspan.text@, lastspan.style);
            }
        } else {
            let newtext = spans[last].text.as_str().substring_char(0, k).to_owned();
            let ghost before = spans@;
            let lastspan = match spans.pop() {
                Some(s) => s,
                None => {
                    return spans;
                },
            };
            proof {
                assert(spans@ =~= before.drop_last());
                lemma_trim_back_partial(flat(spans@), lastspan.text@, lastspan.style, k - 1);
            }
            let ghost head = spans@;
            spans.push(Span { text: newtext, style: lastspan.style });
            proof {
                assert(spans@ =~= head.push(spans@[head.len() as int]));
                lemma_flat_push(head, spans@[head.len() as int]);
            }
            return spans;
        }
    }
}

/// Removes the white space at both ends of the visible text; every
/// character that stays keeps its style.
pub fn trim_spans(spans: Vec<Span>) -> (r: Vec<Span>)
    ensures
        flat(r@) == spec_trim(flat(spans@)),
{
    let front_trimmed = trim_front(spans);
    trim_back(front_trimmed)
}

} // verus!
