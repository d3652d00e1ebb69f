//! Verified text utilities: character search, substring search,
//! ASCII-case-insensitive comparison, padding, decimal rendering,
//! and whitespace classification.

use vstd::prelude::*;

verus! {

/// The index of the first occurrence of `c` in `s`, if any.
pub open spec fn find_first(s: Seq<char>, c: char) -> Option<int>
    decreases s.len(),
{
    if s.len() == 0 {
        None
    } else if s[0] == c {
        Some(0int)
    } else {
        match find_first(s.drop_first(), c) {
            Some(i) => Some(i + 1),
            None => None,
        }
    }
}

/// `find_first` returns the least index holding `c`, or `None` when `c`
/// does not occur.
pub proof fn lemma_find_first(s: Seq<char>, c: char)
    ensures
        match find_first(s, c) {
            Some(i) => 0 <= i < s.len() && s[i] == c && (forall|j: int| 0 <= j < i ==> s[j] != c),
            None => forall|j: int| 0 <= j < s.len() ==> s[j] != c,
        },
    decreases s.len(),
{
    if s.len() != 0 && s[0] != c {
        lemma_find_first(s.drop_first(), c);
        assert(forall|j: int| 0 <= j < s.drop_first().len() ==> s.drop_first()[j] == s[j + 1]);
        match find_first(s.drop_first(), c) {
            Some(i) => {
                assert(s[i + 1] == s.drop_first()[i]);
                assert forall|j: int| 0 <= j < i + 1 implies s[j] != c by {
                    if j >= 1 {
                        assert(s[j] == s.drop_first()[j - 1]);
                    }
                }
            },
            None => {
                assert forall|j: int| 0 <= j < s.len() implies s[j] != c by {
                    if j >= 1 {
                        assert(s[j] == s.drop_first()[j - 1]);
                    }
                }
            },
        }
    }
}

/// Finds the first occurrence of `c` in `s`.
pub fn find_char(s: &str, c: char) -> (r: Option<usize>)
    ensures
        match r {
            Some(i) => find_first(s@, c) == Some(i as int),
            None => find_first(s@, c) is None,
        },
{
    let n = s.unicode_len();
    let mut i: usize = 0;
    while i < n
        invariant
            n == s@.len(),
            0 <= i <= n,
            forall|j: int| 0 <= j < i ==> s@[j] != c,
        decreases n - i,
    {
        if s.get_char(i) == c {
            proof {
                lemma_find_first(s@, c);
            }
            return Some(i);
        }
        i += 1;
    }
    proof {
        lemma_find_first(s@, c);
    }
    None
}

/// Whether `pat` occurs in `s` starting at index `i`.
pub open spec fn contains_at(s: Seq<char>, pat: Seq<char>, i: int) -> bool {
    0 <= i && i + pat.len() <= s.len() && s.subrange(i, i + pat.len() as int) == pat
}

/// Whether `pat` occurs anywhere in `s`.
pub open spec fn contains_sub(s: Seq<char>, pat: Seq<char>) -> bool {
    exists|i: int| contains_at(s, pat, i)
}

/// Substring search: whether `pat` occurs in `s` (case-sensitive).
pub fn contains_str(s: &str, pat: &str) -> (r: bool)
    ensures
        r == contains_sub(s@, pat@),
{
    let n = s.unicode_len();
    let m = pat.unicode_len();
    if m > n {
        proof {
            assert(forall|i: int| !contains_at(s@, pat@, i));
        }
        return false;
    }
    if m == 0 {
        proof {
            assert(s@.subrange(0, 0) =~= pat@);
            assert(contains_at(s@, pat@, 0));
        }
        return true;
    }
    let mut i: usize = 0;
    while i <= n - m
        invariant
            n == s@.len(),
            m == pat@.len(),
            0 < m <= n,
            0 <= i <= n - m + 1,
            forall|k: int| 0 <= k < i ==> !contains_at(s@, pat@, k),
        decreases n - i,
    {
        let mut j: usize = 0;
        let mut matches = true;
        while j < m && matches
            invariant
                n == s@.len(),
                m == pat@.len(),
                0 <= i <= n - m,
                0 <= j <= m,
                matches ==> forall|l: int| 0 <= l < j ==> s@[i + l] == pat@[l],
                !matches ==> !contains_at(s@, pat@, i as int),
            decreases m - j + (if matches {
                1int
            } else {
                0int
            }),
        {
            if s.get_char(i + j) != pat.get_char(j) {
                matches = false;
                proof {
                    assert(s@.subrange(i as int, i + m as int)[j as int] != pat@[j as int]);
                }
            } else {
                j += 1;
            }
        }
        if matches {
            proof {
                assert(s@.subrange(i as int, i + m as int) =~= pat@);
                assert(contains_at(s@, pat@, i as int));
            }
            return true;
        }
        i += 1;
    }
    proof {
        assert forall|k: int| !contains_at(s@, pat@, k) by {
            if 0 <= k && k + pat@.len() <= s@.len() {
                assert(k < i);
            }
        }
    }
    false
}

/// Uppercases one ASCII letter; any other character is unchanged.
pub open spec fn upcase_char(c: char) -> char {
    if 97 <= c as u32 && c as u32 <= 122 {
        ((c as u32 - 32) as u8) as char
    } else {
        c
    }
}

/// Uppercases the ASCII letters of a text.
pub open spec fn upcase(s: Seq<char>) -> Seq<char> {
    s.map_values(|c: char| upcase_char(c))
}

/// Compares two texts up to ASCII case.
pub fn eq_up_to_case(a: &str, b: &str) -> (r: bool)
    ensures
        r == (upcase(a@) == upcase(b@)),
{
    let n = a.unicode_len();
    if n != b.unicode_len() {
        proof {
            assert(upcase(a@).len() != upcase(b@).len());
        }
        return false;
    }
    let mut i: usize = 0;
    while i < n
        invariant
            n == a@.len() && n == b@.len(),
            0 <= i <= n,
            forall|j: int| 0 <= j < i ==> upcase_char(a@[j]) == upcase_char(b@[j]),
        decreases n - i,
    {
        let ca = upcase_char_exec(a.get_char(i));
        let cb = upcase_char_exec(b.get_char(i));
        if ca != cb {
            proof {
                assert(upcase(a@)[i as int] != upcase(b@)[i as int]);
            }
            return false;
        }
        i += 1;
    }
    proof {
        assert(upcase(a@) =~= upcase(b@));
    }
    true
}

/// Uppercases one ASCII letter, executably.
fn upcase_char_exec(c: char) -> (r: char)
    ensures
        r == upcase_char(c),
{
    let u = c as u32;
    if 97 <= u && u <= 122 {
        ((u - 32) as u8) as char
    } else {
        c
    }
}

/// Compares two texts character for character.
pub fn str_eq(a: &str, b: &str) -> (r: bool)
    ensures
        r == (a@ == b@),
{
    let n = a.unicode_len();
    if n != b.unicode_len() {
        return false;
    }
    let mut i: usize = 0;
    while i < n
        invariant
            n == a@.len() && n == b@.len(),
            0 <= i <= n,
            forall|j: int| 0 <= j < i ==> a@[j] == b@[j],
        decreases n - i,
    {
        if a.get_char(i) != b.get_char(i) {
            return false;
        }
        i += 1;
    }
    proof {
        assert(a@ =~= b@);
    }
    true
}

/// `n` space characters.
pub open spec fn spaces(n: nat) -> Seq<char> {
    Seq::new(n, |i: int| ' ')
}

/// `s`, padded on the right with spaces to at least `w` characters.
pub open spec fn pad_right(s: Seq<char>, w: nat) -> Seq<char> {
    if s.len() >= w {
        s
    } else {
        s + spaces((w - s.len()) as nat)
    }
}

/// Pads `s` on the right with spaces to at least `w` characters.
pub fn pad_to(s: &str, w: usize) -> (r: String)
    ensures
        r@ == pad_right(s@, w as nat),
{
    let mut out = s.to_owned();
    let mut len = s.unicode_len();
    proof {
        reveal_strlit(" ");
        assert(out@ =~= s@ + spaces(0));
    }
    while len < w
        invariant
            s@.len() <= len,
            len == out@.len(),
            s@.len() < w ==> len <= w,
            s@.len() >= w ==> len == s@.len(),
            out@ == s@ + spaces((len - s@.len()) as nat),
        decreases w - len,
    {
        out.append(" ");
        len += 1;
        proof {
            reveal_strlit(" ");
            assert(out@ =~= s@ + spaces((len - s@.len()) as nat));
        }
    }
    proof {
        if s@.len() >= w {
            assert(out@ =~= s@);
        }
    }
    out
}

/// The decimal digit `d` as a character.
pub open spec fn digit_char(d: nat) -> char {
    if d == 0 {
        '0'
    } else if d == 1 {
        '1'
    } else if d == 2 {
        '2'
    } else if d == 3 {
        '3'
    } else if d == 4 {
        '4'
    } else if d == 5 {
        '5'
    } else if d == 6 {
        '6'
    } else if d == 7 {
        '7'
    } else if d == 8 {
        '8'
    } else {
        '9'
    }
}

/// The decimal digits of `n`, most significant first, no leading zeros
/// (a single `'0'` for zero).
pub open spec fn dec_digits(n: nat) -> Seq<char>
    decreases n,
{
    if n < 10 {
        seq![digit_char(n)]
    } else {
        dec_digits(n / 10).push(digit_char(n % 10))
    }
}

/// One decimal digit as a string.
fn digit_str(d: u16) -> (r: String)
    requires
        d < 10,
    ensures
        r@ == seq![digit_char(d as nat)],
{
    let r: &str = if d == 0 {
        "0"
    } else if d == 1 {
        "1"
    } else if d == 2 {
        "2"
    } else if d == 3 {
        "3"
    } else if d == 4 {
        "4"
    } else if d == 5 {
        "5"
    } else if d == 6 {
        "6"
    } else if d == 7 {
        "7"
    } else if d == 8 {
        "8"
    } else {
        "9"
    };
    proof {
        reveal_strlit("0");
        reveal_strlit("1");
        reveal_strlit("2");
        reveal_strlit("3");
        reveal_strlit("4");
        reveal_strlit("5");
        reveal_strlit("6");
        reveal_strlit("7");
        reveal_strlit("8");
        reveal_strlit("9");
        assert(r@ =~= seq![digit_char(d as nat)]);
    }
    r.to_owned()
}

/// Renders `n` in decimal.
pub fn u16_to_dec(n: u16) -> (r: String)
    ensures
        r@ == dec_digits(n as nat),
    decreases n,
{
    if n < 10 {
        digit_str(n)
    } else {
        let mut s = u16_to_dec(n / 10);
        let d = digit_str(n % 10);
        s.append(d.as_str());
        proof {
            assert(s@ =~= dec_digits((n / 10) as nat).push(digit_char((n % 10) as nat)));
        }
        s
    }
}

/// Whether `c` has the Unicode white-space property (the characters that
/// `str::trim` removes).
pub open spec fn is_ws(c: char) -> bool {
    let u = c as u32;
    u == 9 || u == 10 || u == 11 || u == 12 || u == 13 || u == 32 || u == 0x85 || u == 0xA0 || u
        == 0x1680 || (0x2000 <= u && u <= 0x200A) || u == 0x2028 || u == 0x2029 || u == 0x202F || u
        == 0x205F || u == 0x3000
}

/// Whether `c` is a white-space character, executably.
pub fn is_ws_char(c: char) -> (r: bool)
    ensures
        r == is_ws(c),
{
    let u = c as u32;
    u == 9 || u == 10 || u == 11 || u == 12 || u == 13 || u == 32 || u == 0x85 || u == 0xA0 || u
        == 0x1680 || (0x2000 <= u && u <= 0x200A) || u == 0x2028 || u == 0x2029 || u == 0x202F || u
        == 0x205F || u == 0x3000
}

} // verus!
