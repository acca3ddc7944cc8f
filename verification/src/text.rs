//! Text helpers: whitespace and trimming as `str::trim` does it.

use crate::helpers::chars_of;
use vstd::prelude::*;

verus! {

/// The Unicode `White_Space` property, which `char::is_whitespace` tests
pub open spec fn is_white_space(c: char) -> bool {
    ('\u{9}' <= c && c <= '\u{d}') || c == ' ' || c == '\u{85}' || c == '\u{a0}' || c
        == '\u{1680}' || ('\u{2000}' <= c && c <= '\u{200a}') || c == '\u{2028}' || c
        == '\u{2029}' || c == '\u{202f}' || c == '\u{205f}' || c == '\u{3000}'
}

/// Whether the char has the Unicode `White_Space` property (what
/// `char::is_whitespace` tells)
fn char_is_whitespace(c: char) -> (ws: bool)
    ensures
        ws == is_white_space(c),
{
    ('\u{9}' <= c && c <= '\u{d}') || c == ' ' || c == '\u{85}' || c == '\u{a0}' || c
        == '\u{1680}' || ('\u{2000}' <= c && c <= '\u{200a}') || c == '\u{2028}' || c
        == '\u{2029}' || c == '\u{202f}' || c == '\u{205f}' || c == '\u{3000}'
}

/// The number of whitespace chars at the start of `s`
pub open spec fn leading_white_space(s: Seq<char>) -> int
    decreases s.len(),
{
    if s.len() == 0 {
        0
    } else if is_white_space(s[0]) {
        1 + leading_white_space(s.drop_first())
    } else {
        0
    }
}

/// The number of whitespace chars at the end of `s`
pub open spec fn trailing_white_space(s: Seq<char>) -> int
    decreases s.len(),
{
    if s.len() == 0 {
        0
    } else if is_white_space(s.last()) {
        1 + trailing_white_space(s.drop_last())
    } else {
        0
    }
}

/// What `str::trim` leaves of `s`: `s` without leading and trailing
/// whitespace
pub open spec fn trimmed(s: Seq<char>) -> Seq<char> {
    let rest = s.subrange(leading_white_space(s), s.len() as int);
    rest.subrange(0, rest.len() - trailing_white_space(rest))
}

proof fn lemma_leading_bounds(s: Seq<char>)
    ensures
        0 <= leading_white_space(s) <= s.len(),
    decreases s.len(),
{
    if s.len() > 0 {
        lemma_leading_bounds(s.drop_first());
    }
}

proof fn lemma_trailing_bounds(s: Seq<char>)
    ensures
        0 <= trailing_white_space(s) <= s.len(),
    decreases s.len(),
{
    if s.len() > 0 {
        lemma_trailing_bounds(s.drop_last());
    }
}

/// `s` without leading and trailing whitespace (`str::trim`)
pub fn trim_chars(s: &Vec<char>) -> (t: Vec<char>)
    ensures
        t@ == trimmed(s@),
{
    let n = s.len();
    let mut i: usize = 0;
    proof {
        assert(s@.subrange(0, n as int) =~= s@);
    }
    while i < n && char_is_whitespace(s[i])
        invariant
            i <= n == s.len(),
            leading_white_space(s@) == i + leading_white_space(s@.subrange(i as int, n as int)),
        decreases n - i,
    {
        proof {
            assert(s@.subrange(i as int, n as int).drop_first() =~= s@.subrange(i + 1, n as int));
        }
        i = i + 1;
    }
    proof {
        let u = s@.subrange(i as int, n as int);
        if i < n {
            assert(u[0] == s@[i as int]);
        }
        assert(leading_white_space(s@) == i);
    }
    let ghost rest = s@.subrange(i as int, n as int);
    let mut j: usize = n;
    while j > i && char_is_whitespace(s[j - 1])
        invariant
            i <= j <= n == s.len(),
            rest == s@.subrange(i as int, n as int),
            trailing_white_space(rest) == (n - j) + trailing_white_space(
                s@.subrange(i as int, j as int),
            ),
        decreases j - i,
    {
        proof {
            assert(s@.subrange(i as int, j as int).drop_last() =~= s@.subrange(
                i as int,
                j - 1,
            ));
        }
        j = j - 1;
    }
    proof {
        let u = s@.subrange(i as int, j as int);
        if j > i {
            assert(u.last() == s@[j - 1]);
        }
        assert(trailing_white_space(rest) == n - j);
    }
    let mut t: Vec<char> = Vec::new();
    let mut k: usize = i;
    while k < j
        invariant
            i <= k <= j <= n == s.len(),
            t@ == s@.subrange(i as int, k as int),
        decreases j - k,
    {
        t.push(s[k]);
        proof {
            assert(s@.subrange(i as int, k + 1) =~= s@.subrange(i as int, k as int).push(
                s@[k as int],
            ));
        }
        k = k + 1;
    }
    proof {
        assert(t@ =~= rest.subrange(0, rest.len() - trailing_white_space(rest)));
    }
    t
}

/// Whether the text holds nothing but whitespace (`s.trim().is_empty()`)
pub fn is_blank(s: &str) -> (blank: bool)
    ensures
        blank == (trimmed(s@).len() == 0),
{
    let chars = chars_of(s);
    let t = trim_chars(&chars);
    t.len() == 0
}

/// Trimmed text is empty exactly when every char is whitespace
pub proof fn law_blank_iff_all_white_space(s: Seq<char>)
    ensures
        (trimmed(s).len() == 0) <==> (forall|i: int| 0 <= i < s.len() ==> is_white_space(#[trigger] s[i])),
    decreases s.len(),
{
    lemma_leading_bounds(s);
    let rest = s.subrange(leading_white_space(s), s.len() as int);
    lemma_trailing_bounds(rest);
    if s.len() > 0 {
        law_blank_iff_all_white_space(s.drop_first());
        if is_white_space(s[0]) {
            lemma_leading_bounds(s.drop_first());
            assert(s.subrange(leading_white_space(s), s.len() as int) =~= s.drop_first().subrange(
                leading_white_space(s.drop_first()),
                s.drop_first().len() as int,
            ));
            if forall|i: int| 0 <= i < s.drop_first().len() ==> is_white_space(
                #[trigger] s.drop_first()[i],
            ) {
                assert forall|i: int| 0 <= i < s.len() implies is_white_space(#[trigger] s[i]) by {
                    if i > 0 {
                        assert(s[i] == s.drop_first()[i - 1]);
                    }
                }
            }
            if forall|i: int| 0 <= i < s.len() ==> is_white_space(#[trigger] s[i]) {
                assert forall|i: int| 0 <= i < s.drop_first().len() implies is_white_space(
                    #[trigger] s.drop_first()[i],
                ) by {
                    assert(s.drop_first()[i] == s[i + 1]);
                }
            }
        } else {
            assert(rest =~= s);
            assert(trailing_white_space(s) < s.len()) by {
                lemma_trailing_not_all(s);
            }
        }
    }
}

/// A text that starts with a non-whitespace char does not end in whitespace
/// only
proof fn lemma_trailing_not_all(s: Seq<char>)
    requires
        s.len() > 0,
        !is_white_space(s[0]),
    ensures
        trailing_white_space(s) < s.len(),
    decreases s.len(),
{
    if s.len() > 1 && is_white_space(s.last()) {
        assert(s.drop_last()[0] == s[0]);
        lemma_trailing_not_all(s.drop_last());
    }
}

/// Text that neither starts nor ends with whitespace is left as it is by
/// trimming
pub proof fn lemma_trim_keeps_unpadded(s: Seq<char>)
    requires
        s.len() > 0,
        !is_white_space(s[0]),
        !is_white_space(s.last()),
    ensures
        trimmed(s) == s,
{
    assert(leading_white_space(s) == 0);
    assert(s.subrange(0, s.len() as int) =~= s);
    assert(trailing_white_space(s) == 0);
    assert(s.subrange(0, s.len() as int) =~= s);
}

} // verus!
