//! Those things used across the OpenTimeline GUI crate

use crate::decimal::{
    all_digits, decimal, digit_char, digit_value, digits_value, is_digit,
    lemma_digits_value_nonneg, lemma_digits_value_prefix_le, lemma_natural_decimal_shape,
    lemma_parsed_isize_bounds, natural_decimal,
    parse_isize, parsed_isize, render_isize,
};
use core::ops::RangeInclusive;
use vstd::prelude::*;
use vstd::std_specs::range::RangeInclusiveView;

verus! {

/// Whether the char at index `i` of the user's input is kept: ASCII digits
/// anywhere, a `-` only as the very first char.
pub open spec fn is_kept_input_char(c: char, i: int) -> bool {
    is_digit(c) || (c == '-' && i == 0)
}

/// The user's input with every char removed that cannot be part of an
/// integer (see [`is_kept_input_char`]), in order.
pub open spec fn filtered_int_input(s: Seq<char>) -> Seq<char>
    decreases s.len(),
{
    if s.len() == 0 {
        Seq::empty()
    } else if is_kept_input_char(s.last(), s.len() - 1) {
        filtered_int_input(s.drop_last()).push(s.last())
    } else {
        filtered_int_input(s.drop_last())
    }
}

/// The range holds no item (`RangeInclusive::is_empty`)
pub open spec fn range_is_empty(r: RangeInclusiveView<isize>) -> bool {
    r.exhausted || !(r.start <= r.end)
}

/// The range admits negative numbers in the sense of the input helper: it has
/// no smallest item, or its smallest item is negative.
pub open spec fn range_admits_negatives(r: RangeInclusiveView<isize>) -> bool {
    range_is_empty(r) || r.start < 0
}

/// `RangeInclusive::contains`
pub open spec fn range_holds(r: RangeInclusiveView<isize>, v: int) -> bool {
    r.start <= v && if r.exhausted {
        v < r.end
    } else {
        v <= r.end
    }
}

/// Text that the input helper may leave: nothing, a lone `-` where negative
/// numbers are admitted, or a number in the range
pub open spec fn is_conformed(t: Seq<char>, r: RangeInclusiveView<isize>) -> bool {
    ||| t.len() == 0
    ||| (range_admits_negatives(r) && t =~= seq!['-'])
    ||| (parsed_isize(t) matches Some(v) && range_holds(r, v))
}

/// The filtered input shortened from its end until it reads as a number, and
/// then written as that number; or what is left when it never does (nothing,
/// or a lone `-` where negative numbers are admitted)
pub open spec fn readable_part(t: Seq<char>, r: RangeInclusiveView<isize>) -> Seq<char>
    decreases t.len(),
{
    if t.len() == 0 || (range_admits_negatives(r) && t =~= seq!['-']) {
        t
    } else {
        match parsed_isize(t) {
            Some(v) => decimal(v),
            None => readable_part(t.drop_last(), r),
        }
    }
}

/// The longest start of `t` that the helper may leave (see [`is_conformed`])
pub open spec fn longest_conformed_prefix(t: Seq<char>, r: RangeInclusiveView<isize>) -> Seq<char>
    decreases t.len(),
{
    if is_conformed(t, r) || t.len() == 0 {
        t
    } else {
        longest_conformed_prefix(t.drop_last(), r)
    }
}

/// What [`conform_string_input_to_int_in_range`] leaves of the input `s`: the
/// chars that can be part of an integer are kept; `-0` becomes `-` where
/// negative numbers are admitted; otherwise the number read is written
/// without superfluous zeros, and its last digits are dropped until it is in
/// the range (or nothing is left).
pub open spec fn conformed_int_input(s: Seq<char>, r: RangeInclusiveView<isize>) -> Seq<char> {
    let f = filtered_int_input(s);
    if range_admits_negatives(r) && (f =~= seq!['-'] || f =~= seq!['-', '0']) {
        seq!['-']
    } else {
        longest_conformed_prefix(readable_part(f, r), r)
    }
}

/// Every char can be part of an integer: ASCII digits, and a `-` only first
pub open spec fn is_int_input_shape(t: Seq<char>) -> bool {
    forall|i: int| 0 <= i < t.len() ==> is_kept_input_char(#[trigger] t[i], i)
}

/// What the filter keeps has the shape of an integer input
pub proof fn lemma_filtered_shape(s: Seq<char>)
    ensures
        is_int_input_shape(filtered_int_input(s)),
        filtered_int_input(s).len() <= s.len(),
    decreases s.len(),
{
    if s.len() > 0 {
        lemma_filtered_shape(s.drop_last());
        let f = filtered_int_input(s.drop_last());
        if is_kept_input_char(s.last(), s.len() - 1) {
            let g = f.push(s.last());
            assert forall|i: int| 0 <= i < g.len() implies is_kept_input_char(#[trigger] g[i], i) by {
                if i < f.len() {
                    assert(g[i] == f[i]);
                } else if s.last() == '-' {
                    assert(s.len() - 1 == 0);
                }
            }
        }
    }
}

/// Input that already has the shape of an integer passes the filter unchanged
pub proof fn lemma_filter_keeps_shape(t: Seq<char>)
    requires
        is_int_input_shape(t),
    ensures
        filtered_int_input(t) == t,
    decreases t.len(),
{
    if t.len() > 0 {
        let d = t.drop_last();
        assert forall|i: int| 0 <= i < d.len() implies is_kept_input_char(#[trigger] d[i], i) by {
            assert(d[i] == t[i]);
        }
        lemma_filter_keeps_shape(d);
        assert(is_kept_input_char(t[t.len() - 1], t.len() - 1));
        assert(d.push(t.last()) =~= t);
    }
}

/// The text of a machine integer reads back as that integer, has the shape
/// of an integer input, and is neither `-` nor `-0`, nor is it `-0` followed
/// by a digit
pub proof fn lemma_decimal_round_trip(v: isize)
    ensures
        parsed_isize(decimal(v as int)) == Some(v as int),
        is_int_input_shape(decimal(v as int)),
        decimal(v as int).len() >= 1,
        !(decimal(v as int) =~= seq!['-']),
        !(decimal(v as int) =~= seq!['-', '0']),
        decimal(v as int).len() >= 3 ==> !(decimal(v as int)[0] == '-' && decimal(v as int)[1]
            == '0'),
{
    let t = decimal(v as int);
    if v < 0 {
        let m = (-v) as nat;
        let n = natural_decimal(m);
        lemma_natural_decimal_shape(m);
        assert(t.subrange(1, t.len() as int) =~= n);
        assert forall|i: int| 0 <= i < t.len() implies is_kept_input_char(#[trigger] t[i], i) by {
            if i > 0 {
                assert(t[i] == n[i - 1]);
            }
        }
        assert(t[1] == n[0]);
    } else {
        let n = natural_decimal(v as nat);
        lemma_natural_decimal_shape(v as nat);
        assert forall|i: int| 0 <= i < t.len() implies is_kept_input_char(#[trigger] t[i], i) by {}
        assert(is_digit(t[0]));
    }
}

/// Text that the helper may leave, written canonically: nothing, a lone `-`
/// where negative numbers are admitted, or the text of a number in the range
pub open spec fn is_canonical_conformed(t: Seq<char>, r: RangeInclusiveView<isize>) -> bool {
    ||| t.len() == 0
    ||| (range_admits_negatives(r) && t =~= seq!['-'])
    ||| (parsed_isize(t) matches Some(v) && range_holds(r, v) && t == decimal(v))
}

/// Every start of the text of a machine integer is empty, a lone `-` (of a
/// negative number), or the text of the number it reads as
proof fn lemma_decimal_prefix(v: int, k: int)
    requires
        isize::MIN <= v <= isize::MAX,
        0 <= k <= decimal(v).len(),
    ensures
        ({
            let p = decimal(v).take(k);
            ||| p.len() == 0
            ||| (p =~= seq!['-'] && v < 0)
            ||| (parsed_isize(p) matches Some(w) && p == decimal(w))
        }),
{
    let p = decimal(v).take(k);
    if k == 0 {
        return ;
    }
    if v >= 0 {
        let n = natural_decimal(v as nat);
        lemma_natural_decimal_shape(v as nat);
        assert(p =~= n.take(k));
        assert forall|i: int| 0 <= i < p.len() implies is_digit(#[trigger] p[i]) by {
            assert(p[i] == n[i]);
        }
        if k > 1 {
            assert(p[0] == n[0]);
        }
        lemma_canonical_digits_round_trip(p);
        lemma_digits_value_prefix_le(n, k);
        lemma_digits_value_nonneg(p);
        assert(is_digit(p[0]));
        assert(parsed_isize(p) == Some(digits_value(p)));
    } else {
        let m = (-v) as nat;
        let n = natural_decimal(m);
        lemma_natural_decimal_shape(m);
        if k == 1 {
            assert(p =~= seq!['-']);
        } else {
            let q = n.take(k - 1);
            assert(p =~= seq!['-'].add(q));
            assert(p.subrange(1, p.len() as int) =~= q);
            assert forall|i: int| 0 <= i < q.len() implies is_digit(#[trigger] q[i]) by {
                assert(q[i] == n[i]);
            }
            assert(q[0] == n[0]);
            lemma_canonical_digits_round_trip(q);
            lemma_digits_value_prefix_le(n, k - 1);
            lemma_digits_value_nonneg(q);
            assert(parsed_isize(p) == Some(-digits_value(q)));
            assert(decimal(-digits_value(q)) =~= seq!['-'].add(q));
        }
    }
}

/// What the first step leaves: nothing, a lone `-` where negative numbers are
/// admitted, or the text of a machine integer (returned)
proof fn lemma_readable_part(t: Seq<char>, r: RangeInclusiveView<isize>) -> (v: int)
    ensures
        ({
            let c = readable_part(t, r);
            ||| c.len() == 0
            ||| (range_admits_negatives(r) && c =~= seq!['-'])
            ||| (isize::MIN <= v <= isize::MAX && c == decimal(v))
        }),
    decreases t.len(),
{
    if t.len() == 0 || (range_admits_negatives(r) && t =~= seq!['-']) {
        0
    } else {
        match parsed_isize(t) {
            Some(v) => {
                lemma_parsed_isize_bounds(t);
                v
            },
            None => lemma_readable_part(t.drop_last(), r),
        }
    }
}

/// Shortening the text of a machine integer until the helper may leave it
/// gives canonical text
proof fn lemma_longest_prefix_of_decimal(v: int, k: int, r: RangeInclusiveView<isize>)
    requires
        isize::MIN <= v <= isize::MAX,
        0 <= k <= decimal(v).len(),
    ensures
        is_canonical_conformed(longest_conformed_prefix(decimal(v).take(k), r), r),
    decreases k,
{
    let p = decimal(v).take(k);
    lemma_decimal_prefix(v, k);
    if is_conformed(p, r) || p.len() == 0 {
        if p =~= seq!['-'] {
            assert(parsed_isize(p) is None);
        } else if p.len() > 0 {
            let w = parsed_isize(p)->Some_0;
            lemma_parsed_isize_bounds(p);
            lemma_decimal_round_trip(w as isize);
        }
    } else {
        assert(p.drop_last() =~= decimal(v).take(k - 1));
        lemma_longest_prefix_of_decimal(v, k - 1, r);
    }
}

/// What the helper leaves is canonical text that it may leave
proof fn lemma_conformed_characterized(s: Seq<char>, r: RangeInclusiveView<isize>)
    ensures
        is_canonical_conformed(conformed_int_input(s, r), r),
{
    let f = filtered_int_input(s);
    if range_admits_negatives(r) && (f =~= seq!['-'] || f =~= seq!['-', '0']) {
    } else {
        let c = readable_part(f, r);
        let v = lemma_readable_part(f, r);
        if c.len() == 0 {
        } else if range_admits_negatives(r) && c =~= seq!['-'] {
            assert(is_conformed(c, r));
        } else {
            assert(decimal(v).take(decimal(v).len() as int) =~= decimal(v));
            lemma_longest_prefix_of_decimal(v, decimal(v).len() as int, r);
        }
    }
}

/// The helper leaves a number in the range, nothing, or a lone `-` where
/// negative numbers are admitted
pub proof fn law_conformed_is_in_range(s: Seq<char>, r: RangeInclusiveView<isize>)
    ensures
        is_conformed(conformed_int_input(s, r), r),
{
    lemma_conformed_characterized(s, r);
}

/// Running the helper again on what it left changes nothing
pub proof fn law_conformed_is_idempotent(s: Seq<char>, r: RangeInclusiveView<isize>)
    ensures
        conformed_int_input(conformed_int_input(s, r), r) == conformed_int_input(s, r),
{
    let t = conformed_int_input(s, r);
    lemma_conformed_characterized(s, r);
    if t.len() == 0 {
        assert(filtered_int_input(t) =~= t);
        assert(readable_part(t, r) =~= t);
    } else if range_admits_negatives(r) && t =~= seq!['-'] {
        assert(is_kept_input_char(t[0], 0));
        lemma_filter_keeps_shape(t);
    } else {
        let w = parsed_isize(t)->Some_0;
        lemma_parsed_isize_bounds(t);
        lemma_decimal_round_trip(w as isize);
        lemma_filter_keeps_shape(t);
        assert(readable_part(t, r) == t);
        assert(is_conformed(t, r));
    }
}

/// The input helper never leaves `-0`
pub proof fn law_conformed_is_never_minus_zero(s: Seq<char>, r: RangeInclusiveView<isize>)
    ensures
        !(conformed_int_input(s, r) =~= seq!['-', '0']),
{
    let t = conformed_int_input(s, r);
    lemma_conformed_characterized(s, r);
    if t.len() > 0 && !(t =~= seq!['-']) {
        let w = parsed_isize(t)->Some_0;
        lemma_parsed_isize_bounds(t);
        lemma_decimal_round_trip(w as isize);
    }
}

/// Whatever the input, what the helper leaves holds only ASCII digits and, at
/// most, a leading `-`.
pub proof fn law_conformed_has_int_shape(s: Seq<char>, r: RangeInclusiveView<isize>)
    ensures
        is_int_input_shape(conformed_int_input(s, r)),
{
    let t = conformed_int_input(s, r);
    lemma_conformed_characterized(s, r);
    if t =~= seq!['-'] {
        assert(is_kept_input_char(t[0], 0));
    } else if t.len() > 0 {
        let w = parsed_isize(t)->Some_0;
        lemma_parsed_isize_bounds(t);
        lemma_decimal_round_trip(w as isize);
    }
}

/// When the helper's result reads as a number, it is the canonical text of
/// that number (no superfluous zeros, no `+`).
pub proof fn law_conformed_value_is_canonical(s: Seq<char>, r: RangeInclusiveView<isize>)
    requires
        parsed_isize(conformed_int_input(s, r)) is Some,
    ensures
        conformed_int_input(s, r) == decimal(parsed_isize(conformed_int_input(s, r))->Some_0),
{
    let t = conformed_int_input(s, r);
    lemma_conformed_characterized(s, r);
    if t =~= seq!['-'] {
        assert(parsed_isize(t) is None);
    }
}

/// Digits without a superfluous leading zero
pub open spec fn is_canonical_digits(t: Seq<char>) -> bool {
    t.len() >= 1 && all_digits(t) && (t.len() > 1 ==> t[0] != '0')
}

/// Canonical digits are the text of their own value
pub proof fn lemma_canonical_digits_round_trip(t: Seq<char>)
    requires
        is_canonical_digits(t),
    ensures
        natural_decimal(digits_value(t) as nat) == t,
        t[0] != '0' ==> digits_value(t) >= 1,
    decreases t.len(),
{
    let c = t.last();
    assert(is_digit(t[t.len() - 1]));
    lemma_digits_value_nonneg(t);
    if t.len() == 1 {
        assert(t.drop_last() =~= Seq::<char>::empty());
        assert(digits_value(Seq::<char>::empty()) == 0);
        assert(digits_value(t) == digit_value(c));
        assert(digit_char(digit_value(c)) == c);
        assert(natural_decimal(digits_value(t) as nat) =~= t);
    } else {
        let d = t.drop_last();
        assert(d[0] == t[0]);
        assert forall|i: int| 0 <= i < d.len() implies is_digit(#[trigger] d[i]) by {
            assert(d[i] == t[i]);
        }
        lemma_canonical_digits_round_trip(d);
        lemma_digits_value_nonneg(d);
        let w = digits_value(t);
        assert(w == 10 * digits_value(d) + digit_value(c));
        assert(w / 10 == digits_value(d));
        assert(w % 10 == digit_value(c));
        assert(digit_char(digit_value(c)) == c);
        assert(natural_decimal(w as nat) =~= d.push(c));
        assert(d.push(c) =~= t);
    }
}

/// `RangeInclusive::is_empty`: whether the range holds no item.
#[verifier::external_body]
fn range_is_empty_exec(range: &RangeInclusive<isize>) -> (empty: bool)
    ensures
        empty == range_is_empty(range@),
{
    range.is_empty()
}

/// `RangeInclusive::start`: the lower bound of the range.
#[verifier::external_body]
fn range_start(range: &RangeInclusive<isize>) -> (start: isize)
    ensures
        start == range@.start,
{
    *range.start()
}

/// `String::push`: appends one char.
#[verifier::external_body]
pub(crate) fn push_char(s: &mut String, c: char)
    ensures
        final(s)@ == old(s)@.push(c),
{
    s.push(c)
}

/// The chars of a string, in order
pub fn chars_of(s: &str) -> (chars: Vec<char>)
    ensures
        chars@ == s@,
{
    let n = s.unicode_len();
    let mut out: Vec<char> = Vec::new();
    for i in 0..n
        invariant
            n == s@.len(),
            out@ == s@.take(i as int),
    {
        let c = s.get_char(i);
        out.push(c);
        proof {
            assert(s@.take(i + 1) =~= s@.take(i as int).push(c));
        }
    }
    proof {
        assert(s@.take(n as int) =~= s@);
    }
    out
}

/// The three texts one after the other
pub fn joined(a: &str, b: &str, c: &str) -> (s: String)
    ensures
        s@ == a@ + b@ + c@,
{
    let mut s = String::new();
    let parts: [&str; 3] = [a, b, c];
    let mut k: usize = 0;
    while k < 3
        invariant
            k <= 3,
            parts@ == seq![a, b, c],
            s@ == (if k == 0 {
                Seq::<char>::empty()
            } else if k == 1 {
                a@
            } else if k == 2 {
                a@ + b@
            } else {
                a@ + b@ + c@
            }),
        decreases 3 - k,
    {
        let part = parts[k];
        let n = part.unicode_len();
        let ghost before = s@;
        for i in 0..n
            invariant
                n == part@.len(),
                s@ == before + part@.take(i as int),
        {
            push_char(&mut s, part.get_char(i));
            proof {
                assert(part@.take(i + 1) =~= part@.take(i as int).push(part@[i as int]));
            }
        }
        proof {
            assert(part@.take(n as int) =~= part@);
        }
        k = k + 1;
    }
    s
}

/// Whether two texts hold the same chars
pub fn same_text(a: &str, b: &str) -> (same: bool)
    ensures
        same == (a@ == b@),
{
    let n = a.unicode_len();
    if n != b.unicode_len() {
        return false;
    }
    let mut i: usize = 0;
    while i < n
        invariant
            n == a@.len() == b@.len(),
            i <= n,
            forall|j: int| 0 <= j < i ==> a@[j] == b@[j],
        decreases n - i,
    {
        if a.get_char(i) != b.get_char(i) {
            return false;
        }
        i = i + 1;
    }
    proof {
        assert(a@ =~= b@);
    }
    true
}

/// A string holding the given chars, in order
pub fn string_of(chars: &Vec<char>) -> (s: String)
    ensures
        s@ == chars@,
{
    let mut s = String::new();
    for i in 0..chars.len()
        invariant
            s@ == chars@.take(i as int),
    {
        push_char(&mut s, chars[i]);
        proof {
            assert(chars@.take(i + 1) =~= chars@.take(i as int).push(chars@[i as int]));
        }
    }
    proof {
        assert(chars@.take(chars.len() as int) =~= chars@);
    }
    s
}

/// The first step of the input helper: the text shortened from its end until
/// it reads as a number, then written as that number
fn read_number_text(t: Vec<char>, negatives: bool, range: &RangeInclusive<isize>) -> (c: Vec<
    char,
>)
    requires
        negatives == range_admits_negatives(range@),
    ensures
        c@ == readable_part(t@, range@),
    decreases t.len(),
{
    if t.len() == 0 || (negatives && t.len() == 1 && t[0] == '-') {
        proof {
            if t.len() == 1 {
                assert(t@ =~= seq!['-']);
            }
        }
        return t;
    }
    proof {
        if t@ =~= seq!['-'] {
            assert(t[0] == '-');
        }
    }
    match parse_isize(&t) {
        Some(v) => render_isize(v),
        None => {
            let mut u = t;
            u.pop();
            read_number_text(u, negatives, range)
        },
    }
}

/// The second step of the input helper: drop last chars until the text is
/// nothing, a lone `-` where negative numbers are admitted, or a number in
/// the range
fn shorten_until_conformed(c: Vec<char>, negatives: bool, range: &RangeInclusive<isize>) -> (d: Vec<
    char,
>)
    requires
        negatives == range_admits_negatives(range@),
    ensures
        d@ == longest_conformed_prefix(c@, range@),
    decreases c.len(),
{
    let lone_minus = c.len() == 1 && c[0] == '-';
    proof {
        if c@ =~= seq!['-'] {
            assert(c[0] == '-');
        }
        if lone_minus {
            assert(c@ =~= seq!['-']);
        }
    }
    let in_range = match parse_isize(&c) {
        Some(v) => range.contains(&v),
        None => false,
    };
    if c.len() == 0 || (negatives && lone_minus) || in_range {
        c
    } else {
        let mut u = c;
        u.pop();
        shorten_until_conformed(u, negatives, range)
    }
}

/// Alter the string that's passed referenced so that it holds a string
/// representation of a number in the specified range.
///
/// There is no "-0".
pub fn conform_string_input_to_int_in_range(str: &mut String, range: RangeInclusive<isize>)
    ensures
        final(str)@ == conformed_int_input(old(str)@, range@),
{
    // Keep the chars that may be part of an integer
    let input = chars_of(str.as_str());
    let mut filtered: Vec<char> = Vec::new();
    for i in 0..input.len()
        invariant
            filtered@ == filtered_int_input(input@.take(i as int)),
    {
        let c = input[i];
        proof {
            assert(input@.take(i + 1).drop_last() =~= input@.take(i as int));
        }
        if ('0' <= c && c <= '9') || (c == '-' && i == 0) {
            filtered.push(c);
        }
    }
    proof {
        assert(input@.take(input.len() as int) =~= input@);
    }

    // If negative numbers are allowed, "-" stays and "-0" becomes "-"
    let negatives = range_is_empty_exec(&range) || range_start(&range) < 0;
    let lone_minus = filtered.len() == 1 && filtered[0] == '-';
    let minus_zero = filtered.len() == 2 && filtered[0] == '-' && filtered[1] == '0';
    proof {
        if filtered@ =~= seq!['-'] {
            assert(filtered[0] == '-');
        }
        if filtered@ =~= seq!['-', '0'] {
            assert(filtered[0] == '-' && filtered[1] == '0');
        }
        if lone_minus {
            assert(filtered@ =~= seq!['-']);
        }
        if minus_zero {
            assert(filtered@ =~= seq!['-', '0']);
        }
    }
    if negatives && (lone_minus || minus_zero) {
        let mut minus: Vec<char> = Vec::new();
        minus.push('-');
        proof {
            assert(minus@ =~= seq!['-']);
        }
        *str = string_of(&minus);
        return;
    }

    // Read the number, then drop its last digits until it is in the range
    let text = read_number_text(filtered, negatives, &range);
    let conformed = shorten_until_conformed(text, negatives, &range);
    *str = string_of(&conformed);
}

} // verus!
