//! Decimal text and machine integers: what `str::parse::<isize>` reads and
//! what `isize::to_string` writes, stated over sequences of chars and
//! implemented without leaving verified code.

use vstd::prelude::*;

verus! {

/// An ASCII decimal digit
pub open spec fn is_digit(c: char) -> bool {
    '0' <= c && c <= '9'
}

/// The value of an ASCII decimal digit
pub open spec fn digit_value(c: char) -> int {
    (c as int) - ('0' as int)
}

/// The ASCII char of a decimal digit `d` (`0 <= d < 10`)
pub open spec fn digit_char(d: int) -> char {
    (d + ('0' as int)) as char
}

/// Every char of `s` is an ASCII decimal digit
pub open spec fn all_digits(s: Seq<char>) -> bool {
    forall|i: int| 0 <= i < s.len() ==> is_digit(#[trigger] s[i])
}

/// The number written by a sequence of decimal digits, most significant first
pub open spec fn digits_value(s: Seq<char>) -> int
    decreases s.len(),
{
    if s.len() == 0 {
        0
    } else {
        10 * digits_value(s.drop_last()) + digit_value(s.last())
    }
}

/// The result of `from_str` for a signed integer type whose values run from
/// `min` to `max`: an optional sign followed by at least one ASCII digit,
/// with a value in the range.  `None` stands for the error.
pub open spec fn parsed_int(s: Seq<char>, min: int, max: int) -> Option<int> {
    if s.len() > 0 && s[0] == '-' {
        let rest = s.subrange(1, s.len() as int);
        if rest.len() > 0 && all_digits(rest) && min <= -digits_value(rest) {
            Some(-digits_value(rest))
        } else {
            None
        }
    } else if s.len() > 0 && s[0] == '+' {
        let rest = s.subrange(1, s.len() as int);
        if rest.len() > 0 && all_digits(rest) && digits_value(rest) <= max {
            Some(digits_value(rest))
        } else {
            None
        }
    } else if s.len() > 0 && all_digits(s) && digits_value(s) <= max {
        Some(digits_value(s))
    } else {
        None
    }
}

/// The result of `isize::from_str` (what `str::parse::<isize>` returns)
pub open spec fn parsed_isize(s: Seq<char>) -> Option<int> {
    parsed_int(s, isize::MIN as int, isize::MAX as int)
}

/// The result of `i64::from_str` (what `str::parse::<i64>` returns)
pub open spec fn parsed_i64(s: Seq<char>) -> Option<int> {
    parsed_int(s, i64::MIN as int, i64::MAX as int)
}

/// The result of `i32::from_str` (what `str::parse::<i32>` returns)
pub open spec fn parsed_i32(s: Seq<char>) -> Option<int> {
    parsed_int(s, i32::MIN as int, i32::MAX as int)
}

/// The shortest decimal representation of a natural number
pub open spec fn natural_decimal(n: nat) -> Seq<char>
    decreases n,
{
    if n < 10 {
        seq![digit_char(n as int)]
    } else {
        natural_decimal(n / 10).push(digit_char((n % 10) as int))
    }
}

/// The text that `isize::to_string` writes for `v`
pub open spec fn decimal(v: int) -> Seq<char> {
    if v < 0 {
        seq!['-'].add(natural_decimal((-v) as nat))
    } else {
        natural_decimal(v as nat)
    }
}

/// The value of digits is never negative
pub proof fn lemma_digits_value_nonneg(s: Seq<char>)
    requires
        all_digits(s),
    ensures
        digits_value(s) >= 0,
    decreases s.len(),
{
    if s.len() > 0 {
        lemma_digits_value_nonneg(s.drop_last());
    }
}

/// What parses lies in the range
pub proof fn lemma_parsed_int_bounds(s: Seq<char>, min: int, max: int)
    requires
        min <= 0 <= max,
    ensures
        parsed_int(s, min, max) matches Some(v) ==> min <= v <= max,
{
    if s.len() > 0 && (s[0] == '-' || s[0] == '+') {
        let rest = s.subrange(1, s.len() as int);
        if all_digits(rest) {
            lemma_digits_value_nonneg(rest);
        }
    } else if all_digits(s) {
        lemma_digits_value_nonneg(s);
    }
}

/// What parses as an `isize` lies in the range of `isize`
pub proof fn lemma_parsed_isize_bounds(s: Seq<char>)
    ensures
        parsed_isize(s) matches Some(v) ==> isize::MIN <= v <= isize::MAX,
{
    lemma_parsed_int_bounds(s, isize::MIN as int, isize::MAX as int);
}

/// A prefix of digits is worth no more than the whole
pub proof fn lemma_digits_value_prefix_le(s: Seq<char>, k: int)
    requires
        all_digits(s),
        0 <= k <= s.len(),
    ensures
        digits_value(s.take(k)) <= digits_value(s),
    decreases s.len(),
{
    if k == s.len() {
        assert(s.take(k) =~= s);
    } else {
        let d = s.drop_last();
        lemma_digits_value_prefix_le(d, k);
        assert(d.take(k) =~= s.take(k));
        lemma_digits_value_nonneg(d);
    }
}

/// Reading one more digit multiplies by ten and adds the digit
pub proof fn lemma_digits_value_step(s: Seq<char>, k: int)
    requires
        0 <= k < s.len(),
    ensures
        digits_value(s.take(k + 1)) == 10 * digits_value(s.take(k)) + digit_value(s[k]),
{
    assert(s.take(k + 1).drop_last() =~= s.take(k));
}

/// The digits of a natural number are digits and do not start with a
/// superfluous zero
pub proof fn lemma_natural_decimal_shape(n: nat)
    ensures
        natural_decimal(n).len() >= 1,
        all_digits(natural_decimal(n)),
        natural_decimal(n).len() > 1 ==> natural_decimal(n)[0] != '0',
        natural_decimal(n)[0] == '0' ==> n == 0,
        digits_value(natural_decimal(n)) == n,
    decreases n,
{
    let c = digit_char((n % 10) as int);
    assert(digit_value(c) == n % 10);
    if n >= 10 {
        lemma_natural_decimal_shape(n / 10);
        let p = natural_decimal(n / 10);
        assert(natural_decimal(n).drop_last() =~= p);
        assert(natural_decimal(n)[0] == p[0]);
        assert(natural_decimal(n).last() == c);
        assert(digits_value(natural_decimal(n)) == 10 * digits_value(p) + digit_value(c));
        assert(n == 10 * (n / 10) + n % 10);
    } else {
        assert(natural_decimal(n).drop_last() =~= Seq::<char>::empty());
        assert(digits_value(Seq::<char>::empty()) == 0);
        assert(natural_decimal(n).last() == c);
        assert(n % 10 == n);
    }
}

/// The text of an integer in range reads back as that integer; it starts
/// with a sign or a digit and ends with a digit
pub proof fn lemma_decimal_parses(v: int, min: int, max: int)
    requires
        min <= v <= max,
    ensures
        parsed_int(decimal(v), min, max) == Some(v),
        decimal(v).len() >= 1,
        decimal(v)[0] == '-' || is_digit(decimal(v)[0]),
        is_digit(decimal(v).last()),
{
    let t = decimal(v);
    if v < 0 {
        let n = natural_decimal((-v) as nat);
        lemma_natural_decimal_shape((-v) as nat);
        assert(t.subrange(1, t.len() as int) =~= n);
        assert(t.last() == n.last());
    } else {
        let n = natural_decimal(v as nat);
        lemma_natural_decimal_shape(v as nat);
        assert(is_digit(t[0]));
        assert(is_digit(t[t.len() - 1]));
    }
}

/// Reads the chars of `s` from index `from` on as digits; `None` when one is not a
/// digit or the value exceeds `limit`.
fn read_digits(s: &Vec<char>, from: usize, limit: i128) -> (r: Option<i128>)
    requires
        from <= s.len(),
        0 <= limit <= 0x1_0000_0000_0000_0000,
    ensures
        match r {
            Some(v) => all_digits(s@.subrange(from as int, s.len() as int)) && v == digits_value(
                s@.subrange(from as int, s.len() as int),
            ) && 0 <= v <= limit,
            None => !all_digits(s@.subrange(from as int, s.len() as int)) || digits_value(
                s@.subrange(from as int, s.len() as int),
            ) > limit,
        },
{
    let ghost rest = s@.subrange(from as int, s.len() as int);
    let mut acc: i128 = 0;
    let mut i: usize = from;
    while i < s.len()
        invariant
            from <= i <= s.len(),
            rest == s@.subrange(from as int, s.len() as int),
            all_digits(rest.take(i - from)),
            acc == digits_value(rest.take(i - from)),
            0 <= acc <= limit,
            0 <= limit <= 0x1_0000_0000_0000_0000,
        decreases s.len() - i,
    {
        let c = s[i];
        if !('0' <= c && c <= '9') {
            proof {
                assert(rest[i - from] == c);
            }
            return None;
        }
        let d = (c as u32 - '0' as u32) as i128;
        proof {
            lemma_digits_value_step(rest, i - from);
            assert(rest.take(i - from + 1) =~= rest.take(i - from).push(c));
        }
        acc = acc * 10 + d;
        i = i + 1;
        if acc > limit {
            proof {
                if all_digits(rest) {
                    lemma_digits_value_prefix_le(rest, i - from);
                }
            }
            return None;
        }
    }
    proof {
        assert(rest.take(i - from) =~= rest);
    }
    Some(acc)
}

/// `from_str` for a signed integer type whose values run from `min` to
/// `max`, over a sequence of chars
fn parse_int_in(s: &Vec<char>, min: i128, max: i128) -> (r: Option<i128>)
    requires
        -0x1_0000_0000_0000_0000 <= min <= 0 <= max <= 0x1_0000_0000_0000_0000,
    ensures
        match r {
            Some(v) => parsed_int(s@, min as int, max as int) == Some(v as int),
            None => parsed_int(s@, min as int, max as int) is None,
        },
{
    if s.len() == 0 {
        return None;
    }
    let first = s[0];
    if first == '-' || first == '+' {
        let limit: i128 = if first == '-' {
            0 - min
        } else {
            max
        };
        if s.len() == 1 {
            return None;
        }
        match read_digits(s, 1, limit) {
            Some(v) => {
                if first == '-' {
                    Some(0 - v)
                } else {
                    Some(v)
                }
            },
            None => None,
        }
    } else {
        proof {
            assert(s@.subrange(0, s.len() as int) =~= s@);
        }
        read_digits(s, 0, max)
    }
}

/// `str::parse::<isize>` over a sequence of chars
pub fn parse_isize(s: &Vec<char>) -> (r: Option<isize>)
    ensures
        match r {
            Some(v) => parsed_isize(s@) == Some(v as int),
            None => parsed_isize(s@) is None,
        },
{
    proof {
        lemma_parsed_int_bounds(s@, isize::MIN as int, isize::MAX as int);
    }
    match parse_int_in(s, isize::MIN as i128, isize::MAX as i128) {
        Some(v) => Some(v as isize),
        None => None,
    }
}

/// `str::parse::<i64>` over a sequence of chars
pub fn parse_i64(s: &Vec<char>) -> (r: Option<i64>)
    ensures
        match r {
            Some(v) => parsed_i64(s@) == Some(v as int),
            None => parsed_i64(s@) is None,
        },
{
    proof {
        lemma_parsed_int_bounds(s@, i64::MIN as int, i64::MAX as int);
    }
    match parse_int_in(s, i64::MIN as i128, i64::MAX as i128) {
        Some(v) => Some(v as i64),
        None => None,
    }
}

/// `str::parse::<i32>` over a sequence of chars
pub fn parse_i32(s: &Vec<char>) -> (r: Option<i32>)
    ensures
        match r {
            Some(v) => parsed_i32(s@) == Some(v as int),
            None => parsed_i32(s@) is None,
        },
{
    proof {
        lemma_parsed_int_bounds(s@, i32::MIN as int, i32::MAX as int);
    }
    match parse_int_in(s, i32::MIN as i128, i32::MAX as i128) {
        Some(v) => Some(v as i32),
        None => None,
    }
}

/// Appends the decimal digits of `n`
fn push_natural_decimal(out: &mut Vec<char>, n: u128)
    ensures
        final(out)@ == old(out)@ + natural_decimal(n as nat),
    decreases n,
{
    if n >= 10 {
        push_natural_decimal(out, n / 10);
    }
    let d = (n % 10) as u32;
    let c = char_from_digit(d);
    out.push(c);
    proof {
        if n >= 10 {
            assert(old(out)@ + natural_decimal(n as nat) =~= old(out)@ + natural_decimal(
                (n / 10) as nat,
            ) + seq![c]);
        } else {
            assert(natural_decimal(n as nat) =~= seq![c]);
        }
    }
}

/// The ASCII char of a digit
fn char_from_digit(d: u32) -> (c: char)
    requires
        d < 10,
    ensures
        c == digit_char(d as int),
{
    match d {
        0 => '0',
        1 => '1',
        2 => '2',
        3 => '3',
        4 => '4',
        5 => '5',
        6 => '6',
        7 => '7',
        8 => '8',
        _ => '9',
    }
}

/// The decimal text of `v`, as `to_string` writes it for any signed integer
/// type that holds `v`
fn render_int(v: i128) -> (r: Vec<char>)
    requires
        v > i128::MIN,
    ensures
        r@ == decimal(v as int),
{
    let mut out: Vec<char> = Vec::new();
    if v < 0 {
        out.push('-');
        let m: u128 = (0 - v) as u128;
        push_natural_decimal(&mut out, m);
        proof {
            assert(out@ =~= seq!['-'].add(natural_decimal((-v) as nat)));
        }
    } else {
        push_natural_decimal(&mut out, v as u128);
        proof {
            assert(out@ =~= natural_decimal(v as nat));
        }
    }
    out
}

/// `isize::to_string`, as a sequence of chars
pub fn render_isize(v: isize) -> (r: Vec<char>)
    ensures
        r@ == decimal(v as int),
{
    render_int(v as i128)
}

/// `i64::to_string`, as a sequence of chars
pub fn render_i64(v: i64) -> (r: Vec<char>)
    ensures
        r@ == decimal(v as int),
{
    render_int(v as i128)
}

} // verus!
