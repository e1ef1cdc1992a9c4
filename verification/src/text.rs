//! String operations over the characters of a `str`.
//!
//! Every function works on the sequence of `char`s that the string views as.

use vstd::prelude::*;

verus! {

/// What is left of `s` once `prefix` is taken off its front, if `s` starts with it.
pub open spec fn stripped(s: Seq<char>, prefix: Seq<char>) -> Option<Seq<char>> {
    if prefix.is_prefix_of(s) {
        Some(s.skip(prefix.len() as int))
    } else {
        None
    }
}

/// `s` without any leading repetition of `prefix`.
pub open spec fn trimmed(s: Seq<char>, prefix: Seq<char>) -> Seq<char>
    decreases s.len(),
{
    if prefix.len() > 0 && prefix.is_prefix_of(s) {
        trimmed(s.skip(prefix.len() as int), prefix)
    } else {
        s
    }
}

/// A decimal digit.
pub open spec fn is_digit(c: char) -> bool {
    '0' <= c <= '9'
}

/// The number that a run of decimal digits denotes.
pub open spec fn decimal(digits: Seq<char>) -> int
    decreases digits.len(),
{
    if digits.len() == 0 {
        0
    } else {
        decimal(digits.drop_last()) * 10 + (digits.last() as int - '0' as int)
    }
}

/// An optional sign in front of a numeral: whether the numeral is negated, and its digits.
pub open spec fn sign_and_digits(s: Seq<char>) -> (bool, Seq<char>) {
    if s.len() > 0 && s[0] == '-' {
        (true, s.skip(1))
    } else if s.len() > 0 && s[0] == '+' {
        (false, s.skip(1))
    } else {
        (false, s)
    }
}

/// The `i64` written as `s`: an optional sign and at least one digit, nothing else,
/// denoting a number in the range of the type.
pub open spec fn numeral(s: Seq<char>) -> Option<i64> {
    let (negative, digits) = sign_and_digits(s);
    let value = if negative {
        -decimal(digits)
    } else {
        decimal(digits)
    };
    if digits.len() > 0 && (forall|i: int| 0 <= i < digits.len() ==> is_digit(digits[i]))
        && i64::MIN <= value <= i64::MAX {
        Some(value as i64)
    } else {
        None
    }
}

/// The characters of a string that may be absent.
pub open spec fn str_chars(s: Option<&str>) -> Option<Seq<char>> {
    match s {
        Some(s) => Some(s@),
        None => None,
    }
}

/// The characters of an owned string that may be absent.
pub open spec fn string_chars(s: Option<String>) -> Option<Seq<char>> {
    match s {
        Some(s) => Some(s@),
        None => None,
    }
}

/// The last position at which `c` stands in `s`; -1 where it does not occur.
pub open spec fn last_position(s: Seq<char>, c: char) -> int
    decreases s.len(),
{
    if s.len() == 0 {
        -1
    } else if s.last() == c {
        s.len() - 1
    } else {
        last_position(s.drop_last(), c)
    }
}

/// The characters of `s`.
pub fn chars(s: &str) -> (r: Vec<char>)
    ensures
        r@ == s@,
{
    let mut out: Vec<char> = Vec::new();
    for c in it: s.chars()
        invariant
            out@ == it.seq().take(it.index() as int),
            it.seq() == s@,
    {
        out.push(c);
    }
    out
}

/// Whether two strings hold the same characters.
pub fn same(a: &str, b: &str) -> (r: bool)
    ensures
        r == (a@ == b@),
{
    broadcast use vstd::utf8::encode_utf8_decode_utf8;

    let left: &[u8] = a.as_bytes();
    let right: &[u8] = b.as_bytes();
    if left.len() != right.len() {
        return false;
    }
    let mut i: usize = 0;
    while i < left.len()
        invariant
            left@ == vstd::utf8::encode_utf8(a@),
            right@ == vstd::utf8::encode_utf8(b@),
            left@.len() == right@.len(),
            i <= left@.len(),
            forall|k: int| 0 <= k < i ==> left@[k] == right@[k],
        decreases left@.len() - i,
    {
        if left[i] != right[i] {
            return false;
        }
        i += 1;
    }
    assert(left@ =~= right@);
    assert(vstd::utf8::decode_utf8(left@) == a@);
    assert(vstd::utf8::decode_utf8(right@) == b@);
    true
}

/// Whether the characters of `prefix` stand in `s` from position `at` on.
pub fn stands_at(s: &Vec<char>, at: usize, prefix: &Vec<char>) -> (r: bool)
    requires
        at <= s@.len(),
    ensures
        r == prefix@.is_prefix_of(s@.skip(at as int)),
{
    let end: usize = s.len();
    if prefix.len() > end - at {
        return false;
    }
    let mut i: usize = 0;
    while i < prefix.len()
        invariant
            at + prefix@.len() <= s@.len(),
            end == s@.len(),
            i <= prefix@.len(),
            forall|k: int| 0 <= k < i ==> s@[at + k] == #[trigger] prefix@[k],
        decreases prefix@.len() - i,
    {
        if s[at + i] != prefix[i] {
            proof {
                let rest = s@.skip(at as int);
                if prefix@.is_prefix_of(rest) {
                    assert(rest.subrange(0, prefix@.len() as int)[i as int] == s@[at + i]);
                }
            }
            return false;
        }
        i += 1;
    }
    assert(prefix@ =~= s@.skip(at as int).subrange(0, prefix@.len() as int));
    true
}

/// The last position before `end` at which `c` stands in `s`.
pub fn find_last(s: &Vec<char>, end: usize, c: char) -> (r: Option<usize>)
    requires
        end <= s@.len(),
    ensures
        match r {
            Some(at) => at < end && at == last_position(s@.take(end as int), c),
            None => last_position(s@.take(end as int), c) == -1,
        },
        match r {
            Some(at) => at < end && s@[at as int] == c && forall|k: int|
                at < k < end ==> s@[k] != c,
            None => forall|k: int| 0 <= k < end ==> s@[k] != c,
        },
{
    let mut i: usize = end;
    while i > 0
        invariant
            i <= end <= s@.len(),
            last_position(s@.take(end as int), c) == last_position(s@.take(i as int), c),
            forall|k: int| i <= k < end ==> s@[k] != c,
        decreases i,
    {
        assert(s@.take(i as int).drop_last() =~= s@.take(i - 1));
        i -= 1;
        if s[i] == c {
            return Some(i);
        }
    }
    None
}

/// Takes `prefix` off the front of `s`.
///
/// Returns `None` when `s` does not start with `prefix`.
pub fn strip_prefix<'a>(s: &'a str, prefix: &str) -> (r: Option<&'a str>)
    ensures
        match r {
            Some(rest) => stripped(s@, prefix@) == Some(rest@),
            None => stripped(s@, prefix@) is None,
        },
{
    let whole: Vec<char> = chars(s);
    let front: Vec<char> = chars(prefix);
    assert(s@.skip(0) =~= s@);
    if stands_at(&whole, 0, &front) {
        Some(s.substring_char(front.len(), whole.len()))
    } else {
        None
    }
}

/// Takes every leading repetition of `prefix` off `s`.
pub fn trim_start_matches<'a>(s: &'a str, prefix: &str) -> (r: &'a str)
    ensures
        r@ == trimmed(s@, prefix@),
{
    let whole: Vec<char> = chars(s);
    let front: Vec<char> = chars(prefix);
    let end: usize = whole.len();
    let mut at: usize = 0;
    assert(s@.skip(0) =~= s@);
    while front.len() > 0 && stands_at(&whole, at, &front)
        invariant
            whole@ == s@,
            end == s@.len(),
            front@ == prefix@,
            at <= whole@.len(),
            trimmed(s@, prefix@) == trimmed(s@.skip(at as int), prefix@),
        decreases whole@.len() - at,
    {
        assert(s@.skip(at as int).skip(prefix@.len() as int) =~= s@.skip(at + prefix@.len()));
        at += front.len();
    }
    assert(s@.skip(at as int) =~= s@.subrange(at as int, s@.len() as int));
    s.substring_char(at, end)
}

/// A run of digits denotes a number that is no smaller than that of any run it continues.
proof fn lemma_decimal_grows(digits: Seq<char>, n: int)
    requires
        0 <= n <= digits.len(),
        forall|i: int| 0 <= i < digits.len() ==> is_digit(digits[i]),
    ensures
        0 <= decimal(digits.take(n)) <= decimal(digits),
    decreases digits.len(),
{
    if n == digits.len() {
        assert(digits.take(n) =~= digits);
        if n > 0 {
            lemma_decimal_grows(digits.drop_last(), n - 1);
            assert(is_digit(digits[n - 1]));
        }
    } else {
        lemma_decimal_grows(digits.drop_last(), n);
        assert(digits.drop_last().take(n) =~= digits.take(n));
        assert(is_digit(digits.last()));
    }
}

/// Reads `s` as an `i64`.
#[verifier::rlimit(40)]
pub fn parse_i64(s: &str) -> (r: Option<i64>)
    ensures
        r == numeral(s@),
{
    let whole: Vec<char> = chars(s);
    let ghost (minus, digits) = sign_and_digits(s@);
    let negative: bool = whole.len() > 0 && whole[0] == '-';
    let start: usize = if negative || (whole.len() > 0 && whole[0] == '+') {
        1
    } else {
        0
    };
    assert(s@.skip(0) =~= s@);
    assert(negative == minus && digits == s@.skip(start as int));
    if whole.len() == start {
        return None;
    }
    let mut value: i128 = 0;
    let mut i: usize = start;
    assert(digits.take(0) =~= Seq::<char>::empty());
    while i < whole.len()
        invariant
            whole@ == s@,
            start <= i <= whole@.len(),
            (minus, digits) == sign_and_digits(s@),
            digits == s@.skip(start as int),
            0 <= value <= 0x8000_0000_0000_0000,
            value == decimal(digits.take(i - start)),
            forall|k: int| 0 <= k < i - start ==> is_digit(#[trigger] digits[k]),
        decreases whole@.len() - i,
    {
        let c: char = whole[i];
        assert(digits[i - start] == c);
        if c < '0' || c > '9' {
            return None;
        }
        let ghost seen = digits.take(i - start + 1);
        assert(seen.drop_last() =~= digits.take(i - start));
        value = value * 10 + (c as i128 - '0' as i128);
        i += 1;
        if value > 0x8000_0000_0000_0000 {
            proof {
                if forall|k: int| 0 <= k < digits.len() ==> is_digit(digits[k]) {
                    lemma_decimal_grows(digits, i - start);
                }
            }
            return None;
        }
    }
    assert(digits.take(whole@.len() - start) =~= digits);
    let signed: i128 = if negative {
        -value
    } else {
        value
    };
    if signed > 0x7fff_ffff_ffff_ffff {
        None
    } else {
        Some(signed as i64)
    }
}

/// A string that may be absent stands for all of its characters, and an absent one for nothing.
pub proof fn law_absent_or_all_characters(borrowed: &str, owned: String)
    ensures
        str_chars(Some(borrowed)) == Some(borrowed@),
        str_chars(None) is None,
        string_chars(Some(owned)) == Some(owned@),
        string_chars(None) is None,
{
}

/// Taking a prefix off undoes putting it in front, and putting it in front undoes taking it off.
/// Nothing is taken off where the prefix does not stand in front.
pub proof fn law_prefix_comes_off_as_it_went_on(prefix: Seq<char>, rest: Seq<char>, s: Seq<char>)
    ensures
        stripped(prefix + rest, prefix) == Some(rest),
        stripped(s, prefix) matches Some(left) ==> prefix + left == s,
        stripped(s, prefix) is None ==> prefix + rest != s,
{
    let whole = prefix + rest;
    assert(prefix =~= whole.subrange(0, prefix.len() as int));
    assert(whole.skip(prefix.len() as int) =~= rest);
    if prefix.is_prefix_of(s) {
        assert(prefix + s.skip(prefix.len() as int) =~= s);
    }
}

/// What [`strip_prefix`] gives is what stands behind the prefix, and it gives nothing exactly when
/// the string does not begin with the prefix.
pub proof fn law_strip_prefix_gives_the_rest(s: &str, prefix: &str, r: Option<&str>)
    requires
        call_ensures(strip_prefix, (s, prefix), r),
    ensures
        r matches Some(rest) ==> s@ == prefix@ + rest@,
        r is None ==> forall|rest: Seq<char>| s@ != #[trigger] (prefix@ + rest),
{
    law_prefix_comes_off_as_it_went_on(prefix@, seq![], s@);
    assert forall|rest: Seq<char>| r is None implies s@ != #[trigger] (prefix@ + rest) by {
        law_prefix_comes_off_as_it_went_on(prefix@, rest, s@);
    }
}

/// Trimming takes every leading repetition of the prefix off, one by one, and nothing else: with
/// one more in front the result is the same, and what does not begin with the prefix stays.
pub proof fn law_trimming_takes_off_repetitions(prefix: Seq<char>, s: Seq<char>)
    ensures
        trimmed(prefix + s, prefix) == trimmed(s, prefix),
        stripped(s, prefix) is None ==> trimmed(s, prefix) == s,
        prefix.len() > 0 ==> stripped(trimmed(s, prefix), prefix) is None,
        prefix.len() == 0 ==> trimmed(s, prefix) == s,
    decreases s.len(),
{
    law_prefix_comes_off_as_it_went_on(prefix, s, s);
    let whole = prefix + s;
    assert(prefix =~= whole.subrange(0, prefix.len() as int));
    assert(whole.skip(prefix.len() as int) =~= s);
    if prefix.len() == 0 {
        assert(whole =~= s);
    } else if prefix.is_prefix_of(s) {
        law_trimming_takes_off_repetitions(prefix, s.skip(prefix.len() as int));
    }
}

/// A numeral is an optional sign and at least one decimal digit, and nothing else.
pub proof fn law_numeral_is_signed_digits(s: Seq<char>)
    requires
        numeral(s) is Some,
    ensures
        s.len() > 0,
        '0' <= s[0] <= '9' || ((s[0] == '-' || s[0] == '+') && s.len() > 1),
        forall|i: int| 0 < i < s.len() ==> '0' <= #[trigger] s[i] <= '9',
{
    let (negative, digits) = sign_and_digits(s);
    assert forall|i: int| 0 < i < s.len() implies '0' <= #[trigger] s[i] <= '9' by {
        if digits.len() == s.len() {
            assert(is_digit(digits[i]));
        } else {
            assert(s[i] == digits[i - 1]);
            assert(is_digit(digits[i - 1]));
        }
    }
    if digits.len() == s.len() {
        assert(is_digit(digits[0]));
    }
}

/// One digit behind an optional sign denotes that digit, negated behind a minus sign.
pub proof fn law_numeral_of_one_digit(c: char)
    requires
        '0' <= c <= '9',
    ensures
        numeral(seq![c]) == Some((c as int - '0' as int) as i64),
        numeral(seq!['+', c]) == Some((c as int - '0' as int) as i64),
        numeral(seq!['-', c]) == Some((('0' as int) - (c as int)) as i64),
{
    assert(seq![c].drop_last() =~= Seq::<char>::empty());
    assert(decimal(seq![c].drop_last()) == 0);
    assert(decimal(seq![c]) == c as int - '0' as int);
    assert(seq!['+', c].skip(1) =~= seq![c]);
    assert(seq!['-', c].skip(1) =~= seq![c]);
}

/// A further digit shifts the others by one decimal place, as far as the number stays in range;
/// a numeral that has left the range does not come back.
pub proof fn law_numeral_grows_digit_by_digit(s: Seq<char>, c: char)
    requires
        s.len() > 0,
        '0' <= s[0] <= '9' || ((s[0] == '-' || s[0] == '+') && s.len() > 1),
        forall|i: int| 0 < i < s.len() ==> '0' <= #[trigger] s[i] <= '9',
        '0' <= c <= '9',
    ensures
        numeral(s) matches Some(v) ==> {
            let next = if s[0] == '-' {
                10 * v - (c as int - '0' as int)
            } else {
                10 * v + (c as int - '0' as int)
            };
            if i64::MIN <= next <= i64::MAX {
                numeral(s.push(c)) == Some(next as i64)
            } else {
                numeral(s.push(c)) is None
            }
        },
        numeral(s) is None ==> numeral(s.push(c)) is None,
{
    let (negative, digits) = sign_and_digits(s);
    let longer = s.push(c);
    assert(longer[0] == s[0]);
    if s[0] == '-' || s[0] == '+' {
        assert(longer.skip(1) =~= digits.push(c));
        assert forall|i: int| 0 <= i < digits.len() implies is_digit(digits[i]) by {
            assert(digits[i] == s[i + 1]);
        }
    } else {
        assert(longer =~= digits.push(c));
        assert forall|i: int| 0 <= i < digits.len() implies is_digit(digits[i]) by {
            assert(digits[i] == s[i]);
        }
    }
    let more = digits.push(c);
    assert(more.drop_last() =~= digits);
    assert(decimal(more) == decimal(digits) * 10 + (c as int - '0' as int));
    assert forall|i: int| 0 <= i < more.len() implies is_digit(more[i]) by {
        if i < digits.len() {
            assert(is_digit(digits[i]));
        }
    }
    lemma_decimal_grows(digits, digits.len() as int);
    assert(digits.take(digits.len() as int) =~= digits);
}

/// What is no optional sign followed by digits is no numeral, whatever stands behind it.
pub proof fn law_other_text_is_no_numeral(s: Seq<char>, at: int)
    requires
        s.len() == 0 || (s.len() == 1 && (s[0] == '-' || s[0] == '+')) || (0 <= at < s.len()
            && !('0' <= s[at] <= '9') && (at > 0 || (s[0] != '-' && s[0] != '+'))),
    ensures
        numeral(s) is None,
{
    if numeral(s) is Some {
        law_numeral_is_signed_digits(s);
    }
}

/// The last position of a character is where it stands with no other one behind it.
pub proof fn law_last_position_is_the_last(s: Seq<char>, c: char)
    ensures
        -1 <= last_position(s, c) < s.len(),
        last_position(s, c) >= 0 ==> s[last_position(s, c)] == c,
        forall|k: int| last_position(s, c) < k < s.len() ==> s[k] != c,
    decreases s.len(),
{
    if s.len() > 0 && s.last() != c {
        law_last_position_is_the_last(s.drop_last(), c);
        assert forall|k: int| last_position(s, c) < k < s.len() implies s[k] != c by {
            if k < s.len() - 1 {
                assert(s.drop_last()[k] == s[k]);
            }
        }
    }
}

} // verus!
