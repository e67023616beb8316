//! Small text routines: comparing arguments and reading unsigned decimal
//! numbers, as the command line and the kernel's attribute files give them.

use vstd::prelude::*;
use vstd::string::*;

verus! {

/// Whether `c` is a decimal digit.
pub open spec fn is_digit(c: char) -> bool {
    '0' <= c && c <= '9'
}

/// The value of the digit `c`.
pub open spec fn digit_of(c: char) -> nat {
    (c as u32 - '0' as u32) as nat
}

/// Whether every character of `s` is a decimal digit.
pub open spec fn all_digits(s: Seq<char>) -> bool {
    forall|i: int| 0 <= i < s.len() ==> is_digit(#[trigger] s[i])
}

/// The number that a run of digits stands for; zero for no digits.
pub open spec fn digits_value(s: Seq<char>) -> nat
    decreases s.len(),
{
    if s.len() == 0 {
        0
    } else {
        digits_value(s.drop_last()) * 10 + digit_of(s.last())
    }
}

/// `s` without one leading plus sign.
pub open spec fn unsigned_body(s: Seq<char>) -> Seq<char> {
    if s.len() > 0 && s[0] == '+' {
        s.skip(1)
    } else {
        s
    }
}

/// The unsigned number that `s` spells, if it spells one that is no larger
/// than `max`: an optional plus sign and then one or more decimal digits,
/// with nothing before, between or after them.
pub open spec fn parsed_unsigned(s: Seq<char>, max: nat) -> Option<nat> {
    let body: Seq<char> = unsigned_body(s);
    if body.len() > 0 && all_digits(body) && digits_value(body) <= max {
        Some(digits_value(body))
    } else {
        None
    }
}

/// Whether `c` is white space, as Unicode defines it.
pub open spec fn is_space(c: char) -> bool {
    let code: u32 = c as u32;
    ||| 0x09 <= code <= 0x0d
    ||| code == 0x20
    ||| code == 0x85
    ||| code == 0xa0
    ||| code == 0x1680
    ||| 0x2000 <= code <= 0x200a
    ||| code == 0x2028
    ||| code == 0x2029
    ||| code == 0x202f
    ||| code == 0x205f
    ||| code == 0x3000
}

/// `s` without the white space at its beginning.
pub open spec fn trim_start(s: Seq<char>) -> Seq<char>
    decreases s.len(),
{
    if s.len() > 0 && is_space(s[0]) {
        trim_start(s.skip(1))
    } else {
        s
    }
}

/// `s` without the white space at its end.
pub open spec fn trim_end(s: Seq<char>) -> Seq<char>
    decreases s.len(),
{
    if s.len() > 0 && is_space(s.last()) {
        trim_end(s.drop_last())
    } else {
        s
    }
}

/// `s` without the white space at either end.
pub open spec fn trimmed(s: Seq<char>) -> Seq<char> {
    trim_end(trim_start(s))
}

/// Whether `s` begins with two hyphens, as flags do.
pub open spec fn is_flag(s: Seq<char>) -> bool {
    s.len() >= 2 && s[0] == '-' && s[1] == '-'
}

/// Whether two texts are the same, character by character.
pub fn same_text(a: &str, b: &str) -> (same: bool)
    ensures
        same == (a@ == b@),
{
    let n: usize = a.unicode_len();
    if b.unicode_len() != n {
        return false;
    }
    let mut i: usize = 0;
    while i < n
        invariant
            i <= n,
            n == a@.len(),
            n == b@.len(),
            forall|j: int| 0 <= j < i ==> a@[j] == b@[j],
        decreases n - i,
    {
        if a.get_char(i) != b.get_char(i) {
            return false;
        }
        i = i + 1;
    }
    assert(a@ =~= b@);
    true
}

/// Whether `text` begins with two hyphens.
pub fn starts_as_flag(text: &str) -> (flag: bool)
    ensures
        flag == is_flag(text@),
{
    text.unicode_len() >= 2 && text.get_char(0) == '-' && text.get_char(1) == '-'
}

/// Whether `c` is white space.
pub fn is_whitespace(c: char) -> (space: bool)
    ensures
        space == is_space(c),
{
    let code: u32 = c as u32;
    (0x09 <= code && code <= 0x0d) || code == 0x20 || code == 0x85 || code == 0xa0 || code
        == 0x1680 || (0x2000 <= code && code <= 0x200a) || code == 0x2028 || code == 0x2029
        || code == 0x202f || code == 0x205f || code == 0x3000
}

/// A run of digits is worth at least as much as any beginning of it.
proof fn lemma_value_grows(s: Seq<char>, k: int)
    requires
        0 <= k <= s.len(),
    ensures
        digits_value(s.take(k)) <= digits_value(s),
    decreases s.len() - k,
{
    if k == s.len() {
        assert(s.take(k) =~= s);
    } else {
        lemma_value_grows(s.drop_last(), k);
        assert(s.drop_last().take(k) =~= s.take(k));
    }
}

/// Reads the unsigned number that the characters of `text` from `from` up
/// to `to` spell; see [`parsed_unsigned`].
pub fn parse_unsigned_within(text: &str, from: usize, to: usize, max: u64) -> (number: Option<u64>)
    requires
        from <= to <= text@.len(),
    ensures
        match number {
            Some(n) => parsed_unsigned(text@.subrange(from as int, to as int), max as nat) == Some(
                n as nat,
            ),
            None => parsed_unsigned(text@.subrange(from as int, to as int), max as nat) is None,
        },
{
    let ghost whole: Seq<char> = text@.subrange(from as int, to as int);
    let mut start: usize = from;
    if from < to && text.get_char(from) == '+' {
        start = from + 1;
    }
    let ghost body: Seq<char> = unsigned_body(whole);
    assert(body =~= text@.subrange(start as int, to as int));
    if start == to {
        return None;
    }
    let mut value: u64 = 0;
    let mut i: usize = start;
    while i < to
        invariant
            from <= start <= i <= to,
            to <= text@.len(),
            whole == text@.subrange(from as int, to as int),
            body == unsigned_body(whole),
            body == text@.subrange(start as int, to as int),
            all_digits(body.take(i - start)),
            value == digits_value(body.take(i - start)),
            value <= max,
        decreases to - i,
    {
        let c: char = text.get_char(i);
        assert(body[i - start] == c);
        if !(c >= '0' && c <= '9') {
            return None;
        }
        let d: u64 = (c as u32 - '0' as u32) as u64;
        let next: u128 = (value as u128) * 10 + (d as u128);
        proof {
            let longer: Seq<char> = body.take(i - start + 1);
            assert(longer.drop_last() =~= body.take(i - start));
            assert(longer.last() == c);
            assert(digits_value(longer) == next);
            assert forall|j: int| 0 <= j < longer.len() implies is_digit(#[trigger] longer[j]) by {
                if j < i - start {
                    assert(body.take(i - start)[j] == longer[j]);
                }
            }
            lemma_value_grows(body, i - start + 1);
        }
        if next > max as u128 {
            return None;
        }
        value = next as u64;
        i = i + 1;
    }
    assert(body.take(to - start) =~= body);
    Some(value)
}

/// Reads the unsigned number that `text` spells; see [`parsed_unsigned`].
pub fn parse_unsigned(text: &str, max: u64) -> (number: Option<u64>)
    ensures
        match number {
            Some(n) => parsed_unsigned(text@, max as nat) == Some(n as nat),
            None => parsed_unsigned(text@, max as nat) is None,
        },
{
    let n: usize = text.unicode_len();
    assert(text@.subrange(0, n as int) =~= text@);
    parse_unsigned_within(text, 0, n, max)
}

/// Cutting white space from the beginning of a text is cutting it from
/// what is left once some of it is cut.
proof fn lemma_trim_start_skips(s: Seq<char>, k: int)
    requires
        0 <= k <= s.len(),
        forall|j: int| 0 <= j < k ==> is_space(#[trigger] s[j]),
    ensures
        trim_start(s) == trim_start(s.skip(k)),
    decreases k,
{
    if k == 0 {
        assert(s.skip(0) =~= s);
    } else {
        lemma_trim_start_skips(s.skip(1), k - 1);
        assert(s.skip(1).skip(k - 1) =~= s.skip(k));
    }
}

/// Cutting white space from the end of a text is cutting it from what is
/// left once some of it is cut.
proof fn lemma_trim_end_takes(s: Seq<char>, k: int)
    requires
        0 <= k <= s.len(),
        forall|j: int| k <= j < s.len() ==> is_space(#[trigger] s[j]),
    ensures
        trim_end(s) == trim_end(s.take(k)),
    decreases s.len() - k,
{
    if k == s.len() {
        assert(s.take(k) =~= s);
    } else {
        lemma_trim_end_takes(s.drop_last(), k);
        assert(s.drop_last().take(k) =~= s.take(k));
    }
}

/// Reads the unsigned number that `text` spells once the white space at
/// its two ends is set aside.
pub fn parse_trimmed_unsigned(text: &str, max: u64) -> (number: Option<u64>)
    ensures
        match number {
            Some(n) => parsed_unsigned(trimmed(text@), max as nat) == Some(n as nat),
            None => parsed_unsigned(trimmed(text@), max as nat) is None,
        },
{
    let n: usize = text.unicode_len();
    let mut lo: usize = 0;
    while lo < n && is_whitespace(text.get_char(lo))
        invariant
            lo <= n,
            n == text@.len(),
            forall|j: int| 0 <= j < lo ==> is_space(#[trigger] text@[j]),
        decreases n - lo,
    {
        lo = lo + 1;
    }
    let ghost front: Seq<char> = text@.skip(lo as int);
    proof {
        lemma_trim_start_skips(text@, lo as int);
        assert(trim_start(text@) == front);
    }
    let mut hi: usize = n;
    while hi > lo && is_whitespace(text.get_char(hi - 1))
        invariant
            lo <= hi <= n,
            n == text@.len(),
            front == text@.skip(lo as int),
            forall|j: int| hi - lo <= j < front.len() ==> is_space(#[trigger] front[j]),
        decreases hi,
    {
        hi = hi - 1;
    }
    proof {
        lemma_trim_end_takes(front, hi - lo);
        assert(front.take(hi - lo) =~= text@.subrange(lo as int, hi as int));
        let kept: Seq<char> = front.take(hi - lo);
        if kept.len() > 0 {
            assert(kept.last() == text@[hi - 1]);
        }
        assert(trim_end(kept) == kept);
    }
    parse_unsigned_within(text, lo, hi, max)
}

} // verus!
