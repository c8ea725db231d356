use vstd::prelude::*;

verus! {

/// The ten decimal digits, in order of their value.
pub open spec fn digits() -> Seq<char> {
    "0123456789"@
}

/// The decimal numeral of `n`: its digits from the most significant to the
/// least, without leading zeros (zero itself is the single digit of value 0).
pub open spec fn decimal(n: nat) -> Seq<char>
    decreases n,
{
    if n < 10 {
        seq![digits()[n as int]]
    } else {
        decimal(n / 10).push(digits()[(n % 10) as int])
    }
}

/// The decimal numeral of an integer of either sign: a minus sign goes before
/// the numeral of a negative number's magnitude.
pub open spec fn signed_decimal(i: int) -> Seq<char> {
    if i < 0 {
        "-"@ + decimal((-i) as nat)
    } else {
        decimal(i as nat)
    }
}

/// The number that a numeral stands for, read digit by digit: each digit
/// counts ten times as much as the digit after it.
pub open spec fn numeral_value(numeral: Seq<char>) -> int
    decreases numeral.len(),
{
    if numeral.len() == 0 {
        0
    } else {
        numeral_value(numeral.drop_last()) * 10 + (numeral.last() as int - '0' as int)
    }
}

/// The decimal numeral of a number stands for that number, and has no more
/// digits than it needs: it is made of digits only, it is not empty, and it
/// begins with the digit of value 0 only if the number is zero.
pub proof fn lemma_decimal_stands_for(n: nat)
    ensures
        numeral_value(decimal(n)) == n,
        decimal(n).len() > 0,
        forall|i: int| 0 <= i < decimal(n).len() ==> '0' <= #[trigger] decimal(n)[i] <= '9',
        decimal(n)[0] == '0' <==> n == 0,
    decreases n,
{
    reveal_strlit("0123456789");
    if n < 10 {
        assert(decimal(n).drop_last() =~= Seq::<char>::empty());
        assert(numeral_value(decimal(n).drop_last()) == 0);
    } else {
        lemma_decimal_stands_for(n / 10);
        assert(decimal(n).drop_last() =~= decimal(n / 10));
    }
}

/// Writes `n` as a decimal numeral.
pub fn decimal_string(n: u64) -> (text: String)
    ensures
        text@ == decimal(n as nat),
    decreases n,
{
    proof {
        reveal_strlit("0123456789");
    }
    let last: usize = (n % 10) as usize;
    let digit = "0123456789".substring_char(last, last + 1);
    assert(digit@ == seq![digits()[last as int]]);
    if n < 10 {
        String::from_str(digit)
    } else {
        decimal_string(n / 10).concat(digit)
    }
}

/// Writes `i` as a decimal numeral, with a minus sign if it is negative.
pub fn signed_decimal_string(i: i32) -> (text: String)
    ensures
        text@ == signed_decimal(i as int),
{
    if i < 0 {
        let magnitude: u64 = (-(i as i64)) as u64;
        String::from_str("-").concat(decimal_string(magnitude).as_str())
    } else {
        decimal_string(i as u64)
    }
}

/// The characters of `s`, one by one.
pub fn chars_of(s: &str) -> (chars: Vec<char>)
    ensures
        chars@ == s@,
{
    let mut chars: Vec<char> = Vec::new();
    for c in it: s.chars()
        invariant
            it.seq() == s@,
            chars@ == s@.take(it.index()),
    {
        chars.push(c);
    }
    chars
}

/// Whether `pattern` stands in `text` at index `at`.
pub fn matches_at(text: &Vec<char>, at: usize, pattern: &Vec<char>) -> (found: bool)
    ensures
        found == (at + pattern@.len() <= text@.len() && text@.subrange(
            at as int,
            at + pattern@.len(),
        ) == pattern@),
{
    if pattern.len() > text.len() || at > text.len() - pattern.len() {
        return false;
    }
    let ghost window = text@.subrange(at as int, at + pattern@.len());
    let mut i: usize = 0;
    while i < pattern.len()
        invariant
            at + pattern@.len() <= text@.len() <= usize::MAX,
            window == text@.subrange(at as int, at + pattern@.len()),
            i <= pattern@.len(),
            forall|j: int| 0 <= j < i ==> window[j] == pattern@[j],
        decreases pattern.len() - i,
    {
        if text[at + i] != pattern[i] {
            assert(window[i as int] != pattern@[i as int]);
            return false;
        }
        i = i + 1;
    }
    assert(window =~= pattern@);
    true
}

/// Whether `text` begins with `prefix`.
pub fn starts_with(text: &Vec<char>, prefix: &Vec<char>) -> (found: bool)
    ensures
        found == prefix@.is_prefix_of(text@),
{
    matches_at(text, 0, prefix)
}

/// Whether `text` ends with `suffix`.
pub fn ends_with(text: &Vec<char>, suffix: &Vec<char>) -> (found: bool)
    ensures
        found == suffix@.is_suffix_of(text@),
{
    suffix.len() <= text.len() && matches_at(text, text.len() - suffix.len(), suffix)
}

/// Whether `c` occurs in `text` at an index from `from` up to, but not
/// including, `to`.
pub fn has_char(text: &Vec<char>, from: usize, to: usize, c: char) -> (found: bool)
    ensures
        found == exists|i: int| from <= i < to && i < text@.len() && text@[i] == c,
{
    let end = if to < text.len() {
        to
    } else {
        text.len()
    };
    let mut i: usize = from;
    while i < end
        invariant
            from <= i,
            end <= to,
            end <= text@.len(),
            to < text@.len() ==> end == to,
            forall|j: int| from <= j < i && j < end ==> text@[j] != c,
        decreases end - i,
    {
        if text[i] == c {
            assert(from <= i < to && i < text@.len() && text@[i as int] == c);
            return true;
        }
        i = i + 1;
    }
    false
}

/// Whether `a` and `b` are the same text.
pub fn same_text(a: &str, b: &str) -> (same: bool)
    ensures
        same == (a@ == b@),
{
    let a_chars = chars_of(a);
    let b_chars = chars_of(b);
    assert(b_chars@.subrange(0, b_chars@.len() as int) == b_chars@);
    assert(a_chars@.subrange(0, a_chars@.len() as int) == a_chars@);
    a_chars.len() == b_chars.len() && matches_at(&a_chars, 0, &b_chars)
}

} // verus!
