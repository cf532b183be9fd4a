//! Decimal rendering and fixed-width padding of identifiers.

use vstd::prelude::*;
use vstd::string::StringExecFns;
use vstd::string::StrSliceExecFns;

verus! {

/// The character that writes the digit `d`.
pub open spec fn digit_char(d: int) -> char {
    if d == 0 {
        '0'
    } else if d == 1 {
        '1'
    } else if d == 2 {
        '2'
    } else if d == 3 {
        '3'
    } else if d == 4 {
        '4'
    } else if d == 5 {
        '5'
    } else if d == 6 {
        '6'
    } else if d == 7 {
        '7'
    } else if d == 8 {
        '8'
    } else {
        '9'
    }
}

/// The decimal digits of `n`, most significant first, without leading zeros.
pub open spec fn nat_digits(n: nat) -> Seq<char>
    decreases n,
{
    if n < 10 {
        seq![digit_char(n as int)]
    } else {
        nat_digits(n / 10).push(digit_char((n % 10) as int))
    }
}

/// The decimal text of an integer: a minus sign for a negative one, then the
/// digits of its magnitude.
pub open spec fn decimal_text(i: int) -> Seq<char> {
    if i < 0 {
        seq!['-'] + nat_digits((-i) as nat)
    } else {
        nat_digits(i as nat)
    }
}

/// `text` right-aligned in a field of `width` characters, filled with zeros on
/// the left; a text that is already as long is left as it is.
pub open spec fn zero_padded(text: Seq<char>, width: nat) -> Seq<char> {
    if text.len() >= width {
        text
    } else {
        Seq::new((width - text.len()) as nat, |i: int| '0') + text
    }
}

fn digit_str(d: u64) -> (r: &'static str)
    requires
        d < 10,
    ensures
        r@ == seq![digit_char(d as int)],
{
    proof {
        reveal_strlit("0");
        reveal_strlit("1");
        reveal_strlit("2");
        reveal_strlit("3");
        reveal_strlit("4");
        reveal_strlit("5");
        reveal_strlit("6");
        reveal_strlit("7");
        reveal_strlit("8");
        reveal_strlit("9");
    }
    let r = if d == 0 {
        "0"
    } else if d == 1 {
        "1"
    } else if d == 2 {
        "2"
    } else if d == 3 {
        "3"
    } else if d == 4 {
        "4"
    } else if d == 5 {
        "5"
    } else if d == 6 {
        "6"
    } else if d == 7 {
        "7"
    } else if d == 8 {
        "8"
    } else {
        "9"
    };
    assert(r@ =~= seq![digit_char(d as int)]);
    r
}

fn push_digits(n: u64, out: &mut String)
    ensures
        final(out)@ == old(out)@ + nat_digits(n as nat),
    decreases n,
{
    if n >= 10 {
        push_digits(n / 10, out);
    }
    out.append(digit_str(n % 10));
    assert(final(out)@ =~= old(out)@ + nat_digits(n as nat));
}

/// Writes an integer in decimal.
pub fn decimal(i: i64) -> (r: String)
    ensures
        r@ == decimal_text(i as int),
{
    let mut out = String::new();
    if i < 0 {
        proof {
            reveal_strlit("-");
        }
        out.append("-");
        let magnitude: u64 = (-(i as i128)) as u64;
        push_digits(magnitude, &mut out);
        assert(out@ =~= decimal_text(i as int));
    } else {
        push_digits(i as u64, &mut out);
        assert(out@ =~= decimal_text(i as int));
    }
    out
}

/// Pads `text` with zeros on the left to `width` characters.
pub fn pad_zeros(text: &str, width: usize) -> (r: String)
    ensures
        r@ == zero_padded(text@, width as nat),
{
    let len = text.unicode_len();
    let mut out = String::new();
    let mut n: usize = len;
    proof {
        reveal_strlit("0");
    }
    while n < width
        invariant
            len <= n,
            n <= width || n == len,
            out@ == Seq::new((n - len) as nat, |i: int| '0'),
            "0"@ == seq!['0'],
        decreases width - n,
    {
        out.append("0");
        n = n + 1;
        assert(out@ =~= Seq::new((n - len) as nat, |i: int| '0'));
    }
    out.append(text);
    assert(out@ =~= zero_padded(text@, width as nat));
    out
}

/// Whether a character is one of the ten decimal digits.
pub open spec fn is_digit(c: char) -> bool {
    '0' <= c <= '9'
}

/// The number that a run of decimal digits writes; zero for the empty run.
pub open spec fn digits_value(digits: Seq<char>) -> int
    decreases digits.len(),
{
    if digits.len() == 0 {
        0
    } else {
        digits_value(digits.drop_last()) * 10 + (digits.last() as int - '0' as int)
    }
}

/// The whole number that a text writes: an optional `+` or `-`, then one or
/// more decimal digits and nothing else.
pub open spec fn whole_number(text: Seq<char>) -> Option<int> {
    let signed = text.len() > 0 && (text[0] == '-' || text[0] == '+');
    let digits = if signed {
        text.drop_first()
    } else {
        text
    };
    if digits.len() == 0 || exists|i: int| 0 <= i < digits.len() && !is_digit(#[trigger] digits[i]) {
        None
    } else if signed && text[0] == '-' {
        Some(-digits_value(digits))
    } else {
        Some(digits_value(digits))
    }
}

/// The `i32` that a text writes, if it writes a whole number in range.
pub open spec fn i32_from_str(text: Seq<char>) -> Option<i32> {
    match whole_number(text) {
        Some(value) => if i32::MIN <= value <= i32::MAX {
            Some(value as i32)
        } else {
            None
        },
        None => None,
    }
}

/// The `i64` that a text writes, if it writes a whole number in range.
pub open spec fn i64_from_str(text: Seq<char>) -> Option<i64> {
    match whole_number(text) {
        Some(value) => if i64::MIN <= value <= i64::MAX {
            Some(value as i64)
        } else {
            None
        },
        None => None,
    }
}

/// The digits of a number are digits, at least one, and write that number.
pub proof fn lemma_nat_digits(n: nat)
    ensures
        nat_digits(n).len() > 0,
        forall|i: int| 0 <= i < nat_digits(n).len() ==> is_digit(#[trigger] nat_digits(n)[i]),
        digits_value(nat_digits(n)) == n,
    decreases n,
{
    if n < 10 {
        let digits = nat_digits(n);
        assert(digits.drop_last() =~= Seq::<char>::empty());
        assert(digits_value(digits.drop_last()) == 0);
    } else {
        lemma_nat_digits(n / 10);
        let front = nat_digits(n / 10);
        let last = digit_char((n % 10) as int);
        assert(front.push(last).drop_last() =~= front);
        assert(front.push(last).last() == last);
    }
}

/// What `decimal` writes reads back as the number it wrote.
pub proof fn lemma_decimal_reads_back(value: int)
    ensures
        whole_number(decimal_text(value)) == Some(value),
{
    if value < 0 {
        let digits = nat_digits((-value) as nat);
        lemma_nat_digits((-value) as nat);
        assert(decimal_text(value).drop_first() =~= digits);
    } else {
        let digits = nat_digits(value as nat);
        lemma_nat_digits(value as nat);
        assert(is_digit(digits[0]));
    }
}

/// Whether `pattern` occurs in `text` as a run of consecutive characters.
pub open spec fn has_infix(text: Seq<char>, pattern: Seq<char>) -> bool {
    exists|start: int|
        0 <= start && start + pattern.len() <= text.len() && #[trigger] text.subrange(
            start,
            start + pattern.len(),
        ) == pattern
}

/// The text of an optional string.
pub open spec fn opt_text(text: Option<String>) -> Option<Seq<char>> {
    match text {
        Some(s) => Some(s@),
        None => None,
    }
}

/// Calls `str::parse::<i32>`. Claimed: the call accepts an optional sign
/// followed by decimal digits and nothing else, and gives the number they
/// write unless it lies outside the range of `i32`.
#[verifier::external_body]
pub(crate) fn parse_i32(text: &str) -> (r: Option<i32>)
    ensures
        r == i32_from_str(text@),
{
    match text.parse::<i32>() {
        Ok(value) => Some(value),
        Err(_) => None,
    }
}

/// Calls `str::parse::<i64>`. Claimed: as for `i32`, with the range of
/// `i64`.
#[verifier::external_body]
pub(crate) fn parse_i64(text: &str) -> (r: Option<i64>)
    ensures
        r == i64_from_str(text@),
{
    match text.parse::<i64>() {
        Ok(value) => Some(value),
        Err(_) => None,
    }
}

/// Calls `str::contains` with a string pattern. Claimed: the call finds the
/// pattern exactly where it occurs as a run of consecutive characters.
#[verifier::external_body]
pub(crate) fn contains(text: &str, pattern: &str) -> (r: bool)
    ensures
        r == has_infix(text@, pattern@),
{
    text.contains(pattern)
}

/// Whether two texts are the same.
pub fn same_text(a: &str, b: &str) -> (r: bool)
    ensures
        r == (a@ == b@),
{
    a.to_owned() == b.to_owned()
}

/// A copy of an optional string.
pub fn copy_opt(text: &Option<String>) -> (r: Option<String>)
    ensures
        opt_text(r) == opt_text(*text),
{
    match text {
        Some(s) => Some(s.clone()),
        None => None,
    }
}

} // verus!
