//! Decimal notation for integers: writing an integer as text and reading it
//! back.
//!
//! The feed carries its timestamps and numeric tags as plain decimal numbers.
//! [`decimal_text`] defines the notation, [`decimal_value`] the reading of it,
//! and the two are shown to be inverse to each other.

use vstd::prelude::*;
use vstd::string::StringExecFns;
use vstd::string::StringSliceAdditionalSpecFns;

verus! {

/// The byte of the digit zero.
const ASCII_ZERO: u8 = 48;

/// The byte of the digit nine.
const ASCII_NINE: u8 = 57;

/// The byte of the minus sign.
const ASCII_MINUS: u8 = 45;

/// The character that stands for the digit `d`.
pub open spec fn digit_char(d: int) -> char {
    if d == 0 {
        '0'
    } else if d == 1 {
        '1'
    } else if d == 2 {
        '2'
    } else if d == 3 {
        '3'
    } else if d == 4 {
        '4'
    } else if d == 5 {
        '5'
    } else if d == 6 {
        '6'
    } else if d == 7 {
        '7'
    } else if d == 8 {
        '8'
    } else {
        '9'
    }
}

/// Whether `c` is one of the ten decimal digits.
pub open spec fn is_digit(c: char) -> bool {
    '0' <= c <= '9'
}

/// The digit that `c` stands for.
pub open spec fn digit_value(c: char) -> int
    recommends
        is_digit(c),
{
    c as int - '0' as int
}

/// The digits of `n`, most significant first, without leading zeros.
pub open spec fn digits(n: nat) -> Seq<char>
    decreases n,
{
    if n < 10 {
        seq![digit_char(n as int)]
    } else {
        digits(n / 10).push(digit_char((n % 10) as int))
    }
}

/// The decimal notation of `n`: a minus sign for a negative number, then the
/// digits of its magnitude.
pub open spec fn decimal_text(n: int) -> Seq<char> {
    if n < 0 {
        seq!['-'] + digits((-n) as nat)
    } else {
        digits(n as nat)
    }
}

/// Whether every character of `s` is a digit.
pub open spec fn all_digits(s: Seq<char>) -> bool {
    forall|i: int| 0 <= i < s.len() ==> is_digit(#[trigger] s[i])
}

/// Whether `s` is a digit string as [`digits`] writes it: not empty, and
/// starting with a zero only when it is the single digit zero.
pub open spec fn is_plain_number(s: Seq<char>) -> bool {
    &&& s.len() > 0
    &&& all_digits(s)
    &&& s.len() > 1 ==> s[0] != '0'
}

/// The number that a digit string denotes.
pub open spec fn digits_value(s: Seq<char>) -> nat
    decreases s.len(),
{
    if s.len() == 0 {
        0
    } else {
        (digits_value(s.drop_last()) * 10 + digit_value(s.last())) as nat
    }
}

/// The integer that `s` denotes, if `s` is the decimal notation of one.
///
/// Only the notation of [`decimal_text`] is read: no plus sign, no leading
/// zeros, no negative zero.
pub open spec fn decimal_value(s: Seq<char>) -> Option<int> {
    if is_plain_number(s) {
        Some(digits_value(s) as int)
    } else if s.len() > 1 && s[0] == '-' && is_plain_number(s.skip(1)) && s[1] != '0' {
        Some(-(digits_value(s.skip(1)) as int))
    } else {
        None
    }
}

/// What reading `s` as a 64-bit signed integer gives.
pub open spec fn decimal_i64(s: Seq<char>) -> Option<i64> {
    match decimal_value(s) {
        Some(v) => if i64::MIN <= v <= i64::MAX {
            Some(v as i64)
        } else {
            None
        },
        None => None,
    }
}

/// What reading `s` as a 32-bit signed integer gives.
pub open spec fn decimal_i32(s: Seq<char>) -> Option<i32> {
    match decimal_value(s) {
        Some(v) => if i32::MIN <= v <= i32::MAX {
            Some(v as i32)
        } else {
            None
        },
        None => None,
    }
}

/// A digit character is a digit and stands for the digit it was made from.
pub proof fn lemma_digit_char(d: int)
    requires
        0 <= d < 10,
    ensures
        is_digit(digit_char(d)),
        digit_value(digit_char(d)) == d,
        (digit_char(d) == '0') == (d == 0),
{
}

/// The digits of a number form a plain number that denotes it.
pub proof fn lemma_digits_round_trip(n: nat)
    ensures
        is_plain_number(digits(n)),
        digits_value(digits(n)) == n,
        (digits(n)[0] == '0') == (n == 0),
    decreases n,
{
    if n < 10 {
        lemma_digit_char(n as int);
        let s = digits(n);
        assert(s.drop_last() =~= Seq::<char>::empty());
        assert(digits_value(s.drop_last()) == 0);
    } else {
        lemma_digits_round_trip(n / 10);
        lemma_digit_char((n % 10) as int);
        let head = digits(n / 10);
        let s = digits(n);
        assert(s.drop_last() =~= head);
        assert(s.last() == digit_char((n % 10) as int));
        assert(s[0] == head[0]);
        assert forall|i: int| 0 <= i < s.len() implies is_digit(#[trigger] s[i]) by {
            if i < head.len() {
                assert(s[i] == head[i]);
            }
        }
    }
}

/// A plain number is the digit string of the number it denotes.
pub proof fn lemma_plain_number_is_digits(s: Seq<char>)
    requires
        is_plain_number(s),
    ensures
        digits(digits_value(s)) == s,
        (digits_value(s) == 0) == (s[0] == '0'),
    decreases s.len(),
{
    let last = digit_value(s.last());
    assert(is_digit(s.last()));
    assert(0 <= last < 10);
    assert(digit_char(last) == s.last());
    if s.len() == 1 {
        assert(s.drop_last() =~= Seq::<char>::empty());
        assert(digits_value(s.drop_last()) == 0);
        assert(digits_value(s) == last);
        assert(digits(last as nat) =~= s);
    } else {
        let head = s.drop_last();
        assert(head[0] == s[0]);
        assert forall|i: int| 0 <= i < head.len() implies is_digit(#[trigger] head[i]) by {
            assert(head[i] == s[i]);
        }
        assert(is_plain_number(head)) by {
            if head.len() == 1 {
            }
        }
        lemma_plain_number_is_digits(head);
        let high = digits_value(head);
        assert(high > 0);
        let n = digits_value(s);
        assert(n == high * 10 + last);
        assert(n >= 10);
        assert(n / 10 == high);
        assert(n % 10 == last);
        assert(digits(n) =~= s);
    }
}

/// Reading the decimal notation of an integer gives that integer back.
pub proof fn lemma_decimal_round_trip(n: int)
    ensures
        decimal_value(decimal_text(n)) == Some(n),
{
    if n < 0 {
        let m = (-n) as nat;
        lemma_digits_round_trip(m);
        let s = decimal_text(n);
        assert(s.skip(1) =~= digits(m));
        assert(s[0] == '-');
        assert(!is_digit(s[0]));
        assert(s[1] == digits(m)[0]);
    } else {
        lemma_digits_round_trip(n as nat);
    }
}

/// Text that reads as an integer is the decimal notation of that integer.
pub proof fn law_decimal_value_is_text(s: Seq<char>)
    requires
        decimal_value(s) is Some,
    ensures
        decimal_text(decimal_value(s)->0) == s,
{
    if is_plain_number(s) {
        lemma_plain_number_is_digits(s);
    } else {
        let body = s.skip(1);
        lemma_plain_number_is_digits(body);
        assert(body[0] == s[1]);
        assert(digits_value(body) > 0);
        assert(seq!['-'] + body =~= s);
    }
}

/// Two integers with the same decimal notation are the same integer.
pub proof fn lemma_decimal_text_injective(a: int, b: int)
    requires
        decimal_text(a) == decimal_text(b),
    ensures
        a == b,
{
    lemma_decimal_round_trip(a);
    lemma_decimal_round_trip(b);
}

/// A longer digit string denotes at least what its beginning denotes.
pub proof fn lemma_digits_value_monotonic(s: Seq<char>, k: int)
    requires
        all_digits(s),
        0 <= k <= s.len(),
    ensures
        digits_value(s.take(k)) <= digits_value(s),
    decreases s.len() - k,
{
    if k == s.len() {
        assert(s.take(k) =~= s);
    } else {
        lemma_digits_value_monotonic(s, k + 1);
        let longer = s.take(k + 1);
        assert(longer.drop_last() =~= s.take(k));
        assert(is_digit(s[k]));
        assert(longer.last() == s[k]);
    }
}

/// Tells whether `c` is one of the ten decimal digits.
pub fn is_decimal_digit(c: char) -> (digit: bool)
    ensures
        digit == is_digit(c),
{
    '0' <= c && c <= '9'
}

/// The text of a single decimal digit.
fn digit_str(d: u64) -> (text: &'static str)
    requires
        d < 10,
    ensures
        text@ == seq![digit_char(d as int)],
{
    proof {
        reveal_strlit("0");
        reveal_strlit("1");
        reveal_strlit("2");
        reveal_strlit("3");
        reveal_strlit("4");
        reveal_strlit("5");
        reveal_strlit("6");
        reveal_strlit("7");
        reveal_strlit("8");
        reveal_strlit("9");
    }
    let text = if d == 0 {
        "0"
    } else if d == 1 {
        "1"
    } else if d == 2 {
        "2"
    } else if d == 3 {
        "3"
    } else if d == 4 {
        "4"
    } else if d == 5 {
        "5"
    } else if d == 6 {
        "6"
    } else if d == 7 {
        "7"
    } else if d == 8 {
        "8"
    } else {
        "9"
    };
    assert(text@ =~= seq![digit_char(d as int)]);
    text
}

/// Appends the digits of `n` to `out`.
fn push_digits(out: &mut String, n: u64)
    ensures
        final(out)@ == old(out)@ + digits(n as nat),
    decreases n,
{
    if n >= 10 {
        push_digits(out, n / 10);
    }
    out.append(digit_str(n % 10));
    proof {
        if n >= 10 {
            assert(old(out)@ + digits((n / 10) as nat) + seq![digit_char((n % 10) as int)]
                =~= old(out)@ + digits(n as nat));
        } else {
            assert(old(out)@ + seq![digit_char((n % 10) as int)] =~= old(out)@ + digits(n as nat));
        }
    }
}

/// Writes an unsigned integer in decimal notation.
pub fn decimal_string_u64(n: u64) -> (text: String)
    ensures
        text@ == decimal_text(n as int),
{
    let mut text = String::new();
    push_digits(&mut text, n);
    assert(Seq::<char>::empty() + digits(n as nat) =~= digits(n as nat));
    text
}

/// Writes a signed integer in decimal notation.
pub fn decimal_string(n: i64) -> (text: String)
    ensures
        text@ == decimal_text(n as int),
{
    if n < 0 {
        let magnitude: u64 = ((-(n + 1)) as u64) + 1;
        assert(magnitude as int == -(n as int));
        let mut text = String::from_str("-");
        proof {
            reveal_strlit("-");
            assert("-"@ =~= seq!['-']);
        }
        push_digits(&mut text, magnitude);
        text
    } else {
        decimal_string_u64(n as u64)
    }
}

/// Reads a digit string of `text`, from position `start` to its end, as a
/// number no greater than `limit`.
fn parse_digits(text: &str, start: usize, limit: u64) -> (value: Option<u64>)
    requires
        text.is_ascii(),
        start <= text@.len(),
        0x7fff_ffff_ffff_ffff <= limit <= 0x8000_0000_0000_0000,
    ensures
        value == (if is_plain_number(text@.skip(start as int)) && digits_value(
            text@.skip(start as int),
        ) <= limit {
            Some(digits_value(text@.skip(start as int)) as u64)
        } else {
            None
        }),
{
    broadcast use vstd::string::is_ascii_spec_bytes;

    let ghost body = text@.skip(start as int);
    let bytes = text.as_bytes();
    let len: usize = bytes.len();
    assert(len == text@.len());
    if start >= len {
        return None;
    }
    let first: u8 = bytes[start];
    assert(body[0] == text@[start as int]);
    if first == ASCII_ZERO && len - start > 1 {
        return None;
    }
    let mut acc: u64 = 0;
    let mut i: usize = start;
    assert(body.take(0) =~= Seq::<char>::empty());
    while i < len
        invariant
            text.is_ascii(),
            len == text@.len(),
            start <= i <= len,
            start < len,
            body == text@.skip(start as int),
            bytes@ == text.spec_bytes(),
            0x7fff_ffff_ffff_ffff <= limit <= 0x8000_0000_0000_0000,
            acc <= limit,
            acc == digits_value(body.take(i - start)),
            all_digits(body.take(i - start)),
        decreases len - i,
    {
        let byte: u8 = bytes[i];
        let ghost c = text@[i as int];
        assert(body[i - start] == c);
        assert(c as u8 == byte);
        assert(c as u32 <= 0x7f) by {
            vstd::utf8::is_ascii_chars_nat_bound(text@);
        }
        if byte < ASCII_ZERO || byte > ASCII_NINE {
            assert(!is_digit(c));
            return None;
        }
        assert(is_digit(c));
        let d: u64 = (byte - ASCII_ZERO) as u64;
        assert(d == digit_value(c));
        let ghost longer = body.take(i - start + 1);
        assert(longer.drop_last() =~= body.take(i - start));
        assert(longer.last() == c);
        assert(digits_value(longer) == acc * 10 + d);
        assert forall|k: int| 0 <= k < longer.len() implies is_digit(#[trigger] longer[k]) by {
            if k < i - start {
                assert(longer[k] == body.take(i - start)[k]);
            }
        }
        if acc > (limit - d) / 10 {
            proof {
                assert(acc * 10 + d > limit);
                if is_plain_number(body) {
                    lemma_digits_value_monotonic(body, i - start + 1);
                }
            }
            return None;
        }
        acc = acc * 10 + d;
        i += 1;
    }
    assert(body.take(len - start) =~= body);
    Some(acc)
}

/// Reads a 64-bit signed integer from its decimal notation.
///
/// The result is `None` when `text` is not the notation of an integer, or
/// when the integer does not fit.
pub fn parse_i64(text: &str) -> (value: Option<i64>)
    ensures
        value == decimal_i64(text@),
{
    broadcast use vstd::string::is_ascii_spec_bytes;

    if !text.is_ascii() {
        proof {
            if decimal_value(text@) is Some {
                lemma_number_is_ascii(text@);
            }
        }
        return None;
    }
    let bytes = text.as_bytes();
    let len: usize = bytes.len();
    assert(len == text@.len());
    if len == 0 {
        return None;
    }
    let first: u8 = bytes[0];
    assert(text@[0] as u8 == first);
    assert(text@[0] as u32 <= 0x7f) by {
        vstd::utf8::is_ascii_chars_nat_bound(text@);
    }
    if first == ASCII_MINUS {
        assert(text@[0] == '-');
        assert(!is_plain_number(text@));
        if len < 2 {
            return None;
        }
        let second: u8 = bytes[1];
        assert(text@[1] as u8 == second);
        assert(text@[1] as u32 <= 0x7f) by {
            vstd::utf8::is_ascii_chars_nat_bound(text@);
        }
        if second == ASCII_ZERO {
            return None;
        }
        assert(text@[1] != '0');
        match parse_digits(text, 1, 0x8000_0000_0000_0000) {
            Some(magnitude) => {
                if magnitude == 0x8000_0000_0000_0000 {
                    Some(i64::MIN)
                } else {
                    Some(-(magnitude as i64))
                }
            },
            None => None,
        }
    } else {
        assert(text@[0] != '-');
        assert(text@.skip(0) =~= text@);
        match parse_digits(text, 0, 0x7fff_ffff_ffff_ffff) {
            Some(magnitude) => Some(magnitude as i64),
            None => None,
        }
    }
}

/// Reads a 32-bit signed integer from its decimal notation.
pub fn parse_i32(text: &str) -> (value: Option<i32>)
    ensures
        value == decimal_i32(text@),
{
    match parse_i64(text) {
        Some(v) => {
            if v < i32::MIN as i64 || v > i32::MAX as i64 {
                None
            } else {
                Some(v as i32)
            }
        },
        None => None,
    }
}

/// Text that reads as an integer holds ASCII characters only.
pub proof fn lemma_number_is_ascii(s: Seq<char>)
    requires
        decimal_value(s) is Some,
    ensures
        vstd::utf8::is_ascii_chars(s),
{
    if is_plain_number(s) {
        assert forall|i: int| 0 <= i < s.len() implies '\0' <= #[trigger] s[i] <= '\u{7f}' by {
            assert(is_digit(s[i]));
        }
    } else {
        let body = s.skip(1);
        assert forall|i: int| 0 <= i < s.len() implies '\0' <= #[trigger] s[i] <= '\u{7f}' by {
            if i > 0 {
                assert(body[i - 1] == s[i]);
                assert(is_digit(body[i - 1]));
            }
        }
    }
}

} // verus!
