//! Decimal numbers and character sequences in text.

use vstd::prelude::*;

verus! {

/// The characters of an optional text.
pub open spec fn optional_text(text: Option<String>) -> Option<Seq<char>> {
    match text {
        Some(text) => Some(text@),
        None => None,
    }
}

/// The character of a decimal digit.
pub open spec fn digit_char(digit: nat) -> char {
    (48 + digit) as char
}

/// Whether a character is one of `0` to `9`.
pub open spec fn is_digit(c: char) -> bool {
    48 <= c as nat <= 57
}

/// The decimal numeral of a natural number, without leading zeros.
pub open spec fn decimal(n: nat) -> Seq<char>
    decreases n,
{
    if n < 10 {
        seq![digit_char(n)]
    } else {
        decimal(n / 10).push(digit_char(n % 10))
    }
}

/// The decimal numeral of an integer, with a leading `-` where it is negative.
pub open spec fn signed_decimal(n: int) -> Seq<char> {
    if n < 0 {
        seq!['-'] + decimal((-n) as nat)
    } else {
        decimal(n as nat)
    }
}

/// The number that a sequence of decimal digits writes.
pub open spec fn digits_value(digits: Seq<char>) -> nat
    decreases digits.len(),
{
    if digits.len() == 0 {
        0
    } else {
        digits_value(digits.drop_last()) * 10 + (digits.last() as nat - 48) as nat
    }
}

/// Whether a sequence is one or more decimal digits and nothing else.
pub open spec fn is_digits(s: Seq<char>) -> bool {
    s.len() > 0 && forall|i: int| 0 <= i < s.len() ==> is_digit(#[trigger] s[i])
}

/// A sequence without the `+` that it may start with.
pub open spec fn without_plus(s: Seq<char>) -> Seq<char> {
    if s.len() > 0 && s[0] == '+' {
        s.skip(1)
    } else {
        s
    }
}

/// The unsigned 64-bit number that a text writes: an optional `+`, then one or
/// more digits and nothing else, with a value that fits.
pub open spec fn unsigned_value(s: Seq<char>) -> Option<u64> {
    let digits = without_plus(s);
    if is_digits(digits) && digits_value(digits) <= u64::MAX {
        Some(digits_value(digits) as u64)
    } else {
        None
    }
}

/// Dropping digits from the end of a number never makes it larger.
proof fn lemma_digits_value_grows(digits: Seq<char>, k: int)
    requires
        0 <= k <= digits.len(),
    ensures
        digits_value(digits.take(k)) <= digits_value(digits),
    decreases digits.len() - k,
{
    if k == digits.len() {
        assert(digits.take(k) =~= digits);
    } else {
        lemma_digits_value_grows(digits, k + 1);
        assert(digits.take(k + 1).drop_last() =~= digits.take(k));
    }
}

/// A decimal numeral reads back as the number it was written from.
pub proof fn decimal_reads_back(n: nat)
    ensures
        is_digits(decimal(n)),
        digits_value(decimal(n)) == n,
    decreases n,
{
    if n < 10 {
        assert(decimal(n).drop_last() =~= Seq::<char>::empty());
        assert(digits_value(Seq::<char>::empty()) == 0);
    } else {
        decimal_reads_back(n / 10);
        let front = decimal(n / 10);
        assert(decimal(n).drop_last() =~= front);
        assert forall|i: int| 0 <= i < decimal(n).len() implies is_digit(
            #[trigger] decimal(n)[i],
        ) by {
            if i < front.len() {
                assert(decimal(n)[i] == front[i]);
            }
        }
    }
}

/// The characters of a string, in order.
pub fn chars_of(s: &str) -> (chars: Vec<char>)
    ensures
        chars@ == s@,
{
    let mut chars: Vec<char> = Vec::new();
    for c in it: s.chars()
        invariant
            chars@ == it.seq().take(it.index() as int),
            it.seq() == s@,
    {
        chars.push(c);
    }
    chars
}

/// The value of a decimal digit.
fn digit_of(c: char) -> (digit: Option<u64>)
    ensures
        digit == if is_digit(c) {
            Some((c as nat - 48) as u64)
        } else {
            None
        },
{
    let code: u32 = c as u32;
    if code < 48 || code > 57 {
        None
    } else {
        Some((code - 48) as u64)
    }
}

/// The unsigned number that a text writes, where it writes one that fits.
pub fn parse_unsigned(s: &str) -> (value: Option<u64>)
    ensures
        value == unsigned_value(s@),
{
    let chars = chars_of(s);
    let start: usize = if chars.len() > 0 && chars[0] == '+' {
        1
    } else {
        0
    };
    let ghost digits = without_plus(s@);
    assert(digits =~= s@.skip(start as int));
    if start == chars.len() {
        return None;
    }
    let mut value: u64 = 0;
    let mut i: usize = start;
    while i < chars.len()
        invariant
            start <= i <= chars.len(),
            start <= 1,
            chars@ == s@,
            digits == s@.skip(start as int),
            digits == without_plus(s@),
            forall|k: int| 0 <= k < i - start ==> is_digit(#[trigger] digits[k]),
            value == digits_value(digits.take(i - start)),
        decreases chars.len() - i,
    {
        let c = chars[i];
        assert(c == digits[i - start]);
        let digit: u64 = match digit_of(c) {
            Some(digit) => digit,
            None => {
                assert(!is_digit(digits[i - start]));
                return None;
            },
        };
        assert(digits.take(i + 1 - start).drop_last() =~= digits.take(i - start));
        assert(digits_value(digits.take(i + 1 - start)) == value * 10 + digit);
        proof {
            lemma_digits_value_grows(digits, i + 1 - start);
        }
        if value > (u64::MAX - digit) / 10 {
            return None;
        }
        value = value * 10 + digit;
        i = i + 1;
    }
    assert(digits.take(i - start) =~= digits);
    Some(value)
}

/// Appends one decimal digit to a text.
fn push_digit(out: &mut String, digit: u64)
    requires
        digit < 10,
    ensures
        final(out)@ == old(out)@.push(digit_char(digit as nat)),
{
    proof {
        reveal_strlit("0");
        reveal_strlit("1");
        reveal_strlit("2");
        reveal_strlit("3");
        reveal_strlit("4");
        reveal_strlit("5");
        reveal_strlit("6");
        reveal_strlit("7");
        reveal_strlit("8");
        reveal_strlit("9");
    }
    let text = match digit {
        0 => "0",
        1 => "1",
        2 => "2",
        3 => "3",
        4 => "4",
        5 => "5",
        6 => "6",
        7 => "7",
        8 => "8",
        _ => "9",
    };
    assert(text@ =~= seq![digit_char(digit as nat)]);
    out.append(text);
}

/// Appends the decimal numeral of a number to a text.
pub fn push_decimal(out: &mut String, n: u64)
    ensures
        final(out)@ == old(out)@ + decimal(n as nat),
    decreases n,
{
    if n >= 10 {
        push_decimal(out, n / 10);
    }
    push_digit(out, n % 10);
}

/// Appends the decimal numeral of a signed number to a text.
pub fn push_signed_decimal(out: &mut String, n: i64)
    ensures
        final(out)@ == old(out)@ + signed_decimal(n as int),
{
    if n < 0 {
        proof {
            reveal_strlit("-");
        }
        out.append("-");
        push_decimal(out, (-(n as i128)) as u64);
    } else {
        push_decimal(out, n as u64);
    }
}

/// An optional text is viewed as it is: it is there exactly where the text is, with the
/// text's characters.
pub proof fn optional_text_keeps_the_text(text: Option<String>)
    ensures
        text is None <==> optional_text(text) is None,
        text matches Some(inner) ==> optional_text(text) == Some(inner@),
{
}

/// A numeral is written digit by digit: a number below ten is its digit, and writing one
/// digit more multiplies by ten and adds it.
pub proof fn decimal_is_written_digit_by_digit(n: nat, digit: nat)
    requires
        digit < 10,
    ensures
        decimal(digit) == "0123456789"@.subrange(digit as int, digit as int + 1),
        n > 0 ==> decimal(n * 10 + digit) == decimal(n) + decimal(digit),
{
    reveal_strlit("0123456789");
    assert(decimal(digit) =~= "0123456789"@.subrange(digit as int, digit as int + 1));
    if n > 0 {
        assert((n * 10 + digit) / 10 == n);
        assert((n * 10 + digit) % 10 == digit);
        assert(decimal(n * 10 + digit) =~= decimal(n) + decimal(digit));
    }
}

/// The numeral of a negative number is a minus sign and the numeral of its opposite; that of
/// any other number has no sign.
pub proof fn signed_decimal_has_a_sign_where_negative(n: nat)
    ensures
        signed_decimal(n as int) == decimal(n),
        n > 0 ==> signed_decimal(-n) == "-"@ + decimal(n),
{
    reveal_strlit("-");
    assert("-"@ =~= seq!['-']);
}

/// A text is read as a number character by character: nothing is read of no characters; the
/// first digit, with or without a plus sign before it, is the number that it writes; each
/// digit more multiplies by ten and adds it, as long as the number fits in 64 bits; and a
/// text that has stopped being a number does not become one again.
pub proof fn numbers_are_read_digit_by_digit(text: Seq<char>, next: char)
    ensures
        ({
            let read = unsigned_value(text.push(next));
            let digit = next as int - '0' as int;
            &&& unsigned_value(Seq::empty()) is None
            &&& !('0' <= next <= '9') ==> read is None
            &&& '0' <= next <= '9' && (text.len() == 0 || text == seq!['+']) ==> read == Some(
                digit as u64,
            )
            &&& '0' <= next <= '9' && (unsigned_value(text) matches Some(value) && value * 10
                + digit <= u64::MAX) ==> read == Some(
                (unsigned_value(text)->0 * 10 + digit) as u64,
            )
            &&& (unsigned_value(text) matches Some(value) && value * 10 + digit > u64::MAX)
                ==> read is None
            &&& unsigned_value(text) is None && text.len() > 0 && text != seq!['+'] ==> read is None
        }),
{
    let whole = text.push(next);
    let digits = without_plus(whole);
    if text.len() == 0 {
        assert(whole =~= seq![next]);
        if next == '+' {
            assert(digits =~= Seq::<char>::empty());
        } else {
            assert(digits =~= seq![next]);
            assert(digits.drop_last() =~= Seq::<char>::empty());
            assert(digits_value(Seq::<char>::empty()) == 0);
            assert(is_digit(digits[0]) <==> '0' <= next <= '9');
        }
    } else {
        let before = without_plus(text);
        assert(digits =~= before.push(next));
        assert(digits.drop_last() =~= before);
        assert(digits.last() == next);
        assert forall|i: int| 0 <= i < before.len() implies digits[i] == #[trigger] before[i] by {}
        if is_digits(digits) {
            assert forall|i: int| 0 <= i < before.len() implies is_digit(#[trigger] before[i]) by {
                assert(is_digit(digits[i]));
            }
            assert(is_digit(digits[before.len() as int]));
        }
        if before.len() == 0 {
            assert(text =~= seq!['+']);
            assert(digits_value(before) == 0);
        }
        if text == seq!['+'] {
            assert(before =~= Seq::<char>::empty());
            assert(digits_value(Seq::<char>::empty()) == 0);
        }
        if is_digits(before) && '0' <= next <= '9' {
            assert forall|i: int| 0 <= i < digits.len() implies is_digit(#[trigger] digits[i]) by {
                if i < before.len() {
                    assert(is_digit(before[i]));
                }
            }
        }
    }
}

} // verus!
