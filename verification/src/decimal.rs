//! Unsigned decimal numbers as text: reading one from bytes, and writing
//! one out.

use vstd::prelude::*;
use vstd::string::*;

verus! {

/// Whether `byte` is an ASCII digit.
pub open spec fn is_digit(byte: u8) -> bool {
    48 <= byte <= 57
}

/// Whether `text` consists of ASCII digits alone.
pub open spec fn all_digits(text: Seq<u8>) -> bool {
    forall|i: int| 0 <= i < text.len() ==> is_digit(#[trigger] text[i])
}

/// The number that the digits of `text` spell in base ten.
pub open spec fn digits_value(text: Seq<u8>) -> nat
    decreases text.len(),
{
    if text.len() == 0 {
        0
    } else {
        digits_value(text.drop_last()) * 10 + (text.last() - 48) as nat
    }
}

/// The digits of `text` once an optional leading plus sign is set aside.
pub open spec fn unsigned_digits(text: Seq<u8>) -> Seq<u8> {
    if text.len() > 0 && text[0] == 43 {
        text.drop_first()
    } else {
        text
    }
}

/// The number that `text` denotes: an optional plus sign, then one or more
/// digits whose value fits in 32 bits. Any other text denotes none.
pub open spec fn parse_u32_spec(text: Seq<u8>) -> Option<u32> {
    let digits = unsigned_digits(text);
    if digits.len() > 0 && all_digits(digits) && digits_value(digits) <= u32::MAX {
        Some(digits_value(digits) as u32)
    } else {
        None
    }
}

/// Digits only add to the value: a prefix spells no more than the whole.
proof fn lemma_prefix_value(text: Seq<u8>, k: int)
    requires
        0 <= k <= text.len(),
        all_digits(text),
    ensures
        digits_value(text.take(k)) <= digits_value(text),
    decreases text.len() - k,
{
    if k < text.len() {
        lemma_prefix_value(text, k + 1);
        assert(text.take(k + 1).drop_last() =~= text.take(k));
    } else {
        assert(text.take(k) =~= text);
    }
}

/// Reads the number that the bytes of `text` from `from` up to `to` denote.
pub fn parse_u32(text: &[u8], from: usize, to: usize) -> (number: Option<u32>)
    requires
        from <= to <= text.len(),
    ensures
        number == parse_u32_spec(text@.subrange(from as int, to as int)),
{
    let ghost whole = text@.subrange(from as int, to as int);
    let start: usize = if from < to && text[from] == 43 {
        from + 1
    } else {
        from
    };
    let ghost digits = unsigned_digits(whole);
    if start == to {
        return None;
    }
    let mut value: u64 = 0;
    let mut i: usize = start;
    while i < to
        invariant
            start <= i <= to <= text.len(),
            digits == text@.subrange(start as int, to as int),
            digits == unsigned_digits(text@.subrange(from as int, to as int)),
            digits.len() > 0,
            all_digits(digits.take(i - start)),
            value == digits_value(digits.take(i - start)),
            value <= u32::MAX,
        decreases to - i,
    {
        let byte = text[i];
        if byte < 48 || byte > 57 {
            assert(!is_digit(digits[i - start]));
            return None;
        }
        assert(digits.take(i - start + 1).drop_last() =~= digits.take(i - start));
        assert(all_digits(digits.take(i - start + 1)));
        value = value * 10 + (byte - 48) as u64;
        if value > u32::MAX as u64 {
            proof {
                if all_digits(digits) {
                    lemma_prefix_value(digits, i - start + 1);
                }
            }
            return None;
        }
        i += 1;
    }
    assert(digits.take(to - start) =~= digits);
    Some(value as u32)
}

/// The character that writes the digit `digit`.
pub open spec fn digit_char(digit: nat) -> char {
    if digit == 0 {
        '0'
    } else if digit == 1 {
        '1'
    } else if digit == 2 {
        '2'
    } else if digit == 3 {
        '3'
    } else if digit == 4 {
        '4'
    } else if digit == 5 {
        '5'
    } else if digit == 6 {
        '6'
    } else if digit == 7 {
        '7'
    } else if digit == 8 {
        '8'
    } else {
        '9'
    }
}

/// `number` written in base ten, without sign or leading zeros.
pub open spec fn decimal_text(number: nat) -> Seq<char>
    decreases number,
{
    if number < 10 {
        seq![digit_char(number)]
    } else {
        decimal_text(number / 10).push(digit_char(number % 10))
    }
}

/// The text of the single digit `digit`.
fn digit_text(digit: u32) -> (text: &'static str)
    requires
        digit < 10,
    ensures
        text@ == seq![digit_char(digit as nat)],
{
    proof {
        reveal_strlit("0");
        reveal_strlit("1");
        reveal_strlit("2");
        reveal_strlit("3");
        reveal_strlit("4");
        reveal_strlit("5");
        reveal_strlit("6");
        reveal_strlit("7");
        reveal_strlit("8");
        reveal_strlit("9");
    }
    match digit {
        0 => "0",
        1 => "1",
        2 => "2",
        3 => "3",
        4 => "4",
        5 => "5",
        6 => "6",
        7 => "7",
        8 => "8",
        _ => "9",
    }
}

/// Writes `number` in base ten.
pub fn render_u32(number: u32) -> (text: String)
    ensures
        text@ == decimal_text(number as nat),
    decreases number,
{
    if number < 10 {
        String::from_str(digit_text(number))
    } else {
        render_u32(number / 10).concat(digit_text(number % 10))
    }
}

} // verus!
