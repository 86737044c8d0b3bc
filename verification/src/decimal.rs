//! Decimal notation: writing a number as digits and reading digits back.

use vstd::prelude::*;
use vstd::string::*;
use vstd::utf8::is_ascii_chars;

verus! {

/// The byte of the digit zero.
pub const ASCII_ZERO: u8 = 48;

/// The byte of the digit nine.
pub const ASCII_NINE: u8 = 57;

/// One of the ten ASCII digits.
pub open spec fn is_digit(c: char) -> bool {
    '0' <= c <= '9'
}

/// The number a digit stands for.
pub open spec fn digit_value(c: char) -> nat {
    (c as u32 - '0' as u32) as nat
}

/// The digit that stands for a number below ten.
pub open spec fn digit_char(d: nat) -> char {
    if d == 0 {
        '0'
    } else if d == 1 {
        '1'
    } else if d == 2 {
        '2'
    } else if d == 3 {
        '3'
    } else if d == 4 {
        '4'
    } else if d == 5 {
        '5'
    } else if d == 6 {
        '6'
    } else if d == 7 {
        '7'
    } else if d == 8 {
        '8'
    } else {
        '9'
    }
}

/// Every character is a digit.
pub open spec fn all_digits(s: Seq<char>) -> bool {
    forall|i: int| 0 <= i < s.len() ==> is_digit(#[trigger] s[i])
}

/// The number that a run of digits denotes, most significant digit first.
pub open spec fn digits_value(s: Seq<char>) -> nat
    decreases s.len(),
{
    if s.len() == 0 {
        0
    } else {
        10 * digits_value(s.drop_last()) + digit_value(s.last())
    }
}

/// The shortest decimal notation of a number.
pub open spec fn decimal(n: nat) -> Seq<char>
    decreases n,
{
    if n < 10 {
        seq![digit_char(n)]
    } else {
        decimal(n / 10).push(digit_char(n % 10))
    }
}

/// Reading the decimal notation of a number gives the number back.
pub proof fn lemma_decimal_round_trip(n: nat)
    ensures
        decimal(n).len() >= 1,
        all_digits(decimal(n)),
        digits_value(decimal(n)) == n,
    decreases n,
{
    if n < 10 {
        let s = decimal(n);
        assert(s.drop_last().len() == 0);
        assert(digits_value(s.drop_last()) == 0);
        assert(s.last() == digit_char(n));
    } else {
        lemma_decimal_round_trip(n / 10);
        let s = decimal(n);
        assert(s.drop_last() == decimal(n / 10));
        assert(s.last() == digit_char(n % 10));
        assert forall|i: int| 0 <= i < s.len() implies is_digit(#[trigger] s[i]) by {
            if i < s.len() - 1 {
                assert(s[i] == decimal(n / 10)[i]);
            }
        }
    }
}

/// The text of a single digit.
fn digit_text(d: usize) -> (text: &'static str)
    requires
        d < 10,
    ensures
        text@ == seq![digit_char(d as nat)],
{
    proof {
        reveal_strlit("0");
        reveal_strlit("1");
        reveal_strlit("2");
        reveal_strlit("3");
        reveal_strlit("4");
        reveal_strlit("5");
        reveal_strlit("6");
        reveal_strlit("7");
        reveal_strlit("8");
        reveal_strlit("9");
    }
    if d == 0 {
        "0"
    } else if d == 1 {
        "1"
    } else if d == 2 {
        "2"
    } else if d == 3 {
        "3"
    } else if d == 4 {
        "4"
    } else if d == 5 {
        "5"
    } else if d == 6 {
        "6"
    } else if d == 7 {
        "7"
    } else if d == 8 {
        "8"
    } else {
        "9"
    }
}

/// Writes a number in decimal notation.
pub fn decimal_text(n: usize) -> (text: String)
    ensures
        text@ == decimal(n as nat),
    decreases n,
{
    if n < 10 {
        String::from_str(digit_text(n))
    } else {
        let mut text = decimal_text(n / 10);
        text.append(digit_text(n % 10));
        text
    }
}

/// What a text is when read as a decimal number no greater than a limit.
#[derive(Clone, Copy, Debug, PartialEq, Eq)]
pub enum DecimalReading {
    /// The text is empty or holds something other than digits.
    NotDecimal,
    /// The text is a number above the limit.
    AboveLimit,
    /// The text is this number.
    Value(usize),
}

/// The reading of a text as a decimal number no greater than `limit`.
pub open spec fn decimal_reading(s: Seq<char>, limit: usize) -> DecimalReading {
    if s.len() == 0 || !all_digits(s) {
        DecimalReading::NotDecimal
    } else if digits_value(s) > limit {
        DecimalReading::AboveLimit
    } else {
        DecimalReading::Value(digits_value(s) as usize)
    }
}

/// Reads a text as a decimal number no greater than `limit`. Leading zeros
/// are accepted; a sign is not.
pub fn read_decimal(text: &str, limit: usize) -> (reading: DecimalReading)
    ensures
        reading == decimal_reading(text@, limit),
{
    if !text.is_ascii() {
        proof {
            let i = choose|i: int| 0 <= i < text@.len() && !('\0' <= #[trigger] text@[i] <= '\u{7f}');
            assert(!is_digit(text@[i]));
        }
        return DecimalReading::NotDecimal;
    }
    let bytes = text.as_bytes();
    proof {
        is_ascii_spec_bytes(text);
        assert(bytes@.len() == text@.len());
    }
    if bytes.len() == 0 {
        return DecimalReading::NotDecimal;
    }
    let mut value: u128 = 0;
    let mut above: bool = false;
    let mut i: usize = 0;
    while i < bytes.len()
        invariant
            i <= bytes@.len(),
            bytes@.len() == text@.len(),
            forall|k: int| 0 <= k < text@.len() ==> bytes@[k] == #[trigger] text@[k] as u8,
            is_ascii_chars(text@),
            all_digits(text@.take(i as int)),
            above ==> digits_value(text@.take(i as int)) > limit,
            !above ==> value == digits_value(text@.take(i as int)) && value <= limit,
        decreases bytes@.len() - i,
    {
        let byte = bytes[i];
        proof {
            let c = text@[i as int];
            assert(byte == c as u8);
            assert('\0' <= c <= '\u{7f}');
            let longer = text@.take(i + 1);
            assert(longer.drop_last() == text@.take(i as int));
            assert(longer.last() == c);
        }
        if byte < ASCII_ZERO || byte > ASCII_NINE {
            proof {
                assert(!is_digit(text@[i as int]));
            }
            return DecimalReading::NotDecimal;
        }
        proof {
            let longer = text@.take(i + 1);
            assert forall|k: int| 0 <= k < longer.len() implies is_digit(#[trigger] longer[k]) by {
                if k < i {
                    assert(longer[k] == text@.take(i as int)[k]);
                }
            }
        }
        if !above {
            let next: u128 = 10 * value + (byte - ASCII_ZERO) as u128;
            if next > limit as u128 {
                above = true;
            } else {
                value = next;
            }
        }
        i += 1;
    }
    proof {
        assert(text@.take(i as int) == text@);
    }
    if above {
        DecimalReading::AboveLimit
    } else {
        DecimalReading::Value(value as usize)
    }
}

} // verus!
