//! Small text routines of the configuration: appending characters, reading
//! a port number and writing one in decimal.

use vstd::prelude::*;

verus! {

/// `String::push`: the character is appended.
#[verifier::external_body]
pub(crate) fn push_char(s: &mut String, c: char)
    ensures
        final(s)@ == old(s)@.push(c),
{
    s.push(c)
}

/// `c` is one of the digits `0` to `9`.
pub open spec fn is_decimal_digit(c: char) -> bool {
    48 <= (c as u32) <= 57
}

/// The number that the decimal digits `digits` write.
pub open spec fn decimal_value(digits: Seq<char>) -> int
    decreases digits.len(),
{
    if digits.len() == 0 {
        0
    } else {
        decimal_value(digits.drop_last()) * 10 + ((digits.last() as u32) - 48)
    }
}

/// `text` without the one leading `+` that an unsigned number may carry.
pub open spec fn unsigned_digits(text: Seq<char>) -> Seq<char> {
    if text.len() > 0 && text[0] == '+' {
        text.drop_first()
    } else {
        text
    }
}

/// The `u16` that `text` writes, as `str::parse::<u16>` reads it: an
/// optional `+`, then at least one decimal digit and nothing else, with a
/// value that fits; `None` for any other text.
pub open spec fn parsed_u16(text: Seq<char>) -> Option<u16> {
    let digits = unsigned_digits(text);
    if digits.len() > 0 && (forall|i: int| 0 <= i < digits.len() ==> is_decimal_digit(#[trigger] digits[i]))
        && decimal_value(digits) <= u16::MAX {
        Some(decimal_value(digits) as u16)
    } else {
        None
    }
}

/// The decimal digit that writes `d`, for `d` below ten.
pub open spec fn digit_char(d: nat) -> char {
    (d + 48) as char
}

/// `n` written in decimal, without leading zeros.
pub open spec fn decimal(n: nat) -> Seq<char>
    decreases n,
{
    if n < 10 {
        seq![digit_char(n)]
    } else {
        decimal(n / 10).push(digit_char(n % 10))
    }
}

/// Reads a `u16` as `str::parse::<u16>` does.
pub fn parse_u16(text: &str) -> (value: Option<u16>)
    ensures
        value == parsed_u16(text@),
{
    let mut value: u32 = 0;
    let mut too_large = false;
    let mut any_digit = false;
    let mut at_start = true;
    let ghost mut seen: Seq<char> = Seq::empty();
    for c in it: text.chars()
        invariant
            it.seq() == text@,
            seen == text@.subrange(0, it.index() as int),
            forall|i: int| 0 <= i < unsigned_digits(seen).len() ==> is_decimal_digit(#[trigger] unsigned_digits(seen)[i]),
            any_digit == (unsigned_digits(seen).len() > 0),
            too_large == (decimal_value(unsigned_digits(seen)) > u16::MAX),
            !too_large ==> value == decimal_value(unsigned_digits(seen)),
            value <= u16::MAX,
            at_start == (seen.len() == 0),
            decimal_value(unsigned_digits(seen)) >= 0,
    {
        let ghost prev = seen;
        proof {
            seen = seen.push(c);
            assert(seen =~= text@.subrange(0, it.index() + 1));
        }
        if at_start && c == '+' {
            proof {
                assert(unsigned_digits(seen) =~= Seq::<char>::empty());
            }
        } else {
            let code = c as u32;
            if code < 48 || code > 57 {
                proof {
                    assert(unsigned_digits(seen) =~= unsigned_digits(prev).push(c));
                    let k = unsigned_digits(seen).len() - 1;
                    assert(!is_decimal_digit(unsigned_digits(seen)[k]));
                    assert(seen[0] == text@[0]);
                    assert(unsigned_digits(text@)[k] == unsigned_digits(seen)[k]);
                }
                return None;
            }
            proof {
                assert(unsigned_digits(seen) =~= unsigned_digits(prev).push(c));
                assert(unsigned_digits(seen).drop_last() =~= unsigned_digits(prev));
            }
            if !too_large {
                let next = value * 10 + (code - 48);
                if next > 65535 {
                    too_large = true;
                } else {
                    value = next;
                }
            }
            any_digit = true;
        }
        at_start = false;
    }
    proof {
        assert(seen =~= text@);
    }
    if !any_digit || too_large {
        None
    } else {
        Some(value as u16)
    }
}

/// Appends `n` in decimal.
pub fn push_decimal(s: &mut String, n: u16)
    ensures
        final(s)@ == old(s)@ + decimal(n as nat),
    decreases n,
{
    if n >= 10 {
        push_decimal(s, n / 10);
    }
    let digit = (n % 10) as u8;
    push_char(s, (digit + 48) as char);
    proof {
        if n >= 10 {
            assert(decimal(n as nat) == decimal((n / 10) as nat).push(digit_char((n % 10) as nat)));
        }
    }
}

} // verus!
