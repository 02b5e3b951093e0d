use vstd::prelude::*;
use vstd::std_specs::iter::IteratorSpec;

verus! {

/// Whether a character is a decimal digit.
pub open spec fn is_digit(c: char) -> bool {
    '0' <= c && c <= '9'
}

/// Whether every character is a decimal digit.
pub open spec fn all_digits(text: Seq<char>) -> bool {
    forall|i: int| 0 <= i < text.len() ==> is_digit(#[trigger] text[i])
}

/// The number that a sequence of decimal digits writes.
pub open spec fn decimal_value(digits: Seq<char>) -> int
    decreases digits.len(),
{
    if digits.len() == 0 {
        0
    } else {
        10 * decimal_value(digits.drop_last()) + (digits.last() as int - '0' as int)
    }
}

/// How many characters the sign takes: one where the text starts with `+`
/// or `-`, else none.
pub open spec fn sign_length(text: Seq<char>) -> int {
    if text.len() > 0 && (text[0] == '+' || text[0] == '-') {
        1
    } else {
        0
    }
}

/// The identifier that a path segment writes, if it writes one: an optional
/// sign, then one or more decimal digits and nothing else, with a value
/// that an identifier can hold. Any other segment is a name.
pub open spec fn spec_parse_id(text: Seq<char>) -> Option<i32> {
    let digits = text.subrange(sign_length(text), text.len() as int);
    let value = if text.len() > 0 && text[0] == '-' {
        -decimal_value(digits)
    } else {
        decimal_value(digits)
    };
    if digits.len() > 0 && all_digits(digits) && i32::MIN <= value <= i32::MAX {
        Some(value as i32)
    } else {
        None
    }
}

/// Digits write no negative number.
proof fn lemma_value_not_negative(digits: Seq<char>)
    requires
        all_digits(digits),
    ensures
        0 <= decimal_value(digits),
    decreases digits.len(),
{
    if digits.len() > 0 {
        assert(is_digit(digits[digits.len() - 1]));
        lemma_value_not_negative(digits.drop_last());
    }
}

/// The first `k` digits of a number write no more than all of them.
proof fn lemma_value_grows(digits: Seq<char>, k: int)
    requires
        all_digits(digits),
        0 <= k <= digits.len(),
    ensures
        decimal_value(digits.take(k)) <= decimal_value(digits),
    decreases digits.len() - k,
{
    if k == digits.len() {
        assert(digits.take(k) == digits);
    } else {
        lemma_value_grows(digits, k + 1);
        let longer = digits.take(k + 1);
        assert(longer.drop_last() == digits.take(k));
        assert(is_digit(digits[k]));
        assert(longer.last() == digits[k]);
        assert(all_digits(digits.take(k))) by {
            assert forall|i: int| 0 <= i < digits.take(k).len() implies is_digit(
                #[trigger] digits.take(k)[i],
            ) by {
                assert(is_digit(digits[i]));
            }
        }
        lemma_value_not_negative(digits.take(k));
    }
}

/// The value of a decimal digit, or `None` for any other character.
fn digit_of(c: char) -> (digit: Option<i64>)
    ensures
        match digit {
            Some(value) => is_digit(c) && value == c as int - '0' as int,
            None => !is_digit(c),
        },
{
    if c == '0' {
        Some(0)
    } else if c == '1' {
        Some(1)
    } else if c == '2' {
        Some(2)
    } else if c == '3' {
        Some(3)
    } else if c == '4' {
        Some(4)
    } else if c == '5' {
        Some(5)
    } else if c == '6' {
        Some(6)
    } else if c == '7' {
        Some(7)
    } else if c == '8' {
        Some(8)
    } else if c == '9' {
        Some(9)
    } else {
        None
    }
}

/// Reads a path segment as an identifier: `None` where it is a name.
pub fn parse_id(text: &str) -> (id: Option<i32>)
    ensures
        id == spec_parse_id(text@),
{
    let mut chars = text.chars();
    let ghost start: int = sign_length(text@);
    let ghost mut read: int = 0;
    let mut negative: bool = false;
    let mut any: bool = false;
    let mut magnitude: i64 = 0;
    match chars.next() {
        None => {
            return None;
        },
        Some(c) => {
            assert(c == text@[0]);
            if c == '-' {
                negative = true;
            } else if c == '+' {
            } else {
                match digit_of(c) {
                    Some(value) => {
                        magnitude = value;
                        any = true;
                        proof {
                            let one = text@.subrange(0, 1);
                            assert(one.drop_last() == Seq::<char>::empty());
                            assert(decimal_value(one.drop_last()) == 0);
                            assert(one.last() == c);
                        }
                    },
                    None => {
                        proof {
                            let digits = text@.subrange(start, text@.len() as int);
                            assert(!is_digit(digits[0]));
                        }
                        return None;
                    },
                }
            }
            proof {
                read = 1;
            }
        },
    }
    loop
        invariant
            start == sign_length(text@),
            start <= read <= text@.len(),
            1 <= read,
            chars.decrease() is Some,
            chars.remaining() == text@.subrange(read, text@.len() as int),
            negative == (text@[0] == '-'),
            any == (read > start),
            all_digits(text@.subrange(start, read)),
            magnitude == decimal_value(text@.subrange(start, read)),
            0 <= magnitude <= 0x8000_0000,
        ensures
            read == text@.len(),
        decreases chars.decrease()->0,
    {
        match chars.next() {
            None => {
                break ;
            },
            Some(c) => {
                let ghost digits = text@.subrange(start, text@.len() as int);
                assert(c == text@[read]);
                let value: i64 = match digit_of(c) {
                    Some(value) => value,
                    None => {
                        proof {
                            assert(!is_digit(digits[read - start]));
                        }
                        return None;
                    },
                };
                let ghost prefix = text@.subrange(start, read + 1);
                proof {
                    assert(prefix.drop_last() == text@.subrange(start, read));
                    assert(prefix.last() == c);
                    assert forall|i: int| 0 <= i < prefix.len() implies is_digit(
                        #[trigger] prefix[i],
                    ) by {
                        if i < read - start {
                            assert(is_digit(text@.subrange(start, read)[i]));
                        }
                    }
                }
                magnitude = magnitude * 10 + value;
                if magnitude > 0x8000_0000 {
                    proof {
                        if all_digits(digits) {
                            lemma_value_grows(digits, read + 1 - start);
                            assert(digits.take(read + 1 - start) == prefix);
                        }
                    }
                    return None;
                }
                any = true;
                proof {
                    read = read + 1;
                    assert(chars.remaining() == text@.subrange(read, text@.len() as int));
                }
            },
        }
    }
    if !any {
        return None;
    }
    if negative {
        let value: i64 = -magnitude;
        Some(value as i32)
    } else if magnitude > 0x7fff_ffff {
        None
    } else {
        Some(magnitude as i32)
    }
}

} // verus!
