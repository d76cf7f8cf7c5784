//! Numbers as text.

use vstd::prelude::*;

verus! {

/// `String::push` of std appends one character to the end of the string.
pub assume_specification[ String::push ](text: &mut String, ch: char)
    ensures
        final(text)@ == old(text)@.push(ch),
;

/// `String::push_str` of std appends a string slice to the end of the
/// string.
pub assume_specification[ String::push_str ](text: &mut String, other: &str)
    ensures
        final(text)@ == old(text)@ + other@,
;

/// The character of the decimal digit `digit`.
pub open spec fn digit_char(digit: nat) -> char {
    (48 + digit) as char
}

/// The decimal digits of `value`, without leading zeros.
pub open spec fn decimal(value: nat) -> Seq<char>
    decreases value,
{
    if value < 10 {
        seq![digit_char(value)]
    } else {
        decimal(value / 10).push(digit_char(value % 10))
    }
}

/// Appends the decimal digits of `value` to `text`.
pub fn push_decimal(text: &mut String, value: u64)
    ensures
        final(text)@ == old(text)@ + decimal(value as nat),
{
    let mut digits: Vec<u8> = Vec::new();
    let mut rest: u64 = value;
    let ghost mut tail: Seq<char> = Seq::empty();
    while rest >= 10
        invariant
            decimal(value as nat) == decimal(rest as nat) + tail,
            digits@.len() == tail.len(),
            forall|i: int|
                0 <= i < digits@.len() ==> digits@[i] < 10 && tail[tail.len() - 1 - i]
                    == digit_char(#[trigger] digits@[i] as nat),
        decreases rest,
    {
        let digit: u8 = (rest % 10) as u8;
        proof {
            let grown = seq![digit_char(digit as nat)] + tail;
            assert(decimal(rest as nat) + tail =~= decimal((rest / 10) as nat) + grown);
            tail = grown;
        }
        digits.push(digit);
        rest = rest / 10;
    }
    text.push((48u8 + rest as u8) as char);
    let ghost front = old(text)@ + decimal(rest as nat);
    let mut i: usize = digits.len();
    while i > 0
        invariant
            i <= digits@.len(),
            digits@.len() == tail.len(),
            text@ == front + tail.take(tail.len() - i),
            forall|k: int|
                0 <= k < digits@.len() ==> digits@[k] < 10 && tail[tail.len() - 1 - k]
                    == digit_char(#[trigger] digits@[k] as nat),
        decreases i,
    {
        i -= 1;
        let digit: u8 = digits[i];
        text.push((48u8 + digit) as char);
        assert(tail.take(tail.len() - i) =~= tail.take(tail.len() - i - 1).push(
            tail[tail.len() - 1 - i],
        ));
    }
    assert(tail.take(tail.len() as int) =~= tail);
    assert(front + tail =~= old(text)@ + (decimal(rest as nat) + tail));
}

} // verus!
