//! Rendering of bytes and numbers as text.

use crate::bindings::hex_encode;
use vstd::prelude::*;

verus! {

/// The character that stands for a value below sixteen in lowercase hexadecimal.
pub open spec fn hex_digit(nibble: int) -> char {
    if nibble < 10 {
        ((48 + nibble) as u8) as char
    } else {
        ((87 + nibble) as u8) as char
    }
}

/// Lowercase hexadecimal: two characters for each byte, the high half first.
pub open spec fn hex_lower(bytes: Seq<u8>) -> Seq<char> {
    Seq::new(
        2 * bytes.len(),
        |i: int|
            if i % 2 == 0 {
                hex_digit(bytes[i / 2] as int / 16)
            } else {
                hex_digit(bytes[i / 2] as int % 16)
            },
    )
}

/// Whether `c` is a digit of lowercase hexadecimal: `0` to `9` or `a` to `f`.
pub open spec fn is_lower_hex(c: char) -> bool {
    ('0' <= c && c <= '9') || ('a' <= c && c <= 'f')
}

/// A rendering in lowercase hexadecimal holds nothing but its digits, two for
/// each byte.
pub proof fn lemma_hex_lower_digits(bytes: Seq<u8>)
    ensures
        hex_lower(bytes).len() == 2 * bytes.len(),
        forall|i: int| 0 <= i < hex_lower(bytes).len() ==> is_lower_hex(#[trigger] hex_lower(bytes)[i]),
{
    assert forall|i: int| 0 <= i < hex_lower(bytes).len() implies is_lower_hex(
        #[trigger] hex_lower(bytes)[i],
    ) by {
        let byte: int = bytes[i / 2] as int;
        assert(0 <= byte / 16 < 16 && 0 <= byte % 16 < 16);
    }
}

/// Renders `bytes` in lowercase hexadecimal.
pub fn hex_string(bytes: &[u8]) -> (text: String)
    ensures
        text@ == hex_lower(bytes@),
        text@.len() == 2 * bytes@.len(),
{
    hex_encode(bytes)
}

/// The character that stands for a value below ten.
pub open spec fn decimal_digit(value: int) -> char {
    ((48 + value) as u8) as char
}

/// The decimal numeral of `n`: no sign, no leading zero, `"0"` for zero.
pub open spec fn decimal(n: nat) -> Seq<char>
    decreases n,
{
    if n < 10 {
        seq![decimal_digit(n as int)]
    } else {
        decimal(n / 10).push(decimal_digit((n % 10) as int))
    }
}

/// The one-character string for a value below ten.
fn digit_str(value: u64) -> (digit: &'static str)
    requires
        value < 10,
    ensures
        digit@ == seq![decimal_digit(value as int)],
{
    proof {
        reveal_strlit("0");
        reveal_strlit("1");
        reveal_strlit("2");
        reveal_strlit("3");
        reveal_strlit("4");
        reveal_strlit("5");
        reveal_strlit("6");
        reveal_strlit("7");
        reveal_strlit("8");
        reveal_strlit("9");
    }
    let digit: &'static str = if value == 0 {
        "0"
    } else if value == 1 {
        "1"
    } else if value == 2 {
        "2"
    } else if value == 3 {
        "3"
    } else if value == 4 {
        "4"
    } else if value == 5 {
        "5"
    } else if value == 6 {
        "6"
    } else if value == 7 {
        "7"
    } else if value == 8 {
        "8"
    } else {
        "9"
    };
    assert(digit@ =~= seq![decimal_digit(value as int)]);
    digit
}

/// Renders `n` as a decimal numeral.
pub fn decimal_string(n: u64) -> (text: String)
    ensures
        text@ == decimal(n as nat),
    decreases n,
{
    if n < 10 {
        String::from_str(digit_str(n))
    } else {
        let mut text: String = decimal_string(n / 10);
        text.append(digit_str(n % 10));
        text
    }
}

/// A decimal numeral has at least one character.
pub proof fn lemma_decimal_nonempty(n: nat)
    ensures
        decimal(n).len() >= 1,
    decreases n,
{
    if n >= 10 {
        lemma_decimal_nonempty(n / 10);
    }
}

/// Different numbers have different decimal numerals.
pub proof fn lemma_decimal_injective(left: nat, right: nat)
    requires
        decimal(left) == decimal(right),
    ensures
        left == right,
    decreases left,
{
    if left < 10 && right < 10 {
        assert(decimal(left)[0] == decimal_digit(left as int));
        assert(decimal(right)[0] == decimal_digit(right as int));
    } else if left < 10 {
        lemma_decimal_nonempty(right / 10);
        assert(decimal(right).len() >= 2);
    } else if right < 10 {
        lemma_decimal_nonempty(left / 10);
        assert(decimal(left).len() >= 2);
    } else {
        let a = decimal(left / 10);
        let b = decimal(right / 10);
        assert(decimal(left).drop_last() =~= a);
        assert(decimal(right).drop_last() =~= b);
        assert(decimal(left).last() == decimal_digit((left % 10) as int));
        assert(decimal(right).last() == decimal_digit((right % 10) as int));
        lemma_decimal_injective(left / 10, right / 10);
    }
}

} // verus!
