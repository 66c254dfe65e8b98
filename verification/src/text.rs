//! Text that is built character by character.

use vstd::prelude::*;

verus! {

/// `String::push` appends the given character to the end of the string.
pub assume_specification[ String::push ](string: &mut String, ch: char)
    ensures
        final(string)@ == old(string)@.push(ch),
;

/// The digit, from `0` to `9` and from `A` to `F`, that stands for a number
/// below sixteen.
pub open spec fn hex_digit(n: nat) -> char {
    if n < 10 {
        (0x30 + n) as char
    } else {
        (0x37 + n) as char
    }
}

/// A number in upper case hexadecimal digits, without leading zeros.
pub open spec fn hex(n: nat) -> Seq<char>
    decreases n,
{
    if n < 16 {
        seq![hex_digit(n)]
    } else {
        hex(n / 16).push(hex_digit(n % 16))
    }
}

/// Appends a number in upper case hexadecimal digits.
pub fn push_hex(text: &mut String, n: u32)
    ensures
        final(text)@ == old(text)@ + hex(n as nat),
    decreases n,
{
    if n >= 16 {
        push_hex(text, n / 16);
    }
    let digit: u8 = (n % 16) as u8;
    let ch: char = if digit < 10 { (0x30 + digit) as char } else { (0x37 + digit) as char };
    text.push(ch);
}

/// Different numbers have different digits.
pub proof fn law_hex_is_injective(a: nat, b: nat)
    requires
        hex(a) == hex(b),
    ensures
        a == b,
    decreases a,
{
    lemma_hex_length(a);
    lemma_hex_length(b);
    assert(hex(a).last() == hex_digit(a % 16));
    assert(hex(b).last() == hex_digit(b % 16));
    if a >= 16 && b >= 16 {
        assert(hex(a).drop_last() =~= hex(a / 16));
        assert(hex(b).drop_last() =~= hex(b / 16));
        law_hex_is_injective(a / 16, b / 16);
    }
}

/// A number has one digit exactly if it is below sixteen.
proof fn lemma_hex_length(n: nat)
    ensures
        hex(n).len() >= 1,
        hex(n).len() == 1 <==> n < 16,
    decreases n,
{
    if n >= 16 {
        lemma_hex_length(n / 16);
    }
}

/// The last digit of a number is its remainder by sixteen, from `0` to `9` and
/// from `A` to `F`; the digits before it are those of the quotient, and there
/// are none before it if the number is below sixteen.
pub proof fn law_hex_digits(n: nat)
    ensures
        n % 16 < 10 ==> hex(n).last() as int == '0' as int + n % 16,
        n % 16 >= 10 ==> hex(n).last() as int == 'A' as int + n % 16 - 10,
        n < 16 ==> hex(n).len() == 1,
        n >= 16 ==> hex(n).len() == hex(n / 16).len() + 1 && hex(n).drop_last() == hex(n / 16),
{
    if n >= 16 {
        assert(hex(n).drop_last() =~= hex(n / 16));
    }
}

} // verus!
