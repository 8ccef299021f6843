//! The texts that values are written as in messages.

use vstd::prelude::*;

verus! {

/// The character of a decimal or hexadecimal digit.
pub open spec fn spec_digit(digit: int) -> char {
    seq!['0', '1', '2', '3', '4', '5', '6', '7', '8', '9', 'a', 'b', 'c', 'd', 'e', 'f'][digit]
}

/// A number in decimal, with no sign and no leading zero.
pub open spec fn spec_decimal(value: nat) -> Seq<char>
    decreases value,
{
    if value < 10 {
        seq![spec_digit(value as int)]
    } else {
        spec_decimal(value / 10) + seq![spec_digit((value % 10) as int)]
    }
}

/// Bytes in hexadecimal, two lower-case digits for each.
pub open spec fn spec_hex(bytes: Seq<u8>) -> Seq<char>
    decreases bytes.len(),
{
    if bytes.len() == 0 {
        Seq::empty()
    } else {
        spec_hex(bytes.drop_last()) + seq![
            spec_digit(bytes.last() as int / 16),
            spec_digit(bytes.last() as int % 16),
        ]
    }
}

/// Bytes in hexadecimal behind the prefix `0x`.
pub open spec fn spec_hex_prefixed(bytes: Seq<u8>) -> Seq<char> {
    seq!['0', 'x'] + spec_hex(bytes)
}

/// The number that four limbs of 64 bits stand for, the least significant
/// limb first.
pub open spec fn spec_limbs_value(limbs: Seq<u64>) -> nat {
    (limbs[0] as nat) + (limbs[1] as nat) * 0x1_0000_0000_0000_0000 + (limbs[2] as nat)
        * 0x1_0000_0000_0000_0000 * 0x1_0000_0000_0000_0000 + (limbs[3] as nat)
        * 0x1_0000_0000_0000_0000 * 0x1_0000_0000_0000_0000 * 0x1_0000_0000_0000_0000
}

/// The text that `std::path::Path` is written as by its `Debug` form.
pub uninterp spec fn debug_path(path: Seq<char>) -> Seq<char>;

/// The text of one decimal digit.
fn digit_text(digit: u64) -> (text: &'static str)
    requires
        digit < 10,
    ensures
        text@ == seq![spec_digit(digit as int)],
{
    proof {
        reveal_strlit("0");
        reveal_strlit("1");
        reveal_strlit("2");
        reveal_strlit("3");
        reveal_strlit("4");
        reveal_strlit("5");
        reveal_strlit("6");
        reveal_strlit("7");
        reveal_strlit("8");
        reveal_strlit("9");
    }
    match digit {
        0 => "0",
        1 => "1",
        2 => "2",
        3 => "3",
        4 => "4",
        5 => "5",
        6 => "6",
        7 => "7",
        8 => "8",
        _ => "9",
    }
}

/// Writes a number in decimal.
pub fn decimal(value: u64) -> (text: String)
    ensures
        text@ == spec_decimal(value as nat),
    decreases value,
{
    let mut text = if value >= 10 {
        decimal(value / 10)
    } else {
        String::new()
    };
    text.append(digit_text(value % 10));
    text
}

/// Calls `alloy::primitives::hex::encode_prefixed`, which writes `0x` and
/// then two lower-case hexadecimal digits for each byte, in order.
#[verifier::external_body]
pub(crate) fn encode_prefixed(bytes: &[u8]) -> (text: String)
    ensures
        text@ == spec_hex_prefixed(bytes@),
{
    alloy::primitives::hex::encode_prefixed(bytes)
}

/// Writes a number of 256 bits, given by its four limbs with the least
/// significant first, with the `Display` form of `alloy::primitives::U256`:
/// the number in decimal.
#[verifier::external_body]
pub(crate) fn limbs_decimal(limbs: [u64; 4]) -> (text: String)
    ensures
        text@ == spec_decimal(spec_limbs_value(limbs@)),
{
    alloy::primitives::U256::from_limbs(limbs).to_string()
}

/// Writes a path with the `Debug` form of `std::path::Path`: between double
/// quotes, with the characters escaped that the form escapes. The result is
/// what `debug_path` names.
#[verifier::external_body]
pub(crate) fn path_debug(path: &str) -> (text: String)
    ensures
        text@ == debug_path(path@),
{
    format!("{:?}", std::path::Path::new(path))
}

} // verus!
