//! Bytes as text: two hexadecimal digits after `0x`, or eight binary digits.
use vstd::prelude::*;
use vstd::string::StringExecFns;

verus! {

/// The digit for a value below 16, in lower case.
pub open spec fn spec_hex_digit(n: u8) -> Seq<char> {
    match n {
        0 => "0"@,
        1 => "1"@,
        2 => "2"@,
        3 => "3"@,
        4 => "4"@,
        5 => "5"@,
        6 => "6"@,
        7 => "7"@,
        8 => "8"@,
        9 => "9"@,
        10 => "a"@,
        11 => "b"@,
        12 => "c"@,
        13 => "d"@,
        14 => "e"@,
        _ => "f"@,
    }
}

fn hex_digit(n: u8) -> (digit: &'static str)
    requires
        n < 16,
    ensures
        digit@ == spec_hex_digit(n),
{
    match n {
        0 => "0",
        1 => "1",
        2 => "2",
        3 => "3",
        4 => "4",
        5 => "5",
        6 => "6",
        7 => "7",
        8 => "8",
        9 => "9",
        10 => "a",
        11 => "b",
        12 => "c",
        13 => "d",
        14 => "e",
        _ => "f",
    }
}

/// A byte in hexadecimal: `0x`, then the digit for its upper half, then the
/// digit for its lower half.
pub open spec fn spec_hex(value: u8) -> Seq<char> {
    "0x"@ + spec_hex_digit(value / 16) + spec_hex_digit(value % 16)
}

pub fn hex(value: u8) -> (text: String)
    ensures
        text@ == spec_hex(value),
{
    let mut text = String::from_str("0x");
    text.append(hex_digit(value / 16));
    text.append(hex_digit(value % 16));
    text
}

/// The hexadecimal digits of a number, without leading zeros; zero is `0`.
pub open spec fn spec_hex_digits(value: nat) -> Seq<char>
    decreases value,
{
    if value < 16 {
        spec_hex_digit(value as u8)
    } else {
        spec_hex_digits(value / 16) + spec_hex_digit((value % 16) as u8)
    }
}

fn hex_digits(value: usize) -> (text: String)
    ensures
        text@ == spec_hex_digits(value as nat),
    decreases value,
{
    if value < 16 {
        String::from_str(hex_digit(value as u8))
    } else {
        let mut text = hex_digits(value / 16);
        text.append(hex_digit((value % 16) as u8));
        text
    }
}

/// An address in hexadecimal: `0x`, then its digits, two of them at least.
pub open spec fn spec_hex_address(value: nat) -> Seq<char> {
    if value < 16 {
        "0x0"@ + spec_hex_digits(value)
    } else {
        "0x"@ + spec_hex_digits(value)
    }
}

pub fn hex_address(value: usize) -> (text: String)
    ensures
        text@ == spec_hex_address(value as nat),
{
    let mut text = if value < 16 {
        String::from_str("0x0")
    } else {
        String::from_str("0x")
    };
    text.append(hex_digits(value).as_str());
    text
}

/// The decimal digits of a number, without leading zeros; zero is `0`.
pub open spec fn spec_decimal(value: nat) -> Seq<char>
    decreases value,
{
    if value < 10 {
        spec_hex_digit(value as u8)
    } else {
        spec_decimal(value / 10) + spec_hex_digit((value % 10) as u8)
    }
}

pub fn decimal(value: usize) -> (text: String)
    ensures
        text@ == spec_decimal(value as nat),
    decreases value,
{
    if value < 10 {
        String::from_str(hex_digit(value as u8))
    } else {
        let mut text = decimal(value / 10);
        text.append(hex_digit((value % 10) as u8));
        text
    }
}

/// Bytes in hexadecimal, a blank before each.
pub open spec fn spec_hex_bytes(bytes: Seq<u8>) -> Seq<char>
    decreases bytes.len(),
{
    if bytes.len() == 0 {
        Seq::empty()
    } else {
        spec_hex_bytes(bytes.drop_last()) + " "@ + spec_hex(bytes.last())
    }
}

pub fn hex_bytes(bytes: &[u8]) -> (text: String)
    ensures
        text@ == spec_hex_bytes(bytes@),
{
    let mut text = String::new();
    let mut i: usize = 0;
    while i < bytes.len()
        invariant
            i <= bytes@.len(),
            text@ == spec_hex_bytes(bytes@.subrange(0, i as int)),
        decreases bytes@.len() - i,
    {
        proof {
            let next = bytes@.subrange(0, i + 1);
            assert(next.drop_last() =~= bytes@.subrange(0, i as int));
            assert(next.last() == bytes@[i as int]);
        }
        text.append(" ");
        text.append(hex(bytes[i]).as_str());
        i += 1;
    }
    proof {
        assert(bytes@.subrange(0, bytes@.len() as int) =~= bytes@);
    }
    text
}

/// A dump of bytes in hexadecimal, sixteen to a line: a blank after each
/// byte, but a line feed after every sixteenth.
pub open spec fn spec_hex_dump(bytes: Seq<u8>) -> Seq<char>
    decreases bytes.len(),
{
    if bytes.len() == 0 {
        Seq::empty()
    } else {
        spec_hex_dump(bytes.drop_last()) + spec_hex(bytes.last()) + (if bytes.len() % 16 == 0 {
            "\n"@
        } else {
            " "@
        })
    }
}

pub fn hex_dump(bytes: &[u8]) -> (text: String)
    ensures
        text@ == spec_hex_dump(bytes@),
{
    let mut text = String::new();
    let mut i: usize = 0;
    while i < bytes.len()
        invariant
            i <= bytes@.len(),
            text@ == spec_hex_dump(bytes@.subrange(0, i as int)),
        decreases bytes@.len() - i,
    {
        proof {
            let next = bytes@.subrange(0, i + 1);
            assert(next.drop_last() =~= bytes@.subrange(0, i as int));
            assert(next.last() == bytes@[i as int]);
        }
        text.append(hex(bytes[i]).as_str());
        if i % 16 == 15 {
            text.append("\n");
        } else {
            text.append(" ");
        }
        i += 1;
    }
    proof {
        assert(bytes@.subrange(0, bytes@.len() as int) =~= bytes@);
    }
    text
}

/// The digit for one bit of a byte; bit 7 is the leftmost.
pub open spec fn spec_bit(value: u8, n: u8) -> Seq<char> {
    if (value >> n) & 1 == 1 {
        "1"@
    } else {
        "0"@
    }
}

fn bit(value: u8, n: u8) -> (digit: &'static str)
    requires
        n < 8,
    ensures
        digit@ == spec_bit(value, n),
{
    if (value >> n) & 1 == 1 {
        "1"
    } else {
        "0"
    }
}

/// A byte in binary: its eight bits, bit 7 first.
pub open spec fn spec_binary(value: u8) -> Seq<char> {
    spec_bit(value, 7) + spec_bit(value, 6) + spec_bit(value, 5) + spec_bit(value, 4) + spec_bit(
        value,
        3,
    ) + spec_bit(value, 2) + spec_bit(value, 1) + spec_bit(value, 0)
}

pub fn binary(value: u8) -> (text: String)
    ensures
        text@ == spec_binary(value),
{
    let mut text = String::from_str(bit(value, 7));
    text.append(bit(value, 6));
    text.append(bit(value, 5));
    text.append(bit(value, 4));
    text.append(bit(value, 3));
    text.append(bit(value, 2));
    text.append(bit(value, 1));
    text.append(bit(value, 0));
    text
}

} // verus!
