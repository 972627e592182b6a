//! Colours as red, green and blue bytes, and their `#RRGGBB` notation.

use vstd::prelude::*;
use vstd::string::*;

verus! {

/// An opaque colour: one byte each of red, green and blue.
#[derive(Clone, Copy, Debug, PartialEq, Eq, Structural)]
pub struct Rgb {
    pub red: u8,
    pub green: u8,
    pub blue: u8,
}

/// The sixteen hexadecimal digits, upper case, in order of value.
pub open spec fn hex_digits() -> Seq<char> {
    seq!['0', '1', '2', '3', '4', '5', '6', '7', '8', '9', 'A', 'B', 'C', 'D', 'E', 'F']
}

/// The two upper-case hexadecimal digits of a byte, high nibble first.
pub open spec fn hex_pair(byte: u8) -> Seq<char> {
    seq![hex_digits()[byte as int / 16], hex_digits()[byte as int % 16]]
}

/// The `#RRGGBB` notation of a colour: a pound sign and six upper-case
/// hexadecimal digits.
pub open spec fn hex_code(color: Rgb) -> Seq<char> {
    seq!['#'] + hex_pair(color.red) + hex_pair(color.green) + hex_pair(color.blue)
}

/// The decimal notation of a number, without leading zeros.
pub open spec fn decimal(value: nat) -> Seq<char>
    decreases value,
{
    if value < 10 {
        seq![hex_digits()[value as int]]
    } else {
        decimal(value / 10).push(hex_digits()[(value % 10) as int])
    }
}

/// The line that shows a colour on a terminal: three blanks on a background
/// of the colour, then its channels in decimal.
pub open spec fn swatch_line(color: Rgb) -> Seq<char> {
    "\x1b[48;2;"@ + decimal(color.red as nat) + ";"@ + decimal(color.green as nat) + ";"@
        + decimal(color.blue as nat) + "m   \x1b[0m "@ + decimal(color.red as nat) + " "@
        + decimal(color.green as nat) + " "@ + decimal(color.blue as nat)
}

/// The digit of a nibble as a one-character string.
fn digit_str(nibble: u8) -> (s: &'static str)
    requires
        nibble < 16,
    ensures
        s@ == seq![hex_digits()[nibble as int]],
{
    proof {
        reveal_strlit("0");
        reveal_strlit("1");
        reveal_strlit("2");
        reveal_strlit("3");
        reveal_strlit("4");
        reveal_strlit("5");
        reveal_strlit("6");
        reveal_strlit("7");
        reveal_strlit("8");
        reveal_strlit("9");
        reveal_strlit("A");
        reveal_strlit("B");
        reveal_strlit("C");
        reveal_strlit("D");
        reveal_strlit("E");
        reveal_strlit("F");
    }
    let s = match nibble {
        0 => "0",
        1 => "1",
        2 => "2",
        3 => "3",
        4 => "4",
        5 => "5",
        6 => "6",
        7 => "7",
        8 => "8",
        9 => "9",
        10 => "A",
        11 => "B",
        12 => "C",
        13 => "D",
        14 => "E",
        _ => "F",
    };
    assert(s@ =~= seq![hex_digits()[nibble as int]]);
    s
}

/// Appends the two digits of `byte` to `out`.
fn push_hex_pair(out: &mut String, byte: u8)
    ensures
        final(out)@ == old(out)@ + hex_pair(byte),
{
    out.append(digit_str(byte / 16));
    out.append(digit_str(byte % 16));
    assert(out@ =~= old(out)@ + hex_pair(byte));
}

/// Appends the decimal notation of `byte` to `out`.
fn push_decimal(out: &mut String, byte: u8)
    ensures
        final(out)@ == old(out)@ + decimal(byte as nat),
{
    proof {
        reveal_with_fuel(decimal, 3);
    }
    if byte >= 100 {
        out.append(digit_str(byte / 100));
    }
    if byte >= 10 {
        out.append(digit_str(byte / 10 % 10));
    }
    out.append(digit_str(byte % 10));
    assert(out@ =~= old(out)@ + decimal(byte as nat));
}

impl Rgb {
    /// A colour from its three channels.
    pub fn new(red: u8, green: u8, blue: u8) -> (color: Rgb)
        ensures
            color == (Rgb { red, green, blue }),
    {
        Rgb { red, green, blue }
    }

    /// Writes the colour as `#RRGGBB` with upper-case digits.
    pub fn to_hex(&self) -> (text: String)
        ensures
            text@ == hex_code(*self),
    {
        let mut text = String::new();
        proof {
            reveal_strlit("#");
        }
        text.append("#");
        push_hex_pair(&mut text, self.red);
        push_hex_pair(&mut text, self.green);
        push_hex_pair(&mut text, self.blue);
        assert(text@ =~= hex_code(*self));
        text
    }

    /// Writes the line that shows the colour on a terminal.
    pub fn swatch(&self) -> (text: String)
        ensures
            text@ == swatch_line(*self),
    {
        let mut text = String::from_str("\x1b[48;2;");
        push_decimal(&mut text, self.red);
        text.append(";");
        push_decimal(&mut text, self.green);
        text.append(";");
        push_decimal(&mut text, self.blue);
        text.append("m   \x1b[0m ");
        push_decimal(&mut text, self.red);
        text.append(" ");
        push_decimal(&mut text, self.green);
        text.append(" ");
        push_decimal(&mut text, self.blue);
        text
    }
}

} // verus!
