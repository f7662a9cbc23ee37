//! Human-readable text for the codec's errors: decimal counts and two-digit
//! upper-case hexadecimal bytes.
use vstd::prelude::*;
use vstd::string::StringExecFns;
use crate::protocol::ParseError;

verus! {

/// The character of a digit below sixteen, upper case past nine.
pub open spec fn digit_char(d: nat) -> char {
    if d == 0 { '0' }
    else if d == 1 { '1' }
    else if d == 2 { '2' }
    else if d == 3 { '3' }
    else if d == 4 { '4' }
    else if d == 5 { '5' }
    else if d == 6 { '6' }
    else if d == 7 { '7' }
    else if d == 8 { '8' }
    else if d == 9 { '9' }
    else if d == 10 { 'A' }
    else if d == 11 { 'B' }
    else if d == 12 { 'C' }
    else if d == 13 { 'D' }
    else if d == 14 { 'E' }
    else { 'F' }
}

/// A number in decimal, without leading zeros.
pub open spec fn decimal(n: nat) -> Seq<char>
    decreases n,
{
    if n < 10 {
        seq![digit_char(n)]
    } else {
        decimal(n / 10).push(digit_char(n % 10))
    }
}

/// A byte as exactly two upper-case hexadecimal digits.
pub open spec fn hex2(b: u8) -> Seq<char> {
    seq![digit_char(b as nat / 16), digit_char(b as nat % 16)]
}

/// The message for each error.
pub open spec fn message_spec(e: ParseError) -> Seq<char> {
    match e {
        ParseError::TooShort(len) => "Packet too short: "@ + decimal(len as nat) + " bytes"@,
        ParseError::CrcMismatch { received, calculated } => "CRC mismatch: received 0x"@ + hex2(
            received,
        ) + ", calculated 0x"@ + hex2(calculated),
        ParseError::InvalidCommand(cmd) => "Invalid command byte: 0x"@ + hex2(cmd),
        ParseError::UnexpectedTempCount(count) => "Unexpected temp count: "@ + decimal(
            count as nat,
        ),
    }
}

fn digit_str(d: u8) -> (r: &'static str)
    requires
        d < 16,
    ensures
        r@ == seq![digit_char(d as nat)],
{
    proof {
        reveal_strlit("0");
        reveal_strlit("1");
        reveal_strlit("2");
        reveal_strlit("3");
        reveal_strlit("4");
        reveal_strlit("5");
        reveal_strlit("6");
        reveal_strlit("7");
        reveal_strlit("8");
        reveal_strlit("9");
        reveal_strlit("A");
        reveal_strlit("B");
        reveal_strlit("C");
        reveal_strlit("D");
        reveal_strlit("E");
        reveal_strlit("F");
    }
    let r = if d == 0 { "0" }
    else if d == 1 { "1" }
    else if d == 2 { "2" }
    else if d == 3 { "3" }
    else if d == 4 { "4" }
    else if d == 5 { "5" }
    else if d == 6 { "6" }
    else if d == 7 { "7" }
    else if d == 8 { "8" }
    else if d == 9 { "9" }
    else if d == 10 { "A" }
    else if d == 11 { "B" }
    else if d == 12 { "C" }
    else if d == 13 { "D" }
    else if d == 14 { "E" }
    else { "F" };
    assert(r@ =~= seq![digit_char(d as nat)]);
    r
}

/// Appends `n` in decimal.
fn push_decimal(s: &mut String, n: usize)
    ensures
        final(s)@ == old(s)@ + decimal(n as nat),
    decreases n,
{
    if n >= 10 {
        push_decimal(s, n / 10);
    }
    let d: u8 = (n % 10) as u8;
    s.append(digit_str(d));
    assert(final(s)@ =~= old(s)@ + decimal(n as nat));
}

/// Appends `b` as two hexadecimal digits.
fn push_hex2(s: &mut String, b: u8)
    ensures
        final(s)@ == old(s)@ + hex2(b),
{
    s.append(digit_str(b / 16));
    s.append(digit_str(b % 16));
    assert(final(s)@ =~= old(s)@ + hex2(b));
}

impl ParseError {
    /// A one-line description of the error.
    pub fn message(&self) -> (r: String)
        ensures
            r@ == message_spec(*self),
    {
        match *self {
            ParseError::TooShort(len) => {
                let mut s = String::from_str("Packet too short: ");
                push_decimal(&mut s, len);
                s.append(" bytes");
                s
            },
            ParseError::CrcMismatch { received, calculated } => {
                let mut s = String::from_str("CRC mismatch: received 0x");
                push_hex2(&mut s, received);
                s.append(", calculated 0x");
                push_hex2(&mut s, calculated);
                s
            },
            ParseError::InvalidCommand(cmd) => {
                let mut s = String::from_str("Invalid command byte: 0x");
                push_hex2(&mut s, cmd);
                s
            },
            ParseError::UnexpectedTempCount(count) => {
                let mut s = String::from_str("Unexpected temp count: ");
                push_decimal(&mut s, count as usize);
                s
            },
        }
    }
}

} // verus!
