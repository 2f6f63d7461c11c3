//! The text form of a frame, for diagnostic output.

use vstd::prelude::*;
use vstd::string::*;

verus! {

/// The lower-case hexadecimal digit of a number below sixteen.
pub open spec fn hex_digit(n: int) -> char {
    if n < 10 {
        ('0' as int + n) as char
    } else {
        ('a' as int + n - 10) as char
    }
}

/// The line of one byte: `0x`, its two hexadecimal digits and a blank.
pub open spec fn hex_line(b: u8) -> Seq<char> {
    seq!['0', 'x', hex_digit(b as int / 16), hex_digit(b as int % 16), ' ']
}

/// Formats one byte as its line of the dump.
pub fn hex_line_of(b: u8) -> (line: String)
    ensures
        line@ == hex_line(b),
{
    let digits = "0123456789abcdef";
    proof {
        reveal_strlit("0123456789abcdef");
        reveal_strlit("0x");
        reveal_strlit(" ");
    }
    let high: usize = (b / 16) as usize;
    let low: usize = (b % 16) as usize;
    let mut line = String::from_str("0x");
    line.append(digits.substring_ascii(high, high + 1));
    line.append(digits.substring_ascii(low, low + 1));
    line.append(" ");
    assert(line@ =~= hex_line(b));
    line
}

/// The lines that show a frame: a header, one line for each of the eight
/// bytes in hexadecimal, and a closing rule.
pub fn dump(raw: &[u8; 8]) -> (lines: Vec<String>)
    ensures
        lines@.len() == 10,
        lines@[0]@ == "--- raw ---"@,
        forall|i: int| 0 <= i < 8 ==> (#[trigger] lines@[i + 1])@ == hex_line(raw[i]),
        lines@[9]@ == "------"@,
{
    let mut lines: Vec<String> = Vec::new();
    lines.push(String::from_str("--- raw ---"));
    let mut i: usize = 0;
    while i < 8
        invariant
            i <= 8,
            lines@.len() == i + 1,
            lines@[0]@ == "--- raw ---"@,
            forall|j: int| 0 <= j < i ==> (#[trigger] lines@[j + 1])@ == hex_line(raw[j]),
        decreases 8 - i,
    {
        lines.push(hex_line_of(raw[i]));
        i += 1;
    }
    lines.push(String::from_str("------"));
    lines
}

} // verus!
