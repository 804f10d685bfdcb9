use crate::fragment::{FragView, Fragment, Role};
use crate::severity::ColorRole;
use vstd::prelude::*;

verus! {

/// Relies on `String::push`: appends the given character to the end of the
/// string.
pub assume_specification[ String::push ](s: &mut String, ch: char)
    ensures
        final(s)@ == old(s)@.push(ch),
;

/// The character `c` repeated `n` times.
pub open spec fn spec_repeat(c: char, n: nat) -> Seq<char> {
    Seq::new(n, |i: int| c)
}

/// Generates `c` `count` times.
pub fn char_count(c: char, count: usize) -> (r: String)
    ensures
        r@ == spec_repeat(c, count as nat),
{
    let mut s = String::new();
    let mut i: usize = 0;
    while i < count
        invariant
            i <= count,
            s@.len() == i,
            forall|j: int| 0 <= j < i ==> s@[j] == c,
        decreases count - i,
    {
        s.push(c);
        i = i + 1;
    }
    proof {
        assert(s@ =~= spec_repeat(c, count as nat));
    }
    s
}

/// The decimal digit character for a value below ten.
pub open spec fn dec_digit(d: nat) -> char {
    if d == 0 {
        '0'
    } else if d == 1 {
        '1'
    } else if d == 2 {
        '2'
    } else if d == 3 {
        '3'
    } else if d == 4 {
        '4'
    } else if d == 5 {
        '5'
    } else if d == 6 {
        '6'
    } else if d == 7 {
        '7'
    } else if d == 8 {
        '8'
    } else {
        '9'
    }
}

/// The decimal representation of `n`, most significant digit first, with no
/// leading zeros (a single `'0'` for zero).
pub open spec fn dec_str(n: nat) -> Seq<char>
    decreases n,
{
    if n < 10 {
        seq![dec_digit(n)]
    } else {
        dec_str(n / 10).push(dec_digit(n % 10))
    }
}

/// Gets the digit character of a value below ten.
fn dec_digit_char(d: usize) -> (r: char)
    requires
        d < 10,
    ensures
        r == dec_digit(d as nat),
{
    if d == 0 {
        '0'
    } else if d == 1 {
        '1'
    } else if d == 2 {
        '2'
    } else if d == 3 {
        '3'
    } else if d == 4 {
        '4'
    } else if d == 5 {
        '5'
    } else if d == 6 {
        '6'
    } else if d == 7 {
        '7'
    } else if d == 8 {
        '8'
    } else {
        '9'
    }
}

/// Writes `n` in decimal.
pub fn usize_to_string(n: usize) -> (r: String)
    ensures
        r@ == dec_str(n as nat),
    decreases n,
{
    if n < 10 {
        let mut s = String::new();
        s.push(dec_digit_char(n));
        proof {
            assert(s@ =~= dec_str(n as nat));
        }
        s
    } else {
        let mut s = usize_to_string(n / 10);
        s.push(dec_digit_char(n % 10));
        s
    }
}

/// The newline fragment that separates rendered lines.
pub open spec fn nl_frag() -> FragView {
    FragView { text: "\n"@, role: Role::Plain }
}

/// Generates a newline fragment.
pub fn newline() -> (r: Fragment)
    ensures
        r@ == nl_frag(),
{
    Fragment::from_str("\n", Role::Plain)
}

/// The accent-colored arrow marker that opens a token call-out.
pub open spec fn arrow_frag() -> FragView {
    FragView { text: "-->"@, role: Role::Colored(ColorRole::BrightBlue) }
}

/// Generates the two-dash arrow.
pub fn arrow() -> (r: Fragment)
    ensures
        r@ == arrow_frag(),
{
    Fragment::from_str("-->", Role::Colored(ColorRole::BrightBlue))
}

/// The accent-colored vertical gutter bar with surrounding spaces.
pub open spec fn vertical_frag() -> FragView {
    FragView { text: " | "@, role: Role::Colored(ColorRole::BrightBlue) }
}

/// Generates a vertical line with surrounding spaces.
pub fn vertical() -> (r: Fragment)
    ensures
        r@ == vertical_frag(),
{
    Fragment::from_str(" | ", Role::Colored(ColorRole::BrightBlue))
}

/// The file/location text of a token call-out.  The stored position is
/// 0-indexed; it is shown 1-indexed for human display.
pub open spec fn file_token_text(file: Seq<char>, line: nat, position: nat) -> Seq<char> {
    " "@ + file + " [line="@ + dec_str(line) + ", position="@ + dec_str(position + 1) + "]"@
}

/// Generates the file and token fragment.
pub fn file_and_token(file_name: &str, line: usize, position: usize) -> (r: Fragment)
    requires
        position < usize::MAX,
    ensures
        r@ == (FragView {
            text: file_token_text(file_name@, line as nat, position as nat),
            role: Role::Plain,
        }),
{
    let mut s = String::from_str(" ");
    s.append(file_name);
    s.append(" [line=");
    let line_str = usize_to_string(line);
    s.append(line_str.as_str());
    s.append(", position=");
    let position_str = usize_to_string(position + 1);
    s.append(position_str.as_str());
    s.append("]");
    proof {
        assert(s@ =~= file_token_text(file_name@, line as nat, position as nat));
    }
    Fragment::new(s, Role::Plain)
}

} // verus!
