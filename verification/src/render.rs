use vstd::prelude::*;
use vstd::string::StringExecFns;
use crate::rectangle::Rectangle;

verus! {

/// The character for one decimal digit.
pub open spec fn spec_digit_char(d: int) -> char {
    if d == 0 {
        '0'
    } else if d == 1 {
        '1'
    } else if d == 2 {
        '2'
    } else if d == 3 {
        '3'
    } else if d == 4 {
        '4'
    } else if d == 5 {
        '5'
    } else if d == 6 {
        '6'
    } else if d == 7 {
        '7'
    } else if d == 8 {
        '8'
    } else {
        '9'
    }
}

/// The decimal numeral of a non-negative integer, most significant
/// digit first, with no leading zero except for zero itself.
pub open spec fn spec_decimal(n: int) -> Seq<char>
    decreases n,
{
    if n < 10 {
        seq![spec_digit_char(n)]
    } else {
        spec_decimal(n / 10) + seq![spec_digit_char(n % 10)]
    }
}

/// The line reporting a nonzero width.
pub open spec fn spec_width_line(w: u32) -> Seq<char> {
    "The rectangle has a nonzero width; it is "@ + spec_decimal(w as int)
}

/// The line reporting the area.
pub open spec fn spec_area_line(area: int) -> Seq<char> {
    "The area of the rectangle is "@ + spec_decimal(area) + " square pixels."@
}

/// The one-character string for a single decimal digit.
fn digit_str(d: u64) -> (s: &'static str)
    requires
        d < 10,
    ensures
        s@ == seq![spec_digit_char(d as int)],
{
    proof {
        reveal_strlit("0");
        reveal_strlit("1");
        reveal_strlit("2");
        reveal_strlit("3");
        reveal_strlit("4");
        reveal_strlit("5");
        reveal_strlit("6");
        reveal_strlit("7");
        reveal_strlit("8");
        reveal_strlit("9");
    }
    let s: &'static str = match d {
        0 => "0",
        1 => "1",
        2 => "2",
        3 => "3",
        4 => "4",
        5 => "5",
        6 => "6",
        7 => "7",
        8 => "8",
        _ => "9",
    };
    proof {
        assert(s@ =~= seq![spec_digit_char(d as int)]);
    }
    s
}

/// Renders `n` as its decimal numeral.
pub fn decimal_string(n: u64) -> (s: String)
    ensures
        s@ == spec_decimal(n as int),
    decreases n,
{
    if n < 10 {
        digit_str(n).to_owned()
    } else {
        let mut s = decimal_string(n / 10);
        s.append(digit_str(n % 10));
        proof {
            assert(s@ =~= spec_decimal(n as int));
        }
        s
    }
}

/// The line printed when the width is nonzero.
pub fn width_line(r: &Rectangle) -> (s: String)
    ensures
        s@ == spec_width_line(r.width),
{
    let mut s = "The rectangle has a nonzero width; it is ".to_owned();
    s.append(decimal_string(r.width as u64).as_str());
    s
}

/// The line reporting the rectangle's area.
pub fn area_line(r: &Rectangle) -> (s: String)
    ensures
        s@ == spec_area_line(r.spec_area()),
{
    let area: u64 = r.area();
    let mut s = "The area of the rectangle is ".to_owned();
    s.append(decimal_string(area).as_str());
    s.append(" square pixels.");
    s
}

/// The lines the program prints for `r`, in order: the width line only
/// when the width is nonzero, then, always, the area line.
pub fn report(r: &Rectangle) -> (lines: Vec<String>)
    ensures
        lines@.len() == (if r.spec_has_positive_width() { 2int } else { 1int }),
        r.spec_has_positive_width() ==> lines@[0]@ == spec_width_line(r.width),
        lines@[lines@.len() - 1]@ == spec_area_line(r.spec_area()),
{
    let mut lines: Vec<String> = Vec::new();
    if r.width() {
        lines.push(width_line(r));
    }
    lines.push(area_line(r));
    lines
}

} // verus!
