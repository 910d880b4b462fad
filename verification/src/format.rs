//! Distance rendering for instruction texts.
//!
//! Distances are carried in millimeters. A distance of a kilometer or
//! more is rendered with one decimal place in kilometers ("2.5 km");
//! anything shorter is rounded to the nearest ten meters and rendered
//! as an integer with unit ("150 m"). Rounding is half-up on the exact
//! millimeter value.

use vstd::prelude::*;
use vstd::string::StringExecFns;

verus! {

/// The decimal digit character for a value below ten.
pub open spec fn digit_char(d: nat) -> char {
    if d == 0 {
        '0'
    } else if d == 1 {
        '1'
    } else if d == 2 {
        '2'
    } else if d == 3 {
        '3'
    } else if d == 4 {
        '4'
    } else if d == 5 {
        '5'
    } else if d == 6 {
        '6'
    } else if d == 7 {
        '7'
    } else if d == 8 {
        '8'
    } else {
        '9'
    }
}

/// Decimal representation of a natural number, most significant digit
/// first, with no leading zeros (a lone zero for zero itself).
pub open spec fn dec_digits(n: nat) -> Seq<char>
    decreases n,
{
    if n < 10 {
        seq![digit_char(n)]
    } else {
        dec_digits(n / 10) + seq![digit_char(n % 10)]
    }
}

/// The rendered text for a distance of `mm` millimeters: kilometers
/// with one decimal place from a full kilometer up, else meters rounded
/// to the nearest ten.
pub open spec fn spec_format_distance(mm: nat) -> Seq<char> {
    if mm >= 1_000_000 {
        let hm = (mm + 50_000) / 100_000;
        dec_digits(hm / 10) + "."@ + seq![digit_char(hm % 10)] + " km"@
    } else {
        let m = ((mm + 5_000) / 10_000) * 10;
        dec_digits(m) + " m"@
    }
}

/// The one-character string for a decimal digit.
fn digit_str(d: u64) -> (r: &'static str)
    requires
        d < 10,
    ensures
        r@ == seq![digit_char(d as nat)],
{
    proof {
        reveal_strlit("0");
        reveal_strlit("1");
        reveal_strlit("2");
        reveal_strlit("3");
        reveal_strlit("4");
        reveal_strlit("5");
        reveal_strlit("6");
        reveal_strlit("7");
        reveal_strlit("8");
        reveal_strlit("9");
    }
    let r: &'static str = match d {
        0 => "0",
        1 => "1",
        2 => "2",
        3 => "3",
        4 => "4",
        5 => "5",
        6 => "6",
        7 => "7",
        8 => "8",
        _ => "9",
    };
    proof {
        assert(r@ =~= seq![digit_char(d as nat)]);
    }
    r
}

/// Decimal rendering of an unsigned integer.
pub fn dec_string(n: u64) -> (r: String)
    ensures
        r@ == dec_digits(n as nat),
    decreases n,
{
    if n < 10 {
        let s = digit_str(n);
        s.to_owned()
    } else {
        let high = dec_string(n / 10);
        let r = high.concat(digit_str(n % 10));
        proof {
            assert(r@ =~= dec_digits(n as nat));
        }
        r
    }
}

/// Render a distance, given in millimeters, as instruction text.
pub fn format_distance(mm: u64) -> (r: String)
    requires
        mm + 50_000 <= u64::MAX,
    ensures
        r@ == spec_format_distance(mm as nat),
{
    if mm >= 1_000_000 {
        let hm = (mm + 50_000) / 100_000;
        let r = dec_string(hm / 10).concat(".").concat(digit_str(hm % 10)).concat(" km");
        proof {
            assert(r@ =~= spec_format_distance(mm as nat));
        }
        r
    } else {
        let tens = (mm + 5_000) / 10_000;
        let r = dec_string(tens * 10).concat(" m");
        proof {
            assert(r@ =~= spec_format_distance(mm as nat));
        }
        r
    }
}

} // verus!
