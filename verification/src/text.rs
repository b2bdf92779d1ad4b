//! The display texts that the DTO derives: decimal rendering of an age,
//! the full name, and the comma-and-space joined address.

use vstd::prelude::*;
use vstd::string::StringExecFns;

verus! {

/// The character for one decimal digit.
pub open spec fn dec_digit_char(d: int) -> char {
    if d == 0 {
        '0'
    } else if d == 1 {
        '1'
    } else if d == 2 {
        '2'
    } else if d == 3 {
        '3'
    } else if d == 4 {
        '4'
    } else if d == 5 {
        '5'
    } else if d == 6 {
        '6'
    } else if d == 7 {
        '7'
    } else if d == 8 {
        '8'
    } else {
        '9'
    }
}

/// The decimal digits of a nonnegative integer, most significant first.
pub open spec fn dec_str_of(n: int) -> Seq<char>
    recommends
        n >= 0,
    decreases n,
{
    if n < 10 {
        seq![dec_digit_char(n)]
    } else {
        dec_str_of(n / 10).push(dec_digit_char(n % 10))
    }
}

/// The decimal rendering of an integer, with a leading minus sign when it is
/// negative.
pub open spec fn int_str_of(n: int) -> Seq<char> {
    if n < 0 {
        seq!['-'] + dec_str_of(-n)
    } else {
        dec_str_of(n)
    }
}

/// The derived age text: calendar-year subtraction only, with no month or day
/// adjustment. This imprecision is intentional and part of the contract.
pub open spec fn age_text(current_year: int, birth_year: int) -> Seq<char> {
    int_str_of(current_year - birth_year)
}

/// The display name: first name, one space, last name.
pub open spec fn full_name_text(first: Seq<char>, last: Seq<char>) -> Seq<char> {
    first + seq![' '] + last
}

/// The separator between address parts.
pub open spec fn comma_space() -> Seq<char> {
    seq![',', ' ']
}

/// The formatted address: the five parts joined by a comma and a space.
pub open spec fn address_text(
    house_number: Seq<char>,
    street: Seq<char>,
    city: Seq<char>,
    state: Seq<char>,
    zip_code: Seq<char>,
) -> Seq<char> {
    house_number + comma_space() + street + comma_space() + city + comma_space() + state
        + comma_space() + zip_code
}

/// The text for one decimal digit.
fn digit_str(d: u64) -> (r: &'static str)
    requires
        d < 10,
    ensures
        r@ == seq![dec_digit_char(d as int)],
{
    if d == 0 {
        proof {
            reveal_strlit("0");
            assert("0"@ =~= seq![dec_digit_char(0int)]);
        }
        "0"
    } else if d == 1 {
        proof {
            reveal_strlit("1");
            assert("1"@ =~= seq![dec_digit_char(1int)]);
        }
        "1"
    } else if d == 2 {
        proof {
            reveal_strlit("2");
            assert("2"@ =~= seq![dec_digit_char(2int)]);
        }
        "2"
    } else if d == 3 {
        proof {
            reveal_strlit("3");
            assert("3"@ =~= seq![dec_digit_char(3int)]);
        }
        "3"
    } else if d == 4 {
        proof {
            reveal_strlit("4");
            assert("4"@ =~= seq![dec_digit_char(4int)]);
        }
        "4"
    } else if d == 5 {
        proof {
            reveal_strlit("5");
            assert("5"@ =~= seq![dec_digit_char(5int)]);
        }
        "5"
    } else if d == 6 {
        proof {
            reveal_strlit("6");
            assert("6"@ =~= seq![dec_digit_char(6int)]);
        }
        "6"
    } else if d == 7 {
        proof {
            reveal_strlit("7");
            assert("7"@ =~= seq![dec_digit_char(7int)]);
        }
        "7"
    } else if d == 8 {
        proof {
            reveal_strlit("8");
            assert("8"@ =~= seq![dec_digit_char(8int)]);
        }
        "8"
    } else {
        proof {
            reveal_strlit("9");
            assert("9"@ =~= seq![dec_digit_char(9int)]);
        }
        "9"
    }
}

/// Renders a nonnegative integer in decimal.
pub fn u64_to_string(n: u64) -> (r: String)
    ensures
        r@ == dec_str_of(n as int),
    decreases n,
{
    if n < 10 {
        String::from_str(digit_str(n))
    } else {
        let prefix = u64_to_string(n / 10);
        let r = prefix.concat(digit_str(n % 10));
        proof {
            assert((n / 10) as int == n as int / 10);
            assert((n % 10) as int == n as int % 10);
            assert(r@ =~= dec_str_of(n as int / 10).push(dec_digit_char(n as int % 10)));
        }
        r
    }
}

/// Renders the age derived from a current year and a birth year, as text.
pub fn age_string(current_year: i32, birth_year: i32) -> (r: String)
    ensures
        r@ == age_text(current_year as int, birth_year as int),
{
    let diff: i64 = (current_year as i64) - (birth_year as i64);
    if diff >= 0 {
        u64_to_string(diff as u64)
    } else {
        let magnitude: i64 = -diff;
        let digits = u64_to_string(magnitude as u64);
        let r = String::from_str("-").concat(digits.as_str());
        proof {
            reveal_strlit("-");
            assert(r@ =~= seq!['-'] + dec_str_of(magnitude as int));
        }
        r
    }
}

} // verus!
