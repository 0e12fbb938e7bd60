//! Structural validation of user-entered location data.
//!
//! The presentation actor runs these checks before a location-list
//! request leaves it; an invalid entry never reaches the model actor.

use vstd::prelude::*;

use crate::messages::CityInfo;
use crate::numfmt::{spec_dec_nat, u64_to_string};

verus! {

/// Whether `c` is a decimal digit.
pub open spec fn is_digit_char(c: char) -> bool {
    48 <= c as u32 <= 57
}

/// The numeric value of a digit character.
pub open spec fn digit_val(c: char) -> int {
    c as u32 - 48
}

/// Whether every character of `s` is a decimal digit.
pub open spec fn all_digits(s: Seq<char>) -> bool {
    forall|i: int| 0 <= i < s.len() ==> is_digit_char(#[trigger] s[i])
}

/// The value of a digit string read in base ten.
pub open spec fn dec_val(s: Seq<char>) -> int
    decreases s.len(),
{
    if s.len() == 0 {
        0
    } else {
        dec_val(s.drop_last()) * 10 + digit_val(s.last())
    }
}

/// A postal code is accepted exactly when it is five decimal digits
/// whose value lies in the range the postal service assigns.
pub open spec fn zip_ok(s: Seq<char>) -> bool {
    s.len() == 5 && all_digits(s) && 501 <= dec_val(s) <= 99950
}

/// The reason reported for a rejected postal code.
pub open spec fn zip_error_text(s: Seq<char>) -> Seq<char> {
    if !all_digits(s) {
        "Zipcode is not a number"@
    } else if s.len() != 5 {
        "Zipcode must be 5 digits"@
    } else {
        "Zipcode must be from 00501 to 99950"@
    }
}

pub open spec fn pow10(n: nat) -> nat
    decreases n,
{
    if n == 0 {
        1
    } else {
        10 * pow10((n - 1) as nat)
    }
}

/// Checks one postal code, returning the reason when it is rejected.
pub fn is_zipcode_valid(city_zipcode: &str) -> (r: Result<(), String>)
    ensures
        r is Ok <==> zip_ok(city_zipcode@),
        r matches Err(m) ==> m@ == zip_error_text(city_zipcode@),
{
    let n = city_zipcode.unicode_len();
    let mut i: usize = 0;
    while i < n
        invariant
            0 <= i <= n,
            n == city_zipcode@.len(),
            forall|j: int| 0 <= j < i ==> is_digit_char(#[trigger] city_zipcode@[j]),
        decreases n - i,
    {
        let c = city_zipcode.get_char(i);
        let v = c as u32;
        if v < 48 || v > 57 {
            return Err(String::from_str("Zipcode is not a number"));
        }
        i = i + 1;
    }
    if n != 5 {
        return Err(String::from_str("Zipcode must be 5 digits"));
    }
    let mut val: u32 = 0;
    let mut i: usize = 0;
    while i < 5
        invariant
            0 <= i <= 5,
            city_zipcode@.len() == 5,
            all_digits(city_zipcode@),
            val == dec_val(city_zipcode@.subrange(0, i as int)),
            val < pow10(i as nat),
        decreases 5 - i,
    {
        proof {
            reveal_with_fuel(pow10, 6);
            assert(city_zipcode@.subrange(0, i + 1).drop_last() =~= city_zipcode@.subrange(
                0,
                i as int,
            ));
        }
        let c = city_zipcode.get_char(i);
        val = val * 10 + (c as u32 - 48);
        i = i + 1;
    }
    proof {
        reveal_with_fuel(pow10, 6);
        assert(city_zipcode@.subrange(0, 5) =~= city_zipcode@);
    }
    if 501 <= val && val <= 99950 {
        Ok(())
    } else {
        Err(String::from_str("Zipcode must be from 00501 to 99950"))
    }
}

/// Whether slot `i` holds the first invalid postal code of the list.
pub open spec fn first_invalid_at(cs: Seq<CityInfo>, i: int) -> bool {
    &&& 0 <= i < cs.len()
    &&& !zip_ok(cs[i].zipcode@)
    &&& forall|j: int| 0 <= j < i ==> zip_ok(#[trigger] cs[j].zipcode@)
}

/// The per-slot error line shown for the first invalid entry.
pub open spec fn city_error_text(cs: Seq<CityInfo>, i: int) -> Seq<char> {
    "City "@ + spec_dec_nat((i + 1) as nat) + " - "@ + zip_error_text(cs[i].zipcode@)
}

/// Checks every entry of a location list; the first invalid postal code
/// yields an error line naming its one-based slot and the reason.
pub fn check_for_errors(cities_info: Vec<CityInfo>) -> (r: Result<(), String>)
    ensures
        r is Ok <==> (forall|i: int|
            0 <= i < cities_info@.len() ==> zip_ok(#[trigger] cities_info@[i].zipcode@)),
        r matches Err(m) ==> exists|i: int|
            #[trigger] first_invalid_at(cities_info@, i) && m@ == city_error_text(
                cities_info@,
                i,
            ),
{
    let n = cities_info.len();
    let mut i: usize = 0;
    while i < n
        invariant
            0 <= i <= n,
            n == cities_info@.len(),
            forall|j: int| 0 <= j < i ==> zip_ok(#[trigger] cities_info@[j].zipcode@),
        decreases n - i,
    {
        match is_zipcode_valid(cities_info[i].zipcode.as_str()) {
            Ok(()) => {},
            Err(e) => {
                let mut m = String::from_str("City ");
                let num = u64_to_string((i as u64) + 1);
                m.append(num.as_str());
                m.append(" - ");
                m.append(e.as_str());
                proof {
                    assert(first_invalid_at(cities_info@, i as int));
                    assert(m@ =~= city_error_text(cities_info@, i as int));
                }
                return Err(m);
            },
        }
        i = i + 1;
    }
    Ok(())
}

} // verus!
