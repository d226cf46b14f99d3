//! What the field parsers yield on well-formed fields, stated for every
//! such field at once.

use crate::decimal::{all_digits, decimal_parts, decimal_scaled, digits_value, uint_of};
use crate::download_manager::{
    eta_of,
    find_quantity,
    is_unknown,
    quantity_at,
    quantity_of,
    unit_at,
    ByteUnit,
};
use crate::text::{
    is_digit,
    is_space,
    lemma_span_bounds,
    lemma_span_is,
    lemma_split_first,
    lemma_split_single,
    lemma_trimmed_identity,
    span,
    split,
    trimmed,
    CharClass,
};
use vstd::prelude::*;

verus! {

/// The characters of a decimal number are digits and full stops, and there
/// is at least one of them.
pub proof fn lemma_decimal_is_number_run(number: Seq<char>)
    requires
        decimal_parts(number) is Some,
    ensures
        number.len() > 0,
        forall|k: int| 0 <= k < number.len() ==> CharClass::Number.has(#[trigger] number[k]),
{
    let d = span(number, CharClass::Digit, 0);
    lemma_span_bounds(number, CharClass::Digit, 0);
    if d < number.len() {
        lemma_span_bounds(number, CharClass::Digit, d + 1);
    }
    assert forall|k: int| 0 <= k < number.len() implies CharClass::Number.has(
        #[trigger] number[k],
    ) by {
        if k < d {
            assert(CharClass::Digit.has(number[k]));
        } else if k > d {
            assert(CharClass::Digit.has(number[k]));
        }
    }
}

/// A decimal number, optional white space and a unit: the field states the
/// number times the unit's multiplier, rounded to the nearest byte (and
/// capped at `u64::MAX`).
pub proof fn lemma_quantity_of_number_unit(number: Seq<char>, gap: Seq<char>, unit: ByteUnit)
    requires
        decimal_parts(number) is Some,
        forall|k: int| 0 <= k < gap.len() ==> is_space(#[trigger] gap[k]),
    ensures
        quantity_of(number + gap + unit.name()) == decimal_scaled(number, unit.multiplier()),
        quantity_of(number + gap + unit.name()) is Some,
{
    let s = number + gap + unit.name();
    let nl = number.len() as int;
    let gl = gap.len() as int;
    let name = unit.name();
    lemma_decimal_is_number_run(number);
    assert(name.len() >= 1 && name.len() <= 3);
    assert(name.last() == 'B');
    assert(s[0] == number[0]);
    assert(s[s.len() - 1] == name.last());
    assert(!is_space('B'));
    assert(!is_space(number[0]));
    lemma_trimmed_identity(s);
    assert(!is_unknown(s)) by {
        assert(s[0] != 'N');
    }
    assert forall|k: int| 0 <= k < nl implies CharClass::Number.has(#[trigger] s[k]) by {
        assert(s[k] == number[k]);
    }
    assert forall|k: int| nl <= k < nl + gl implies CharClass::Space.has(#[trigger] s[k]) by {
        assert(s[k] == gap[k - nl]);
    }
    assert(s[nl + gl] == name[0]);
    assert(!is_space(name[0]));
    assert(!CharClass::Number.has(name[0]));
    if gl > 0 {
        assert(s[nl] == gap[0]);
        assert(!CharClass::Number.has(s[nl]));
    }
    lemma_span_is(s, CharClass::Number, 0, nl);
    lemma_span_is(s, CharClass::Space, nl, nl + gl);
    assert(s.subrange(0, nl) =~= number);
    if name.len() >= 2 {
        assert(s[nl + gl + 1] == name[1]);
    }
    if name.len() >= 3 {
        assert(s[nl + gl + 2] == name[2]);
    }
    assert(unit_at(s, nl + gl) == Some(unit));
    assert(quantity_at(s, 0) == Some((number, unit)));
    assert(find_quantity(s, 0) == Some((number, unit)));
}

/// An empty field, or one that reads `N/A`, states no quantity.
pub proof fn lemma_quantity_of_unknown()
    ensures
        quantity_of(Seq::<char>::empty()) is None,
        quantity_of(seq!['N', '/', 'A']) is None,
{
    let na = seq!['N', '/', 'A'];
    assert(!is_space('N') && !is_space('A'));
    lemma_trimmed_identity(na);
    assert(trimmed(Seq::<char>::empty()).len() == 0);
}

/// The value of a string of digits, as `u64` reads it.
pub proof fn lemma_uint_of_digits(digits: Seq<char>)
    requires
        digits.len() > 0,
        all_digits(digits),
        digits_value(digits) <= u64::MAX,
    ensures
        uint_of(digits) == Some(digits_value(digits) as u64),
{
    assert(is_digit(digits[0]));
}

proof fn lemma_digits_have_no_colon(digits: Seq<char>)
    requires
        all_digits(digits),
    ensures
        forall|i: int| 0 <= i < digits.len() ==> digits[i] != ':',
        digits.len() > 0 ==> !is_space(digits[0]) && !is_space(digits[digits.len() - 1])
            && digits[0] != 'N',
{
    assert forall|i: int| 0 <= i < digits.len() implies digits[i] != ':' by {
        assert(is_digit(digits[i]));
    }
    if digits.len() > 0 {
        assert(is_digit(digits[0]));
        assert(is_digit(digits[digits.len() - 1]));
    }
}

/// A field of seconds alone states those seconds.
pub proof fn lemma_eta_of_seconds(sec: Seq<char>)
    requires
        sec.len() > 0,
        all_digits(sec),
        digits_value(sec) <= u64::MAX,
    ensures
        eta_of(sec) == Some(digits_value(sec) as u64),
{
    lemma_digits_have_no_colon(sec);
    lemma_trimmed_identity(sec);
    lemma_split_single(sec, ':');
    lemma_uint_of_digits(sec);
}

/// A field of minutes and seconds states sixty times the minutes plus the
/// seconds.
pub proof fn lemma_eta_of_minutes_seconds(min: Seq<char>, sec: Seq<char>)
    requires
        min.len() > 0,
        sec.len() > 0,
        all_digits(min),
        all_digits(sec),
        digits_value(min) * 60 + digits_value(sec) <= u64::MAX,
    ensures
        eta_of(min + seq![':'] + sec) == Some((digits_value(min) * 60 + digits_value(sec)) as u64),
{
    let s = min + seq![':'] + sec;
    lemma_digits_have_no_colon(min);
    lemma_digits_have_no_colon(sec);
    assert(s[0] == min[0]);
    assert(s[s.len() - 1] == sec[sec.len() - 1]);
    lemma_trimmed_identity(s);
    lemma_split_first(min, sec, ':');
    lemma_split_single(sec, ':');
    assert(split(s, ':') =~= seq![min, sec]);
    lemma_uint_of_digits(min);
    lemma_uint_of_digits(sec);
}

/// A field of hours, minutes and seconds states 3600 times the hours plus
/// sixty times the minutes plus the seconds.
pub proof fn lemma_eta_of_hours_minutes_seconds(hours: Seq<char>, min: Seq<char>, sec: Seq<char>)
    requires
        hours.len() > 0,
        min.len() > 0,
        sec.len() > 0,
        all_digits(hours),
        all_digits(min),
        all_digits(sec),
        digits_value(hours) * 3600 + digits_value(min) * 60 + digits_value(sec) <= u64::MAX,
    ensures
        eta_of(hours + seq![':'] + (min + seq![':'] + sec)) == Some(
            (digits_value(hours) * 3600 + digits_value(min) * 60 + digits_value(sec)) as u64,
        ),
{
    let tail = min + seq![':'] + sec;
    let s = hours + seq![':'] + tail;
    lemma_digits_have_no_colon(hours);
    lemma_digits_have_no_colon(min);
    lemma_digits_have_no_colon(sec);
    assert(s[0] == hours[0]);
    assert(s[s.len() - 1] == sec[sec.len() - 1]);
    lemma_trimmed_identity(s);
    lemma_split_first(hours, tail, ':');
    lemma_split_first(min, sec, ':');
    lemma_split_single(sec, ':');
    assert(split(s, ':') =~= seq![hours, min, sec]);
    lemma_uint_of_digits(hours);
    lemma_uint_of_digits(min);
    lemma_uint_of_digits(sec);
}

/// Where a field states an ETA, it has one, two or three parts and every
/// part is an unsigned integer: a part that is none makes the ETA unknown.
pub proof fn lemma_eta_needs_integer_parts(s: Seq<char>)
    ensures
        eta_of(s) is Some ==> {
            let parts = split(trimmed(s), ':');
            &&& 1 <= parts.len() <= 3
            &&& forall|k: int| 0 <= k < parts.len() ==> uint_of(#[trigger] parts[k]) is Some
        },
{
}

} // verus!
