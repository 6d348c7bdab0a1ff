//! Laws of number lexemes.

use vstd::prelude::*;

use crate::content::lexical::{scanned_number, ParsedNumber};
use crate::content::number::{
    all_digits, digit_count, digits_value, exponent_lexeme, exponent_mark, exponent_of,
    fraction_count, has_exponent, is_digit, is_negative, is_number_lexeme, mantissa_of, mantissa_ok,
    number_of, pow10, scaled_magnitude, unsigned_part, ContentNumber,
};

verus! {

proof fn marks_are_found(unsigned: Seq<u8>, i: int, end: int)
    requires
        0 <= i <= end <= unsigned.len(),
        forall|k: int| i <= k < end ==> #[trigger] unsigned[k] != 0x65 && unsigned[k] != 0x45,
        end < unsigned.len() ==> unsigned[end] == 0x65 || unsigned[end] == 0x45,
    ensures
        exponent_mark(unsigned, i) == end,
    decreases end - i,
{
    if i < end {
        assert(unsigned[i] != 0x65);
        marks_are_found(unsigned, i + 1, end);
    }
}

proof fn digits_are_plain(digits: Seq<u8>)
    requires
        forall|i: int| 0 <= i < digits.len() ==> is_digit(#[trigger] digits[i]),
    ensures
        digit_count(digits) == digits.len(),
        fraction_count(digits) == 0,
        !digits.contains(0x2e),
    decreases digits.len(),
{
    if digits.contains(0x2e) {
        let k = choose|k: int| 0 <= k < digits.len() && digits[k] == 0x2e;
        assert(is_digit(digits[k]));
    }
    if digits.len() > 0 {
        let front = digits.drop_last();
        assert forall|i: int| 0 <= i < front.len() implies is_digit(#[trigger] front[i]) by {
            assert(front[i] == digits[i]);
        }
        assert(is_digit(digits[digits.len() - 1]));
        digits_are_plain(front);
    }
}

/// Digits alone are a lexeme without a sign, a point or an exponent.
proof fn digits_are_a_lexeme(raw: Seq<u8>)
    requires
        all_digits(raw),
    ensures
        unsigned_part(raw) == raw,
        mantissa_of(raw) == raw,
        !has_exponent(raw),
        !is_negative(raw),
        is_number_lexeme(raw),
        !raw.contains(0x2e),
        fraction_count(raw) == 0,
{
    assert(is_digit(raw[0]));
    assert forall|k: int| 0 <= k < raw.len() implies #[trigger] raw[k] != 0x65 && raw[k]
        != 0x45 by {
        assert(is_digit(raw[k]));
    }
    marks_are_found(raw, 0, raw.len() as int);
    assert(raw.take(raw.len() as int) =~= raw);
    digits_are_plain(raw);
}

/// Digits are read from left to right: one more digit makes ten of what was read, and adds itself.
pub proof fn integers_are_read_digit_by_digit(raw: Seq<u8>, digit: u8, value: i64)
    requires
        is_digit(digit),
        all_digits(raw),
        scanned_number(raw) == Some(ParsedNumber::Integer(value)),
    ensures
        scanned_number(seq![digit]) == Some(ParsedNumber::Integer((digit - 0x30) as i64)),
        value >= 0,
        value * 10 + (digit - 0x30) <= i64::MAX ==> scanned_number(raw.push(digit)) == Some(
            ParsedNumber::Integer((value * 10 + (digit - 0x30)) as i64),
        ),
        value * 10 + (digit - 0x30) > i64::MAX ==> scanned_number(raw.push(digit)) is None,
{
    let one = seq![digit];
    assert(all_digits(one));
    digits_are_a_lexeme(one);
    assert(one.drop_last() =~= Seq::empty());
    assert(digits_value(one) == (digit - 0x30)) by {
        assert(digits_value(Seq::<u8>::empty()) == 0);
    }
    digits_are_a_lexeme(raw);
    let more = raw.push(digit);
    assert forall|i: int| 0 <= i < more.len() implies is_digit(#[trigger] more[i]) by {
        if i < raw.len() {
            assert(more[i] == raw[i]);
        }
    }
    digits_are_a_lexeme(more);
    assert(more.drop_last() =~= raw);
}

/// A minus sign before digits negates them, and a plus sign leaves them as they are.
pub proof fn signs_negate_or_keep_integers(raw: Seq<u8>, value: i64)
    requires
        all_digits(raw),
        scanned_number(raw) == Some(ParsedNumber::Integer(value)),
    ensures
        scanned_number(seq![0x2du8] + raw) == Some(ParsedNumber::Integer((-value) as i64)),
        scanned_number(seq![0x2bu8] + raw) == Some(ParsedNumber::Integer(value)),
{
    digits_are_a_lexeme(raw);
    let minus = seq![0x2du8] + raw;
    let plus = seq![0x2bu8] + raw;
    assert(minus.skip(1) =~= raw);
    assert(plus.skip(1) =~= raw);
    assert(mantissa_of(minus) == mantissa_of(raw));
    assert(mantissa_of(plus) == mantissa_of(raw));
    assert(exponent_lexeme(minus) == exponent_lexeme(raw));
}

/// A minus sign negates what any lexeme denotes, and a plus sign leaves it as it is.
pub proof fn signs_negate_or_keep_numbers(raw: Seq<u8>, number: ContentNumber)
    requires
        raw.len() > 0,
        raw[0] != 0x2d,
        raw[0] != 0x2b,
        number_of(raw) == Ok::<ContentNumber, crate::content::vm_error::ContentVmError>(number),
    ensures
        number_of(seq![0x2du8] + raw) matches Ok(negated) && negated.scaled + number.scaled == 0,
        number_of(seq![0x2bu8] + raw) == number_of(raw),
{
    let minus = seq![0x2du8] + raw;
    let plus = seq![0x2bu8] + raw;
    assert(minus.skip(1) =~= raw);
    assert(plus.skip(1) =~= raw);
    assert(unsigned_part(raw) == raw);
    assert(mantissa_of(minus) == mantissa_of(raw));
    assert(mantissa_of(plus) == mantissa_of(raw));
    assert(exponent_of(minus) == exponent_of(raw));
    assert(exponent_of(plus) == exponent_of(raw));
    assert(scaled_magnitude(minus) == scaled_magnitude(raw));
    assert(scaled_magnitude(plus) == scaled_magnitude(raw));
}

/// A decimal lexeme: digits, a point, and digits.
pub open spec fn decimal(whole: Seq<u8>, part: Seq<u8>) -> Seq<u8> {
    whole + seq![0x2eu8] + part
}

proof fn decimals_are_lexemes(whole: Seq<u8>, part: Seq<u8>)
    requires
        all_digits(whole),
        forall|i: int| 0 <= i < part.len() ==> is_digit(#[trigger] part[i]),
    ensures
        ({
            let raw = decimal(whole, part);
            &&& unsigned_part(raw) == raw
            &&& mantissa_of(raw) == raw
            &&& !has_exponent(raw)
            &&& !is_negative(raw)
            &&& mantissa_ok(raw)
            &&& is_number_lexeme(raw)
            &&& raw.contains(0x2e)
            &&& fraction_count(raw) == part.len()
            &&& digit_count(raw) > 0
        }),
    decreases part.len(),
{
    let raw = decimal(whole, part);
    assert(is_digit(whole[0]));
    assert(raw[0] == whole[0]);
    assert forall|k: int| 0 <= k < raw.len() implies is_digit(#[trigger] raw[k]) || (raw[k] == 0x2e
        && k == whole.len()) by {
        if k < whole.len() {
            assert(raw[k] == whole[k]);
            assert(is_digit(whole[k]));
        } else if k > whole.len() {
            assert(raw[k] == part[k - whole.len() - 1]);
        }
    }
    assert forall|k: int| 0 <= k < raw.len() implies #[trigger] raw[k] != 0x65 && raw[k]
        != 0x45 by {
        assert(is_digit(raw[k]) || raw[k] == 0x2e);
    }
    marks_are_found(raw, 0, raw.len() as int);
    assert(raw.take(raw.len() as int) =~= raw);
    assert(raw[whole.len() as int] == 0x2e);
    assert forall|i: int, j: int|
        #![trigger raw[i], raw[j]]
        0 <= i < j < raw.len() implies raw[i] != 0x2e || raw[j] != 0x2e by {
        assert(is_digit(raw[i]) || i == whole.len());
        assert(is_digit(raw[j]) || j == whole.len());
    }
    if part.len() > 0 {
        let front = part.drop_last();
        assert forall|i: int| 0 <= i < front.len() implies is_digit(#[trigger] front[i]) by {
            assert(front[i] == part[i]);
        }
        decimals_are_lexemes(whole, front);
        assert(raw.drop_last() =~= decimal(whole, front));
        assert(is_digit(part[part.len() - 1]));
        assert(raw.last() == part.last());
    } else {
        assert(raw.drop_last() =~= whole);
        digits_are_plain(whole);
    }
}

proof fn powers_step(exponent: nat)
    ensures
        pow10(exponent + 1) == 10 * pow10(exponent),
        pow10(exponent) > 0,
    decreases exponent,
{
    if exponent > 0 {
        powers_step((exponent - 1) as nat);
    }
}

/// A point behind digits changes nothing: what they denote is that many units.
pub proof fn a_point_behind_digits_changes_nothing(whole: Seq<u8>)
    requires
        all_digits(whole),
    ensures
        number_of(decimal(whole, Seq::empty())) == number_of(whole),
{
    let raw = decimal(whole, Seq::empty());
    decimals_are_lexemes(whole, Seq::empty());
    digits_are_a_lexeme(whole);
    assert(raw.drop_last() =~= whole);
    assert(digits_value(raw) == digits_value(whole));
}

/// Digits behind the point are worth a tenth of the one before: the one after `part` adds itself,
/// divided by ten as often as there are digits.
pub proof fn digits_behind_the_point_are_fractions(
    whole: Seq<u8>,
    part: Seq<u8>,
    digit: u8,
    number: ContentNumber,
)
    requires
        all_digits(whole),
        forall|i: int| 0 <= i < part.len() ==> is_digit(#[trigger] part[i]),
        is_digit(digit),
        part.len() <= 8,
        number_of(decimal(whole, part)) == Ok::<
            ContentNumber,
            crate::content::vm_error::ContentVmError,
        >(number),
        number.scaled + (digit - 0x30) * pow10((8 - part.len()) as nat) <= i64::MAX,
    ensures
        number_of(decimal(whole, part.push(digit))) matches Ok(more) && more.scaled == number.scaled
            + (digit - 0x30) * pow10((8 - part.len()) as nat),
        number.scaled >= 0,
{
    let raw = decimal(whole, part);
    let longer = part.push(digit);
    let more = decimal(whole, longer);
    assert forall|i: int| 0 <= i < longer.len() implies is_digit(#[trigger] longer[i]) by {
        if i < part.len() {
            assert(longer[i] == part[i]);
        }
    }
    decimals_are_lexemes(whole, part);
    decimals_are_lexemes(whole, longer);
    assert(more.drop_last() =~= raw);
    assert(more.last() == digit);
    let digits = digits_value(raw) as int;
    let worth = (digit - 0x30) as int;
    assert(digits_value(more) == digits * 10 + worth);
    let small = pow10((8 - part.len()) as nat) as int;
    let large = pow10((9 - part.len()) as nat) as int;
    powers_step((8 - part.len()) as nat);
    assert(large == 10 * small);
    assert((digits * 10 + worth) * small == digits * large + worth * small) by (nonlinear_arith)
        requires
            large == 10 * small,
    ;
    assert(digits * large >= 0 && worth * small >= 0) by (nonlinear_arith)
        requires
            digits >= 0,
            worth >= 0,
            large > 0,
            small > 0,
    ;
    assert(0 * large == 0 && 0 * small == 0) by (nonlinear_arith);
    assert(scaled_magnitude(raw) == Some((digits * large) as nat));
    assert(scaled_magnitude(more) == Some(((digits * 10 + worth) * small) as nat));
}

pub(crate) proof fn powers_add(left: nat, right: nat)
    ensures
        pow10(left + right) == pow10(left) * pow10(right),
        pow10(left) > 0,
    decreases left,
{
    if left > 0 {
        powers_add((left - 1) as nat, right);
        let front = pow10((left - 1) as nat) as int;
        let back = pow10(right) as int;
        assert((10 * front) * back == 10 * (front * back)) by (nonlinear_arith);
        assert(pow10(left + right) == 10 * pow10((left - 1 + right) as nat));
    } else {
        assert(pow10(left) * pow10(right) == pow10(right)) by (nonlinear_arith)
            requires
                pow10(left) == 1,
        ;
    }
}

/// The parts of a lexeme with an exponent.
proof fn exponents_are_parts(mantissa: Seq<u8>, tail: Seq<u8>)
    requires
        mantissa.len() > 0,
        mantissa[0] != 0x2b,
        mantissa[0] != 0x2d,
        forall|k: int|
            0 <= k < mantissa.len() ==> #[trigger] mantissa[k] != 0x65 && mantissa[k] != 0x45,
    ensures
        ({
            let raw = mantissa + seq![0x65u8] + tail;
            &&& unsigned_part(raw) == raw
            &&& mantissa_of(raw) == mantissa
            &&& has_exponent(raw)
            &&& exponent_lexeme(raw) == tail
            &&& !is_negative(raw)
        }),
{
    let raw = mantissa + seq![0x65u8] + tail;
    assert(raw[0] == mantissa[0]);
    assert forall|k: int| 0 <= k < mantissa.len() implies #[trigger] raw[k] != 0x65 && raw[k]
        != 0x45 by {
        assert(raw[k] == mantissa[k]);
    }
    marks_are_found(raw, 0, mantissa.len() as int);
    assert(raw.take(mantissa.len() as int) =~= mantissa);
    assert(raw.skip(mantissa.len() + 1int) =~= tail);
}

/// An exponent moves the point: to the right by its digits, and with a minus sign to the left.
pub proof fn exponents_move_the_point(
    whole: Seq<u8>,
    part: Seq<u8>,
    exponent: Seq<u8>,
    number: ContentNumber,
)
    requires
        all_digits(whole),
        forall|i: int| 0 <= i < part.len() ==> is_digit(#[trigger] part[i]),
        all_digits(exponent),
        part.len() <= 9,
        number_of(decimal(whole, part)) == Ok::<
            ContentNumber,
            crate::content::vm_error::ContentVmError,
        >(number),
    ensures
        number_of(decimal(whole, part) + seq![0x65u8] + exponent) matches Ok(moved) ==> moved.scaled
            == number.scaled * pow10(digits_value(exponent)),
        number_of(decimal(whole, part) + seq![0x65u8] + (seq![0x2du8] + exponent)) matches Ok(moved)
            ==> moved.scaled * pow10(digits_value(exponent)) == number.scaled,
{
    let mantissa = decimal(whole, part);
    decimals_are_lexemes(whole, part);
    assert forall|k: int| 0 <= k < mantissa.len() implies #[trigger] mantissa[k] != 0x65
        && mantissa[k] != 0x45 by {
        assert(is_digit(mantissa[k]) || mantissa[k] == 0x2e);
    }
    assert(mantissa[0] == whole[0]);
    assert(is_digit(whole[0]));
    digits_are_a_lexeme(exponent);
    let minus = seq![0x2du8] + exponent;
    assert(minus.skip(1) =~= exponent);
    exponents_are_parts(mantissa, exponent);
    exponents_are_parts(mantissa, minus);
    let e = digits_value(exponent);
    let right = mantissa + seq![0x65u8] + exponent;
    let left = mantissa + seq![0x65u8] + minus;
    assert(exponent_of(right) == e);
    assert(exponent_of(left) == -(e as int));
    let digits = digits_value(mantissa) as int;
    let shift = 9 - part.len();
    let scale = pow10(shift as nat) as int;
    let far = pow10(e) as int;
    powers_add(shift as nat, e);
    powers_add(e, 0);
    assert(0 * scale == 0 && 0 * far == 0) by (nonlinear_arith);
    assert(number.scaled == digits * scale);
    assert(digits * (scale * far) == (digits * scale) * far) by (nonlinear_arith);
    if let Ok(moved) = number_of(left) {
        if digits != 0 {
            if shift >= e {
                let rest = pow10((shift - e) as nat) as int;
                powers_add((shift - e) as nat, e);
                assert(moved.scaled == digits * rest);
                assert((digits * rest) * far == digits * (rest * far)) by (nonlinear_arith);
            } else {
                let rest = pow10((e - shift) as nat) as int;
                powers_add((e - shift) as nat, shift as nat);
                let quotient = digits / rest;
                assert(moved.scaled == quotient);
                assert(digits == quotient * rest) by (nonlinear_arith)
                    requires
                        quotient == digits / rest,
                        digits % rest == 0,
                        rest > 0,
                ;
                assert(quotient * (rest * scale) == (quotient * rest) * scale) by (nonlinear_arith);
            }
        }
    }
}

/// An integer denotes the same number whether it is read as an integer or as a number: that many
/// billions of billionths.
pub proof fn integers_are_whole_numbers(raw: Seq<u8>, value: i64)
    requires
        scanned_number(raw) == Some(ParsedNumber::Integer(value)),
    ensures
        number_of(raw) is Ok <==> i64::MIN <= value * 1_000_000_000 <= i64::MAX,
        number_of(raw) matches Ok(number) ==> number.scaled == value * 1_000_000_000,
{
    let mantissa = mantissa_of(raw);
    let digits = digits_value(mantissa);
    if mantissa.len() > 0 {
        if mantissa.drop_last().contains(0x2e) {
            let front = mantissa.drop_last();
            let k = choose|k: int| 0 <= k < front.len() && front[k] == 0x2e;
            assert(mantissa[k] == 0x2e);
        }
        if mantissa.last() == 0x2e {
            assert(mantissa[mantissa.len() - 1] == 0x2e);
        }
    }
    assert(fraction_count(mantissa) == 0);
    assert(pow10(9) == 1_000_000_000) by {
        reveal_with_fuel(pow10, 10);
    }
    assert(exponent_of(raw) - fraction_count(mantissa) + 9 == 9);
    assert(scaled_magnitude(raw) == Some((digits * 1_000_000_000) as nat));
    assert(digits as int == value || digits as int == -value);
}

} // verus!
