//! Exact fixed-point content numbers.

use core::cmp::Ordering;

use vstd::prelude::*;
use vstd::std_specs::cmp::PartialOrdSpec;

use crate::content::vm_error::{vm_failure_of, ContentVmError, ContentVmErrorCode};

verus! {

/// Exact signed PDF content number represented with nine decimal fractional digits.
///
/// Construction never uses floating-point arithmetic. Negative zero is normalized to zero, and
/// values that would require discarding nonzero decimal digits are rejected explicitly.
#[derive(Clone, Copy, PartialEq, Eq, Ord, Hash, Structural)]
pub struct ContentNumber {
    pub scaled: i64,
}

/// The scaled integer of one.
pub const SCALED_ONE: i64 = 1_000_000_000;

/// A power of ten.
pub open spec fn pow10(exponent: nat) -> nat
    decreases exponent,
{
    if exponent == 0 {
        1
    } else {
        10 * pow10((exponent - 1) as nat)
    }
}

/// Whether a byte is a decimal digit.
pub open spec fn is_digit(byte: u8) -> bool {
    0x30 <= byte <= 0x39
}

/// The integer that the digits of a mantissa spell, its decimal point left out.
pub open spec fn digits_value(mantissa: Seq<u8>) -> nat
    decreases mantissa.len(),
{
    if mantissa.len() == 0 {
        0
    } else if is_digit(mantissa.last()) {
        digits_value(mantissa.drop_last()) * 10 + (mantissa.last() - 0x30) as nat
    } else {
        digits_value(mantissa.drop_last())
    }
}

/// How many digits a mantissa has.
pub open spec fn digit_count(mantissa: Seq<u8>) -> nat
    decreases mantissa.len(),
{
    if mantissa.len() == 0 {
        0
    } else if is_digit(mantissa.last()) {
        digit_count(mantissa.drop_last()) + 1
    } else {
        digit_count(mantissa.drop_last())
    }
}

/// How many digits follow the decimal point.
pub open spec fn fraction_count(mantissa: Seq<u8>) -> nat
    decreases mantissa.len(),
{
    if mantissa.len() == 0 || mantissa.last() == 0x2e {
        0
    } else if mantissa.drop_last().contains(0x2e) {
        fraction_count(mantissa.drop_last()) + 1
    } else {
        0
    }
}

/// Whether a mantissa is digits with at most one decimal point.
pub open spec fn mantissa_ok(mantissa: Seq<u8>) -> bool {
    &&& forall|i: int|
        0 <= i < mantissa.len() ==> is_digit(#[trigger] mantissa[i]) || mantissa[i] == 0x2e
    &&& forall|i: int, j: int|
        #![trigger mantissa[i], mantissa[j]]
        0 <= i < j < mantissa.len() ==> mantissa[i] != 0x2e || mantissa[j] != 0x2e
}

/// Position of the exponent mark from `i` on, or the length where there is none.
pub open spec fn exponent_mark(unsigned: Seq<u8>, i: int) -> int
    decreases unsigned.len() - i,
{
    if i >= unsigned.len() || unsigned[i] == 0x65 || unsigned[i] == 0x45 {
        i
    } else {
        exponent_mark(unsigned, i + 1)
    }
}

/// Whether a number starts with a sign.
pub open spec fn has_sign(raw: Seq<u8>) -> bool {
    raw.len() > 0 && (raw[0] == 0x2b || raw[0] == 0x2d)
}

/// The number without its sign.
pub open spec fn unsigned_part(raw: Seq<u8>) -> Seq<u8> {
    if has_sign(raw) {
        raw.skip(1)
    } else {
        raw
    }
}

/// Whether the sign is a minus.
pub open spec fn is_negative(raw: Seq<u8>) -> bool {
    raw.len() > 0 && raw[0] == 0x2d
}

/// Whether every byte is a digit, and there is one.
pub open spec fn all_digits(digits: Seq<u8>) -> bool {
    &&& digits.len() > 0
    &&& forall|i: int| 0 <= i < digits.len() ==> is_digit(#[trigger] digits[i])
}

/// The mantissa of a number.
pub open spec fn mantissa_of(raw: Seq<u8>) -> Seq<u8> {
    let unsigned = unsigned_part(raw);
    unsigned.take(exponent_mark(unsigned, 0))
}

/// The exponent of a number, with its sign.
pub open spec fn exponent_lexeme(raw: Seq<u8>) -> Seq<u8> {
    let unsigned = unsigned_part(raw);
    unsigned.skip(exponent_mark(unsigned, 0) + 1)
}

/// Whether a number has an exponent.
pub open spec fn has_exponent(raw: Seq<u8>) -> bool {
    exponent_mark(unsigned_part(raw), 0) < unsigned_part(raw).len()
}

/// The exponent of a number.
pub open spec fn exponent_of(raw: Seq<u8>) -> int {
    if !has_exponent(raw) {
        0
    } else {
        let lexeme = exponent_lexeme(raw);
        let magnitude = digits_value(unsigned_part(lexeme)) as int;
        if is_negative(lexeme) {
            -magnitude
        } else {
            magnitude
        }
    }
}

/// Whether the bytes are one decimal number: an optional sign, digits with at most one decimal
/// point, and an optional signed exponent.
pub open spec fn is_number_lexeme(raw: Seq<u8>) -> bool {
    &&& mantissa_ok(mantissa_of(raw))
    &&& digit_count(mantissa_of(raw)) > 0
    &&& has_exponent(raw) ==> all_digits(unsigned_part(exponent_lexeme(raw)))
}

/// The magnitude of a number in billionths, where it is a whole number of them.
pub open spec fn scaled_magnitude(raw: Seq<u8>) -> Option<nat> {
    let digits = digits_value(mantissa_of(raw));
    let shift = exponent_of(raw) - fraction_count(mantissa_of(raw)) + 9;
    if digits == 0 {
        Some(0)
    } else if shift >= 0 {
        Some(digits * pow10(shift as nat))
    } else if digits % pow10((-shift) as nat) == 0 {
        Some(digits / pow10((-shift) as nat))
    } else {
        None
    }
}

/// What a lexeme denotes: its exact value in billionths, or why it has none.
pub open spec fn number_of(raw: Seq<u8>) -> Result<ContentNumber, ContentVmError> {
    if !is_number_lexeme(raw) {
        Err(vm_failure_of(ContentVmErrorCode::InvalidNumber, None))
    } else {
        match scaled_magnitude(raw) {
            None => Err(vm_failure_of(ContentVmErrorCode::NumericPrecision, None)),
            Some(magnitude) => {
                let value = if is_negative(raw) {
                    -(magnitude as int)
                } else {
                    magnitude as int
                };
                if i64::MIN <= value <= i64::MAX {
                    Ok(ContentNumber { scaled: value as i64 })
                } else {
                    Err(vm_failure_of(ContentVmErrorCode::NumericOverflow, None))
                }
            },
        }
    }
}

proof fn pow10_adds(left: nat, right: nat)
    ensures
        pow10(left + right) == pow10(left) * pow10(right),
        pow10(left) > 0,
    decreases left,
{
    if left > 0 {
        pow10_adds((left - 1) as nat, right);
        assert(pow10(left + right) == 10 * pow10((left - 1 + right) as nat));
        assert(10 * (pow10((left - 1) as nat) * pow10(right)) == (10 * pow10((left - 1) as nat))
            * pow10(right)) by (nonlinear_arith);
    } else {
        assert(pow10(left) * pow10(right) == pow10(right)) by (nonlinear_arith)
            requires
                pow10(left) == 1,
        ;
    }
}

proof fn pow10_grows(low: nat, high: nat)
    requires
        low <= high,
    ensures
        pow10(low) <= pow10(high),
        pow10(low) > 0,
{
    pow10_adds(low, (high - low) as nat);
    pow10_adds((high - low) as nat, 0);
    assert(pow10(low) <= pow10(low) * pow10((high - low) as nat)) by (nonlinear_arith)
        requires
            pow10((high - low) as nat) >= 1,
            pow10(low) >= 0,
    ;
}

proof fn pow10_table()
    ensures
        pow10(18) == 1_000_000_000_000_000_000,
        pow10(19) == 10_000_000_000_000_000_000,
        pow10(20) == 100_000_000_000_000_000_000,
{
    assert(pow10(5) == 100_000) by {
        reveal_with_fuel(pow10, 6);
    }
    pow10_adds(5, 5);
    pow10_adds(10, 5);
    assert(pow10(3) == 1000) by {
        reveal_with_fuel(pow10, 4);
    }
    pow10_adds(15, 3);
    assert(pow10(19) == 10 * pow10(18));
    assert(pow10(20) == 10 * pow10(19));
}

/// Which way an exponent is out of range.
pub(crate) enum ParsedExponent {
    Finite(i128),
    PositiveOverflow,
    NegativeOverflow,
}

/// A bound beyond every exponent that a nonzero number could have.
pub(crate) const EXPONENT_BOUND: i128 = 0x4000_0000_0000_0000_0000_0000;

fn small_pow10(exponent: u32) -> (power: u128)
    requires
        exponent <= 19,
    ensures
        power == pow10(exponent as nat),
        power <= 10_000_000_000_000_000_000,
{
    proof {
        pow10_table();
    }
    let mut power: u128 = 1;
    let mut i: u32 = 0;
    while i < exponent
        invariant
            i <= exponent <= 19,
            power == pow10(i as nat),
            pow10(19) == 10_000_000_000_000_000_000,
            power <= pow10(19),
        decreases exponent - i,
    {
        proof {
            pow10_grows((i + 1) as nat, 19);
        }
        power = power * 10;
        i = i + 1;
    }
    power
}

pub(crate) fn parse_exponent(raw: &[u8]) -> (exponent: Option<ParsedExponent>)
    ensures
        exponent is None <==> !all_digits(unsigned_part(raw@)),
        exponent matches Some(parsed) ==> {
            let magnitude = digits_value(unsigned_part(raw@)) as int;
            let value = if is_negative(raw@) {
                -magnitude
            } else {
                magnitude
            };
            match parsed {
                ParsedExponent::Finite(finite) => finite == value && -EXPONENT_BOUND <= value
                    <= EXPONENT_BOUND,
                ParsedExponent::PositiveOverflow => value > EXPONENT_BOUND,
                ParsedExponent::NegativeOverflow => value < -EXPONENT_BOUND,
            }
        },
{
    if raw.len() == 0 {
        return None;
    }
    let negative = raw[0] == 0x2d;
    let start: usize = if raw[0] == 0x2d || raw[0] == 0x2b {
        1
    } else {
        0
    };
    let ghost digits = unsigned_part(raw@);
    if start == raw.len() {
        return None;
    }
    let mut magnitude: i128 = 0;
    let mut beyond = false;
    let mut i: usize = start;
    while i < raw.len()
        invariant
            start <= i <= raw@.len(),
            start <= 1,
            digits == raw@.skip(start as int),
            digits == unsigned_part(raw@),
            forall|k: int| 0 <= k < i - start ==> is_digit(#[trigger] digits[k]),
            !beyond ==> magnitude == digits_value(digits.take(i - start)) && 0 <= magnitude
                <= EXPONENT_BOUND,
            beyond ==> digits_value(digits.take(i - start)) > EXPONENT_BOUND,
        decreases raw@.len() - i,
    {
        let byte: u8 = raw[i];
        assert(digits[i - start] == byte);
        if byte < 0x30 || byte > 0x39 {
            return None;
        }
        proof {
            assert(digits.take(i + 1 - start).drop_last() =~= digits.take(i - start));
            assert(digits.take(i + 1 - start).last() == byte);
        }
        if !beyond {
            magnitude = magnitude * 10 + (byte - 0x30) as i128;
            if magnitude > EXPONENT_BOUND {
                beyond = true;
            }
        }
        i = i + 1;
    }
    assert(digits.take(i - start) =~= digits);
    if beyond {
        if negative {
            Some(ParsedExponent::NegativeOverflow)
        } else {
            Some(ParsedExponent::PositiveOverflow)
        }
    } else if negative {
        Some(ParsedExponent::Finite(-magnitude))
    } else {
        Some(ParsedExponent::Finite(magnitude))
    }
}

/// A mantissa read up to some byte: its digits are `significant` followed by `zeros` zeros.
pub(crate) struct Mantissa {
    pub(crate) significant: u128,
    pub(crate) beyond: bool,
    pub(crate) zeros: usize,
    pub(crate) fraction: usize,
    pub(crate) digits: usize,
    pub(crate) point: bool,
}

pub(crate) open spec fn mantissa_reads(
    state: Mantissa,
    read: Seq<u8>,
    exact: nat,
) -> bool {
    &&& mantissa_ok(read)
    &&& digits_value(read) == exact * pow10(state.zeros as nat)
    &&& digit_count(read) == state.digits
    &&& fraction_count(read) == state.fraction
    &&& state.point == read.contains(0x2e)
    &&& state.zeros <= state.digits <= read.len()
    &&& state.fraction <= read.len()
    &&& exact == 0 ==> state.zeros == 0
    &&& exact != 0 ==> exact % 10 != 0
    &&& !state.beyond ==> state.significant == exact && state.significant
        <= 10_000_000_000_000_000_000
    &&& state.beyond ==> exact > 10_000_000_000_000_000_000
}

/// Reads one more digit of a mantissa.
fn read_digit(state: Mantissa, byte: u8, Ghost(read): Ghost<Seq<u8>>, Ghost(exact): Ghost<nat>) -> (next:
    (Mantissa, Ghost<nat>))
    requires
        mantissa_reads(state, read, exact),
        is_digit(byte),
        read.len() < usize::MAX,
    ensures
        mantissa_reads(next.0, read.push(byte), next.1@),
{
    let ghost now = read.push(byte);
    proof {
        pow10_table();
        assert(now.drop_last() =~= read);
        assert forall|i: int| 0 <= i < now.len() implies is_digit(#[trigger] now[i]) || now[i]
            == 0x2e by {
            if i < read.len() {
                assert(now[i] == read[i]);
            }
        }
        assert forall|i: int, j: int|
            #![trigger now[i], now[j]]
            0 <= i < j < now.len() implies now[i] != 0x2e || now[j] != 0x2e by {
            if j < read.len() {
                assert(now[i] == read[i] && now[j] == read[j]);
            }
        }
        if read.contains(0x2e) {
            let k = choose|k: int| 0 <= k < read.len() && read[k] == 0x2e;
            assert(now[k] == 0x2e);
        }
        if now.contains(0x2e) {
            let k = choose|k: int| 0 <= k < now.len() && now[k] == 0x2e;
            assert(read[k] == 0x2e);
        }
    }
    let fraction: usize = if state.point {
        state.fraction + 1
    } else {
        state.fraction
    };
    proof {
        if !state.point {
            assert(!read.contains(0x2e));
        }
    }
    let digit: u128 = (byte - 0x30) as u128;
    if byte == 0x30 {
        let zeros: usize = if state.beyond || state.significant != 0 {
            state.zeros + 1
        } else {
            0
        };
        proof {
            if exact != 0 {
                assert(pow10(zeros as nat) == 10 * pow10(state.zeros as nat));
                assert(exact * pow10(zeros as nat) == exact * pow10(state.zeros as nat) * 10)
                    by (nonlinear_arith)
                    requires
                        pow10(zeros as nat) == 10 * pow10(state.zeros as nat),
                ;
            }
        }
        return (
            Mantissa {
                significant: state.significant,
                beyond: state.beyond,
                zeros,
                fraction,
                digits: state.digits + 1,
                point: state.point,
            },
            Ghost(exact),
        );
    }
    let ghost next = (exact * pow10((state.zeros + 1) as nat) + digit) as nat;
    proof {
        let wide = pow10((state.zeros + 1) as nat);
        assert(wide == 10 * pow10(state.zeros as nat));
        assert(exact * wide == exact * pow10(state.zeros as nat) * 10) by (nonlinear_arith)
            requires
                wide == 10 * pow10(state.zeros as nat),
        ;
        assert(next == digits_value(read) * 10 + digit);
        assert(next % 10 == digit);
        assert(next * pow10(0) == next) by (nonlinear_arith)
            requires
                pow10(0) == 1,
        ;
        assert(pow10(0) == 1);
        pow10_grows(1, (state.zeros + 1) as nat);
        assert(pow10(1) == 10) by {
            reveal_with_fuel(pow10, 2);
        }
        assert(exact * wide >= exact * 10) by (nonlinear_arith)
            requires
                wide >= 10,
                exact >= 0,
        ;
    }
    if state.beyond {
        return (
            Mantissa {
                significant: state.significant,
                beyond: true,
                zeros: 0,
                fraction,
                digits: state.digits + 1,
                point: state.point,
            },
            Ghost(next),
        );
    }
    if state.significant != 0 && state.zeros >= 19 {
        proof {
            pow10_grows(20, (state.zeros + 1) as nat);
            assert(next > 10_000_000_000_000_000_000) by (nonlinear_arith)
                requires
                    next >= exact * pow10((state.zeros + 1) as nat),
                    exact >= 1,
                    pow10((state.zeros + 1) as nat) >= 100_000_000_000_000_000_000,
            ;
        }
        return (
            Mantissa {
                significant: state.significant,
                beyond: true,
                zeros: 0,
                fraction,
                digits: state.digits + 1,
                point: state.point,
            },
            Ghost(next),
        );
    }
    let factor: u128 = if state.significant == 0 {
        10
    } else {
        small_pow10(state.zeros as u32 + 1)
    };
    proof {
        assert(state.significant * factor <= 10_000_000_000_000_000_000u128
            * 10_000_000_000_000_000_000u128) by (nonlinear_arith)
            requires
                state.significant <= 10_000_000_000_000_000_000,
                factor <= 10_000_000_000_000_000_000,
        ;
        if state.significant == 0 {
            assert(exact * pow10((state.zeros + 1) as nat) == 0) by (nonlinear_arith)
                requires
                    exact == 0,
            ;
        }
    }
    let significant: u128 = state.significant * factor + digit;
    assert(significant == next);
    (
        Mantissa {
            significant,
            beyond: significant > 10_000_000_000_000_000_000,
            zeros: 0,
            fraction,
            digits: state.digits + 1,
            point: state.point,
        },
        Ghost(next),
    )
}

/// Reads the decimal point of a mantissa that has none yet.
proof fn read_point(state: Mantissa, read: Seq<u8>, exact: nat)
    requires
        mantissa_reads(state, read, exact),
        !state.point,
    ensures
        mantissa_reads(
            Mantissa { point: true, fraction: 0, ..state },
            read.push(0x2e),
            exact,
        ),
{
    let now = read.push(0x2e);
    assert(now.drop_last() =~= read);
    assert forall|i: int| 0 <= i < now.len() implies is_digit(#[trigger] now[i]) || now[i]
        == 0x2e by {
        if i < read.len() {
            assert(now[i] == read[i]);
        }
    }
    assert forall|i: int, j: int|
        #![trigger now[i], now[j]]
        0 <= i < j < now.len() implies now[i] != 0x2e || now[j] != 0x2e by {
        assert(now[i] == read[i]);
        assert(read[i] != 0x2e);
    }
    assert(now[now.len() - 1] == 0x2e);
}

/// What stripping trailing zeros leaves of a division by a power of ten.
proof fn strip_zeros(exact: nat, zeros: nat, shift: int)
    requires
        exact != 0,
        exact % 10 != 0,
        shift < 0,
    ensures
        ({
            let digits = exact * pow10(zeros);
            let divisor = pow10((-shift) as nat);
            &&& zeros + shift < 0 ==> digits % divisor != 0
            &&& zeros + shift >= 0 ==> digits % divisor == 0 && digits / divisor == exact * pow10(
                (zeros + shift) as nat,
            )
        }),
{
    let digits = exact * pow10(zeros);
    let divisor = pow10((-shift) as nat);
    pow10_adds((-shift) as nat, 0);
    if zeros + shift >= 0 {
        let rest = (zeros + shift) as nat;
        pow10_adds((-shift) as nat, rest);
        assert(digits == (exact * pow10(rest)) * divisor) by (nonlinear_arith)
            requires
                digits == exact * pow10(zeros),
                pow10(zeros) == divisor * pow10(rest),
        ;
        vstd::arithmetic::div_mod::lemma_fundamental_div_mod_converse(
            digits as int,
            divisor as int,
            (exact * pow10(rest)) as int,
            0,
        );
    } else {
        let more = (-shift - zeros) as nat;
        pow10_adds(zeros, more);
        pow10_adds(zeros, 0);
        if digits % divisor == 0 {
            let q = digits / divisor;
            vstd::arithmetic::div_mod::lemma_fundamental_div_mod(digits as int, divisor as int);
            assert(digits == q * divisor) by (nonlinear_arith)
                requires
                    digits == divisor * q + 0,
            ;
            assert(exact == q * pow10(more)) by (nonlinear_arith)
                requires
                    exact * pow10(zeros) == q * divisor,
                    divisor == pow10(zeros) * pow10(more),
                    pow10(zeros) > 0,
            ;
            let less = (more - 1) as nat;
            assert(pow10(more) == 10 * pow10(less));
            assert(exact == 10 * (q * pow10(less))) by (nonlinear_arith)
                requires
                    exact == q * pow10(more),
                    pow10(more) == 10 * pow10(less),
            ;
            vstd::arithmetic::div_mod::lemma_fundamental_div_mod_converse(
                exact as int,
                10,
                (q * pow10(less)) as int,
                0,
            );
        }
    }
}

proof fn exponent_mark_meaning(unsigned: Seq<u8>, i: int)
    requires
        0 <= i <= unsigned.len(),
    ensures
        i <= exponent_mark(unsigned, i) <= unsigned.len(),
    decreases unsigned.len() - i,
{
    if i < unsigned.len() && unsigned[i] != 0x65 && unsigned[i] != 0x45 {
        exponent_mark_meaning(unsigned, i + 1);
    }
}

/// A mantissa that has a bad byte among its first ones is bad.
proof fn bad_prefix(mantissa: Seq<u8>, i: int)
    requires
        0 <= i < mantissa.len(),
        (!is_digit(mantissa[i]) && mantissa[i] != 0x2e) || (mantissa[i] == 0x2e && mantissa.take(
            i,
        ).contains(0x2e)),
    ensures
        !mantissa_ok(mantissa),
{
    if mantissa[i] == 0x2e {
        let k = choose|k: int| 0 <= k < mantissa.take(i).len() && mantissa.take(i)[k] == 0x2e;
        assert(mantissa[k] == 0x2e);
    }
}

fn invalid_number() -> (error: ContentVmError)
    ensures
        error == vm_failure_of(ContentVmErrorCode::InvalidNumber, None),
{
    ContentVmError::new(ContentVmErrorCode::InvalidNumber, None)
}

fn numeric_precision() -> (error: ContentVmError)
    ensures
        error == vm_failure_of(ContentVmErrorCode::NumericPrecision, None),
{
    ContentVmError::new(ContentVmErrorCode::NumericPrecision, None)
}

fn numeric_overflow() -> (error: ContentVmError)
    ensures
        error == vm_failure_of(ContentVmErrorCode::NumericOverflow, None),
{
    ContentVmError::new(ContentVmErrorCode::NumericOverflow, None)
}

/// Reads the mantissa that starts at `start`, up to its exponent mark or its end.
pub(crate) fn read_mantissa(raw: &[u8], start: usize) -> (read: Option<(Mantissa, usize, Ghost<nat>)>)
    requires
        start <= raw@.len(),
        unsigned_part(raw@) == raw@.skip(start as int),
    ensures
        read is None ==> !mantissa_ok(mantissa_of(raw@)),
        read matches Some((state, end, exact)) ==> {
            &&& end - start == exponent_mark(unsigned_part(raw@), 0)
            &&& start <= end <= raw@.len()
            &&& mantissa_reads(state, mantissa_of(raw@), exact@)
        },
{
    let ghost unsigned = unsigned_part(raw@);
    let ghost mark = exponent_mark(unsigned, 0);
    let ghost mantissa = mantissa_of(raw@);
    proof {
        exponent_mark_meaning(unsigned, 0);
        assert(unsigned.take(0) =~= Seq::empty());
        assert(pow10(0) == 1);
        assert(!Seq::<u8>::empty().contains(0x2e));
    }
    let mut state = Mantissa {
        significant: 0,
        beyond: false,
        zeros: 0,
        fraction: 0,
        digits: 0,
        point: false,
    };
    let ghost mut exact: nat = 0;
    let mut i: usize = start;
    while i < raw.len() && raw[i] != 0x65 && raw[i] != 0x45
        invariant
            start <= i <= raw@.len(),
            unsigned == raw@.skip(start as int),
            mark == exponent_mark(unsigned, 0),
            mark == exponent_mark(unsigned, i - start),
            0 <= mark <= unsigned.len(),
            mantissa == unsigned.take(mark),
            mantissa == mantissa_of(raw@),
            mantissa_reads(state, unsigned.take(i - start), exact),
        decreases raw@.len() - i,
    {
        let byte: u8 = raw[i];
        let ghost at = i - start;
        let ghost read = unsigned.take(at);
        proof {
            assert(unsigned[at] == byte);
            exponent_mark_meaning(unsigned, at + 1);
            assert(mantissa[at] == byte);
            assert(unsigned.take(at + 1) =~= read.push(byte));
            assert(mantissa.take(at) =~= read);
        }
        if byte >= 0x30 && byte <= 0x39 {
            let (next, after) = read_digit(state, byte, Ghost(read), Ghost(exact));
            state = next;
            proof {
                exact = after@;
            }
        } else if byte == 0x2e && !state.point {
            proof {
                read_point(state, read, exact);
            }
            state.point = true;
            state.fraction = 0;
        } else {
            proof {
                bad_prefix(mantissa, at);
            }
            return None;
        }
        i = i + 1;
    }
    assert(i - start == mark);
    Some((state, i, Ghost(exact)))
}

/// The integer that a mantissa without a point spells, unless it is far beyond 64 bits.
pub(crate) fn plain_magnitude(
    state: &Mantissa,
    Ghost(read): Ghost<Seq<u8>>,
    Ghost(exact): Ghost<nat>,
) -> (magnitude: Option<u128>)
    requires
        mantissa_reads(*state, read, exact),
    ensures
        magnitude matches Some(value) ==> value == digits_value(read),
        magnitude is None ==> digits_value(read) >= 10_000_000_000_000_000_000,
{
    proof {
        pow10_table();
        pow10_grows(0, state.zeros as nat);
        assert(exact * pow10(state.zeros as nat) >= exact) by (nonlinear_arith)
            requires
                pow10(state.zeros as nat) >= 1,
        ;
    }
    if state.beyond {
        return None;
    }
    if state.significant == 0 {
        assert(exact * pow10(state.zeros as nat) == 0) by (nonlinear_arith)
            requires
                exact == 0,
        ;
        return Some(0);
    }
    if state.zeros > 19 {
        proof {
            pow10_grows(19, state.zeros as nat);
            assert(exact * pow10(state.zeros as nat) >= 10_000_000_000_000_000_000)
                by (nonlinear_arith)
                requires
                    exact >= 1,
                    pow10(state.zeros as nat) >= 10_000_000_000_000_000_000,
            ;
        }
        return None;
    }
    let factor: u128 = small_pow10(state.zeros as u32);
    proof {
        assert(state.significant * factor <= 10_000_000_000_000_000_000u128
            * 10_000_000_000_000_000_000u128) by (nonlinear_arith)
            requires
                state.significant <= 10_000_000_000_000_000_000,
                factor <= 10_000_000_000_000_000_000,
        ;
    }
    Some(state.significant * factor)
}

/// The magnitude of a number whose mantissa was read.
proof fn magnitude_of_parts(raw: Seq<u8>, state: Mantissa, exact: nat)
    requires
        mantissa_reads(state, mantissa_of(raw), exact),
    ensures
        exact == 0 ==> scaled_magnitude(raw) == Some(0nat),
        exact != 0 ==> {
            let total = exponent_of(raw) - state.fraction + 9 + state.zeros;
            &&& total < 0 ==> scaled_magnitude(raw) is None
            &&& total >= 0 ==> scaled_magnitude(raw) == Some(exact * pow10(total as nat)) && exact
                * pow10(total as nat) >= exact
            &&& total > 18 ==> exact * pow10(total as nat) >= 10_000_000_000_000_000_000
        },
{
    let digits = digits_value(mantissa_of(raw));
    let shift = exponent_of(raw) - state.fraction + 9;
    let total = shift + state.zeros;
    pow10_adds(state.zeros as nat, 0);
    if exact == 0 {
        assert(digits == 0) by (nonlinear_arith)
            requires
                digits == exact * pow10(state.zeros as nat),
                exact == 0,
        ;
    } else {
        assert(digits != 0) by (nonlinear_arith)
            requires
                digits == exact * pow10(state.zeros as nat),
                exact > 0,
                pow10(state.zeros as nat) > 0,
        ;
        if shift < 0 {
            strip_zeros(exact, state.zeros as nat, shift);
        } else {
            pow10_adds(state.zeros as nat, shift as nat);
            assert(digits * pow10(shift as nat) == exact * pow10(total as nat)) by (nonlinear_arith)
                requires
                    digits == exact * pow10(state.zeros as nat),
                    pow10(total as nat) == pow10(state.zeros as nat) * pow10(shift as nat),
            ;
        }
        if total >= 0 {
            pow10_grows(0, total as nat);
            assert(exact * pow10(total as nat) >= exact) by (nonlinear_arith)
                requires
                    pow10(total as nat) >= 1,
            ;
            if total > 18 {
                pow10_table();
                pow10_grows(19, total as nat);
                assert(exact * pow10(total as nat) >= 10_000_000_000_000_000_000)
                    by (nonlinear_arith)
                    requires
                        exact >= 1,
                        pow10(total as nat) >= 10_000_000_000_000_000_000,
                ;
            }
        }
    }
}

fn parse_content_number(raw: &[u8]) -> (number: Result<ContentNumber, ContentVmError>)
    ensures
        number == number_of(raw@),
{
    if raw.len() == 0 {
        assert(mantissa_of(raw@) =~= Seq::empty());
        return Err(invalid_number());
    }
    let negative = raw[0] == 0x2d;
    let start: usize = if raw[0] == 0x2d || raw[0] == 0x2b {
        1
    } else {
        0
    };
    proof {
        assert(raw@.skip(0) =~= raw@);
    }
    let (state, end, exact) = match read_mantissa(raw, start) {
        Some(read) => read,
        None => {
            return Err(invalid_number());
        },
    };
    if state.digits == 0 {
        return Err(invalid_number());
    }
    let exponent = if end == raw.len() {
        ParsedExponent::Finite(0)
    } else {
        let tail = vstd::slice::slice_subrange(raw, end + 1, raw.len());
        proof {
            assert(tail@ =~= exponent_lexeme(raw@));
        }
        match parse_exponent(tail) {
            Some(parsed) => parsed,
            None => {
                return Err(invalid_number());
            },
        }
    };
    assert(is_number_lexeme(raw@));
    proof {
        magnitude_of_parts(raw@, state, exact@);
    }
    if !state.beyond && state.significant == 0 {
        return Ok(ContentNumber { scaled: 0 });
    }
    let finite: i128 = match exponent {
        ParsedExponent::Finite(value) => value,
        ParsedExponent::PositiveOverflow => {
            return Err(numeric_overflow());
        },
        ParsedExponent::NegativeOverflow => {
            return Err(numeric_precision());
        },
    };
    let decimal_shift: i128 = finite - state.fraction as i128 + 9 + state.zeros as i128;
    if decimal_shift < 0 {
        return Err(numeric_precision());
    }
    if state.beyond || decimal_shift > 18 {
        return Err(numeric_overflow());
    }
    let factor: u128 = small_pow10(decimal_shift as u32);
    proof {
        pow10_table();
        assert(state.significant * factor <= 10_000_000_000_000_000_000u128
            * 10_000_000_000_000_000_000u128) by (nonlinear_arith)
            requires
                state.significant <= 10_000_000_000_000_000_000,
                factor <= 10_000_000_000_000_000_000,
        ;
    }
    signed_scaled(state.significant * factor, negative)
}

/// Gives a magnitude its sign, where the result fits.
fn signed_scaled(magnitude: u128, negative: bool) -> (number: Result<ContentNumber, ContentVmError>)
    ensures
        ({
            let value = if negative {
                -(magnitude as int)
            } else {
                magnitude as int
            };
            number == if i64::MIN <= value <= i64::MAX {
                Ok(ContentNumber { scaled: value as i64 })
            } else {
                Err(vm_failure_of(ContentVmErrorCode::NumericOverflow, None))
            }
        }),
{
    let largest: u128 = 0x7fff_ffff_ffff_ffff;
    if !negative {
        if magnitude > largest {
            return Err(numeric_overflow());
        }
        return Ok(ContentNumber { scaled: magnitude as i64 });
    }
    if magnitude > largest + 1 {
        return Err(numeric_overflow());
    }
    if magnitude == largest + 1 {
        Ok(ContentNumber { scaled: i64::MIN })
    } else {
        Ok(ContentNumber { scaled: -(magnitude as i64) })
    }
}

impl ContentNumber {
    /// Parses one complete PDF decimal number lexeme, with optional exponent notation.
    ///
    /// Integer, fractional, and exponent forms share the same exact conversion. Syntax errors,
    /// precision loss beyond nine decimal places, and signed fixed-point overflow have distinct
    /// stable [`ContentVmErrorCode`] values.
    pub fn parse(raw: &[u8]) -> (number: Result<Self, ContentVmError>)
        ensures
            number == number_of(raw@),
    {
        parse_content_number(raw)
    }

    /// Converts a scanner-owned PDF integer to the same exact nine-decimal representation.
    pub fn from_integer(value: i64) -> (number: Result<Self, ContentVmError>)
        ensures
            number == (if i64::MIN <= value * 1_000_000_000 <= i64::MAX {
                Ok(ContentNumber { scaled: (value * 1_000_000_000) as i64 })
            } else {
                Err(vm_failure_of(ContentVmErrorCode::NumericOverflow, None))
            }),
    {
        match value.checked_mul(1_000_000_000) {
            Some(scaled) => Ok(Self { scaled }),
            None => Err(numeric_overflow()),
        }
    }

    /// Returns exact zero.
    pub fn zero() -> (number: Self)
        ensures
            number.scaled == 0,
    {
        Self { scaled: 0 }
    }

    /// Returns exact one.
    pub fn one() -> (number: Self)
        ensures
            number.scaled == SCALED_ONE,
    {
        Self { scaled: SCALED_ONE }
    }

    /// Creates a value from its canonical nine-decimal scaled integer.
    pub fn from_scaled(value: i64) -> (number: Self)
        ensures
            number.scaled == value,
    {
        Self { scaled: value }
    }

    /// Returns the canonical nine-decimal scaled integer.
    pub fn scaled(self) -> (scaled: i64)
        ensures
            scaled == self.scaled,
    {
        self.scaled
    }
}

impl PartialOrd for ContentNumber {
    fn partial_cmp(&self, other: &Self) -> (order: Option<Ordering>) {
        if self.scaled < other.scaled {
            Some(Ordering::Less)
        } else if self.scaled == other.scaled {
            Some(Ordering::Equal)
        } else {
            Some(Ordering::Greater)
        }
    }
}

impl vstd::std_specs::cmp::PartialOrdSpecImpl for ContentNumber {
    open spec fn obeys_partial_cmp_spec() -> bool {
        true
    }

    open spec fn partial_cmp_spec(&self, other: &Self) -> Option<Ordering> {
        if self.scaled < other.scaled {
            Some(Ordering::Less)
        } else if self.scaled == other.scaled {
            Some(Ordering::Equal)
        } else {
            Some(Ordering::Greater)
        }
    }
}

/// Numbers are equal, and one comes before another, as their scaled integers do.
pub proof fn numbers_order_by_their_scaled_value(left: ContentNumber, right: ContentNumber)
    ensures
        ContentNumber::obeys_partial_cmp_spec(),
        left == right <==> left.scaled == right.scaled,
        left.partial_cmp_spec(&right) == Some(Ordering::Less) <==> left.scaled < right.scaled,
        left.partial_cmp_spec(&right) == Some(Ordering::Equal) <==> left.scaled == right.scaled,
        left.partial_cmp_spec(&right) == Some(Ordering::Greater) <==> left.scaled > right.scaled,
{
}

impl Default for ContentNumber {
    fn default() -> (number: Self)
        ensures
            number.scaled == 0,
    {
        Self { scaled: 0 }
    }
}

/// A lexeme whose digits are all zero denotes zero, whatever its sign and its exponent.
pub proof fn zero_has_no_sign(raw: Seq<u8>)
    requires
        is_number_lexeme(raw),
        digits_value(mantissa_of(raw)) == 0,
    ensures
        number_of(raw) == Ok::<ContentNumber, ContentVmError>(ContentNumber { scaled: 0 }),
{
}

/// Digits without a point or an exponent denote the integer that they spell: parsing them and
/// converting that integer agree.
pub proof fn integer_lexemes_denote_integers(raw: Seq<u8>)
    requires
        all_digits(unsigned_part(raw)),
    ensures
        is_number_lexeme(raw),
        ({
            let magnitude = digits_value(unsigned_part(raw)) as int;
            let value = if is_negative(raw) {
                -magnitude
            } else {
                magnitude
            };
            number_of(raw) == if i64::MIN <= value * 1_000_000_000 <= i64::MAX {
                Ok(ContentNumber { scaled: (value * 1_000_000_000) as i64 })
            } else {
                Err(vm_failure_of(ContentVmErrorCode::NumericOverflow, None))
            }
        }),
{
    let unsigned = unsigned_part(raw);
    digits_have_no_mark(unsigned, 0);
    assert(mantissa_of(raw) =~= unsigned);
    assert(!unsigned.contains(0x2e));
    plain_digits(unsigned);
    assert(pow10(9) == 1_000_000_000) by {
        reveal_with_fuel(pow10, 10);
    }
    let digits = digits_value(unsigned);
    let power = pow10(9);
    assert(digits * power == digits * 1_000_000_000) by (nonlinear_arith)
        requires
            power == 1_000_000_000,
    ;
    assert(exponent_of(raw) - fraction_count(mantissa_of(raw)) + 9 == 9);
    assert(scaled_magnitude(raw) == Some((digits * 1_000_000_000) as nat));
}

proof fn digits_have_no_mark(digits: Seq<u8>, i: int)
    requires
        all_digits(digits),
        0 <= i <= digits.len(),
    ensures
        exponent_mark(digits, i) == digits.len(),
    decreases digits.len() - i,
{
    if i < digits.len() {
        assert(is_digit(digits[i]));
        digits_have_no_mark(digits, i + 1);
    }
}

proof fn plain_digits(digits: Seq<u8>)
    requires
        forall|i: int| 0 <= i < digits.len() ==> is_digit(#[trigger] digits[i]),
    ensures
        digit_count(digits) == digits.len(),
        fraction_count(digits) == 0,
    decreases digits.len(),
{
    if digits.len() > 0 {
        let front = digits.drop_last();
        assert forall|i: int| 0 <= i < front.len() implies is_digit(#[trigger] front[i]) by {
            assert(front[i] == digits[i]);
        }
        assert(is_digit(digits[digits.len() - 1]));
        plain_digits(front);
        if front.contains(0x2e) {
            let k = choose|k: int| 0 <= k < front.len() && front[k] == 0x2e;
            assert(is_digit(front[k]));
        }
    }
}

} // verus!
