//! Registered external graphics states: constant alpha and blend mode.

use vstd::prelude::*;

use crate::bytes::model::SourceSnapshot;
use crate::content::model::ObjectRef;
use crate::content::number::{
    digit_count, digits_value, exponent_lexeme, exponent_mark, exponent_of, fraction_count,
    is_negative, is_number_lexeme, mantissa_of, mantissa_ok, parse_exponent, pow10, unsigned_part,
    ParsedExponent,
};
use crate::content::scene::{BlendMode, SceneUnit};

verus! {

/// Stable reason why a selected external graphics state is outside the registered subset.
#[derive(Clone, Copy, Debug, PartialEq, Eq, Structural)]
pub enum ContentExtGStateErrorKind {
    /// The supplied resource name is empty or above the fixed retained-name ceiling.
    InvalidName,
    /// The selected indirect object is not one direct dictionary.
    InvalidDictionary,
    /// A structural key occurs more than once.
    DuplicateEntry,
    /// `/Type`, `/CA`, `/ca`, or `/BM` has a malformed value.
    InvalidValue,
    /// The dictionary selects an entry outside the registered alpha/blend subset.
    UnsupportedEntry,
}

/// Source-redacted external graphics-state construction error.
#[derive(Clone, Copy, Debug, PartialEq, Eq, Structural)]
pub struct ContentExtGStateError {
    pub kind: ContentExtGStateErrorKind,
    pub reference: ObjectRef,
    pub offset: u64,
}

impl ContentExtGStateError {
    pub(crate) fn new(kind: ContentExtGStateErrorKind, reference: ObjectRef, offset: u64) -> (error:
        Self)
        ensures
            error == (ContentExtGStateError { kind, reference, offset }),
    {
        Self { kind, reference, offset }
    }

    /// Returns the stable rejected capability or syntax class.
    pub fn kind(self) -> (kind: ContentExtGStateErrorKind)
        ensures
            kind == self.kind,
    {
        self.kind
    }

    /// Returns the selected indirect object identity.
    pub fn reference(self) -> (reference: ObjectRef)
        ensures
            reference == self.reference,
    {
        self.reference
    }

    /// Returns the exact physical source offset associated with the rejection.
    pub fn offset(self) -> (offset: u64)
        ensures
            offset == self.offset,
    {
        self.offset
    }
}

/// Value of one dictionary entry, as far as a graphics state reads it.
pub enum SyntaxObject {
    /// A signed integer.
    Integer(i64),
    /// A real, by its lexeme.
    Real(Vec<u8>),
    /// A decoded name.
    Name(Vec<u8>),
    /// Any other object.
    Other,
}

/// One dictionary entry with the physical offset of its value.
pub struct SyntaxEntry {
    pub key: Vec<u8>,
    pub value_start: u64,
    pub value: SyntaxObject,
}

/// Direct value of a reopened object.
pub enum AttestedValue {
    /// The object has no direct value.
    Absent,
    /// The value at an offset is no dictionary.
    NoDictionary {
        /// Physical offset of the value.
        start: u64,
    },
    /// The entries of a dictionary in source order.
    Dictionary(Vec<SyntaxEntry>),
}

/// One reopened indirect object with the proof of where it came from.
pub struct AttestedObject {
    pub reference: ObjectRef,
    pub object_start: u64,
    pub snapshot: SourceSnapshot,
    pub revision_id: u64,
    pub revision_startxref: u64,
    pub value: AttestedValue,
}

/// A value of a dictionary entry.
pub enum SyntaxView {
    Integer(i64),
    Real(Seq<u8>),
    Name(Seq<u8>),
    Other,
}

/// A dictionary entry.
pub struct SyntaxEntryView {
    pub key: Seq<u8>,
    pub value_start: u64,
    pub value: SyntaxView,
}

impl View for SyntaxObject {
    type V = SyntaxView;

    open spec fn view(&self) -> SyntaxView {
        match self {
            SyntaxObject::Integer(value) => SyntaxView::Integer(*value),
            SyntaxObject::Real(raw) => SyntaxView::Real(raw@),
            SyntaxObject::Name(name) => SyntaxView::Name(name@),
            SyntaxObject::Other => SyntaxView::Other,
        }
    }
}

impl View for SyntaxEntry {
    type V = SyntaxEntryView;

    open spec fn view(&self) -> SyntaxEntryView {
        SyntaxEntryView {
            key: self.key@,
            value_start: self.value_start,
            value: self.value@,
        }
    }
}

/// The key of the type entry.
pub open spec fn key_type() -> Seq<u8> {
    seq![0x54u8, 0x79, 0x70, 0x65]
}

/// The name of a graphics state dictionary.
pub open spec fn name_ext_gstate() -> Seq<u8> {
    seq![0x45u8, 0x78, 0x74, 0x47, 0x53, 0x74, 0x61, 0x74, 0x65]
}

/// The key of stroking alpha.
pub open spec fn key_stroking_alpha() -> Seq<u8> {
    seq![0x43u8, 0x41]
}

/// The key of nonstroking alpha.
pub open spec fn key_nonstroking_alpha() -> Seq<u8> {
    seq![0x63u8, 0x61]
}

/// The key of the blend mode.
pub open spec fn key_blend_mode() -> Seq<u8> {
    seq![0x42u8, 0x4d]
}

/// The blend mode that a name selects.
pub open spec fn blend_mode_of(name: Seq<u8>) -> Option<BlendMode> {
    if name == seq![0x4eu8, 0x6f, 0x72, 0x6d, 0x61, 0x6c] {
        Some(BlendMode::Normal)
    } else if name == seq![0x4du8, 0x75, 0x6c, 0x74, 0x69, 0x70, 0x6c, 0x79] {
        Some(BlendMode::Multiply)
    } else if name == seq![0x53u8, 0x63, 0x72, 0x65, 0x65, 0x6e] {
        Some(BlendMode::Screen)
    } else {
        None
    }
}

/// The ratio that a decimal lexeme denotes, where its parts fit the 128-bit working range.
pub open spec fn ratio_of(raw: Seq<u8>) -> Option<(int, int)> {
    let digits = digits_value(mantissa_of(raw));
    let fraction = fraction_count(mantissa_of(raw)) as int;
    let exponent = exponent_of(raw);
    let scale = fraction - exponent;
    let power = pow10((if scale >= 0 {
        scale
    } else {
        -scale
    }) as nat) as int;
    let signed = if is_negative(raw) {
        -(digits as int)
    } else {
        digits as int
    };
    if !is_number_lexeme(raw) || digits > i128::MAX || fraction > i32::MAX || !(i32::MIN <= exponent
        <= i32::MAX) || !(i32::MIN <= scale <= i32::MAX) || power > i128::MAX {
        None
    } else if scale >= 0 {
        Some((signed, power))
    } else if digits * power > i128::MAX {
        None
    } else {
        Some((signed * power, 1))
    }
}

/// The nearest of 65535 steps, halves upwards, for a ratio in the closed unit interval.
pub open spec fn unit_of_ratio(ratio: (int, int)) -> Option<SceneUnit> {
    let (numerator, denominator) = ratio;
    if 0 <= numerator <= denominator && denominator > 0 && numerator * 65535 + denominator / 2
        <= i128::MAX {
        Some(SceneUnit { value: ((numerator * 65535 + denominator / 2) / denominator) as u16 })
    } else {
        None
    }
}

/// The unit value of an entry.
pub open spec fn unit_of(value: SyntaxView) -> Option<SceneUnit> {
    match value {
        SyntaxView::Integer(number) => if number == 0 || number == 1 {
            unit_of_ratio((number as int, 1))
        } else {
            None
        },
        SyntaxView::Real(raw) => match ratio_of(raw) {
            Some(ratio) => unit_of_ratio(ratio),
            None => None,
        },
        _ => None,
    }
}

/// What entries selected so far.
#[derive(Clone, Copy, PartialEq, Eq, Structural)]
pub struct ExtGStateSelection {
    pub seen_type: bool,
    pub stroking_alpha: Option<SceneUnit>,
    pub nonstroking_alpha: Option<SceneUnit>,
    pub blend_mode: Option<BlendMode>,
}

/// Nothing selected.
pub open spec fn no_selection() -> ExtGStateSelection {
    ExtGStateSelection {
        seen_type: false,
        stroking_alpha: None,
        nonstroking_alpha: None,
        blend_mode: None,
    }
}

/// What one entry adds to a selection.
pub open spec fn select(selection: ExtGStateSelection, entry: SyntaxEntryView) -> Result<
    ExtGStateSelection,
    ContentExtGStateErrorKind,
> {
    if entry.key == key_type() {
        if selection.seen_type {
            Err(ContentExtGStateErrorKind::DuplicateEntry)
        } else if entry.value != SyntaxView::Name(name_ext_gstate()) {
            Err(ContentExtGStateErrorKind::InvalidValue)
        } else {
            Ok(ExtGStateSelection { seen_type: true, ..selection })
        }
    } else if entry.key == key_stroking_alpha() {
        if selection.stroking_alpha is Some {
            Err(ContentExtGStateErrorKind::DuplicateEntry)
        } else if unit_of(entry.value) is None {
            Err(ContentExtGStateErrorKind::InvalidValue)
        } else {
            Ok(ExtGStateSelection { stroking_alpha: unit_of(entry.value), ..selection })
        }
    } else if entry.key == key_nonstroking_alpha() {
        if selection.nonstroking_alpha is Some {
            Err(ContentExtGStateErrorKind::DuplicateEntry)
        } else if unit_of(entry.value) is None {
            Err(ContentExtGStateErrorKind::InvalidValue)
        } else {
            Ok(ExtGStateSelection { nonstroking_alpha: unit_of(entry.value), ..selection })
        }
    } else if entry.key == key_blend_mode() {
        if selection.blend_mode is Some {
            Err(ContentExtGStateErrorKind::DuplicateEntry)
        } else {
            match entry.value {
                SyntaxView::Name(name) => match blend_mode_of(name) {
                    Some(mode) => Ok(ExtGStateSelection { blend_mode: Some(mode), ..selection }),
                    None => Err(ContentExtGStateErrorKind::UnsupportedEntry),
                },
                _ => Err(ContentExtGStateErrorKind::InvalidValue),
            }
        }
    } else {
        Err(ContentExtGStateErrorKind::UnsupportedEntry)
    }
}

/// What all entries from `i` on select, or the first entry that is refused.
pub open spec fn selected(
    reference: ObjectRef,
    entries: Seq<SyntaxEntry>,
    i: int,
    selection: ExtGStateSelection,
) -> Result<ExtGStateSelection, ContentExtGStateError>
    decreases entries.len() - i,
{
    if i < 0 || i >= entries.len() {
        Ok(selection)
    } else {
        match select(selection, entries[i]@) {
            Err(kind) => Err(
                ContentExtGStateError { kind, reference, offset: entries[i].value_start },
            ),
            Ok(next) => selected(reference, entries, i + 1, next),
        }
    }
}

/// What an object selects under a resource name.
pub open spec fn object_selection(name: Seq<u8>, object: AttestedObject) -> Result<
    ExtGStateSelection,
    ContentExtGStateError,
> {
    let reference = object.reference;
    if name.len() == 0 || name.len() > 127 {
        Err(
            ContentExtGStateError {
                kind: ContentExtGStateErrorKind::InvalidName,
                reference,
                offset: object.object_start,
            },
        )
    } else {
        match object.value {
            AttestedValue::Absent => Err(
                ContentExtGStateError {
                    kind: ContentExtGStateErrorKind::InvalidDictionary,
                    reference,
                    offset: object.object_start,
                },
            ),
            AttestedValue::NoDictionary { start } => Err(
                ContentExtGStateError {
                    kind: ContentExtGStateErrorKind::InvalidDictionary,
                    reference,
                    offset: start,
                },
            ),
            AttestedValue::Dictionary(entries) => selected(
                reference,
                entries@,
                0,
                no_selection(),
            ),
        }
    }
}

proof fn prefix_value_is_smaller(mantissa: Seq<u8>, i: int)
    requires
        0 <= i <= mantissa.len(),
    ensures
        digits_value(mantissa.take(i)) <= digits_value(mantissa),
        fraction_count(mantissa.take(i)) <= mantissa.len(),
    decreases mantissa.len() - i,
{
    fraction_is_short(mantissa.take(i));
    if i < mantissa.len() {
        assert(mantissa.take(i + 1).drop_last() =~= mantissa.take(i));
        prefix_value_is_smaller(mantissa, i + 1);
    } else {
        assert(mantissa.take(i) =~= mantissa);
    }
}

proof fn fraction_is_short(mantissa: Seq<u8>)
    ensures
        fraction_count(mantissa) <= mantissa.len(),
    decreases mantissa.len(),
{
    if mantissa.len() > 0 {
        fraction_is_short(mantissa.drop_last());
    }
}

proof fn mark_stays(unsigned: Seq<u8>, i: int)
    requires
        0 <= i <= unsigned.len(),
    ensures
        i <= exponent_mark(unsigned, i) <= unsigned.len(),
    decreases unsigned.len() - i,
{
    if i < unsigned.len() && unsigned[i] != 0x65 && unsigned[i] != 0x45 {
        mark_stays(unsigned, i + 1);
    }
}

/// Digits, fraction and exponent mark of a decimal lexeme.
struct RatioMantissa {
    digits: i128,
    fraction: usize,
    end: usize,
}

fn read_ratio_mantissa(raw: &[u8], start: usize) -> (read: Option<RatioMantissa>)
    requires
        start <= raw@.len(),
        unsigned_part(raw@) == raw@.skip(start as int),
    ensures
        read is None ==> !mantissa_ok(mantissa_of(raw@)) || digit_count(mantissa_of(raw@)) == 0
            || digits_value(mantissa_of(raw@)) > i128::MAX,
        read matches Some(parts) ==> {
            &&& mantissa_ok(mantissa_of(raw@))
            &&& digit_count(mantissa_of(raw@)) > 0
            &&& parts.digits == digits_value(mantissa_of(raw@))
            &&& parts.fraction == fraction_count(mantissa_of(raw@))
            &&& start <= parts.end <= raw@.len()
            &&& parts.end - start == exponent_mark(unsigned_part(raw@), 0)
        },
{
    let ghost unsigned = unsigned_part(raw@);
    let ghost mark = exponent_mark(unsigned, 0);
    let ghost mantissa = mantissa_of(raw@);
    proof {
        mark_stays(unsigned, 0);
        assert(unsigned.take(0) =~= Seq::empty());
    }
    let mut digits: i128 = 0;
    let mut fraction: usize = 0;
    let mut point = false;
    let mut saw_digit = false;
    let mut i: usize = start;
    while i < raw.len() && raw[i] != 0x65 && raw[i] != 0x45
        invariant
            start <= i <= raw@.len(),
            unsigned == raw@.skip(start as int),
            mark == exponent_mark(unsigned, 0),
            mark == exponent_mark(unsigned, i - start),
            0 <= mark <= unsigned.len(),
            mantissa == unsigned.take(mark),
            mantissa == mantissa_of(raw@),
            mantissa_ok(unsigned.take(i - start)),
            digits == digits_value(unsigned.take(i - start)),
            fraction == fraction_count(unsigned.take(i - start)),
            fraction <= i - start,
            point == unsigned.take(i - start).contains(0x2e),
            saw_digit == (digit_count(unsigned.take(i - start)) > 0),
            digits >= 0,
        decreases raw@.len() - i,
    {
        let byte: u8 = raw[i];
        let ghost at = i - start;
        let ghost read = unsigned.take(at);
        let ghost now = unsigned.take(at + 1);
        proof {
            assert(unsigned[at] == byte);
            mark_stays(unsigned, at + 1);
            assert(mantissa[at] == byte);
            assert(now.drop_last() =~= read);
            assert(now.last() == byte);
            assert(mantissa.take(at + 1) =~= now);
            assert(mantissa.take(at) =~= read);
            prefix_value_is_smaller(mantissa, at + 1);
            assert forall|k: int| 0 <= k < at implies now[k] == read[k] by {}
            if read.contains(0x2e) {
                let k = choose|k: int| 0 <= k < read.len() && read[k] == 0x2e;
                assert(now[k] == 0x2e);
            }
        }
        if byte >= 0x30 && byte <= 0x39 {
            saw_digit = true;
            let tens: i128 = match digits.checked_mul(10) {
                Some(tens) => tens,
                None => {
                    return None;
                },
            };
            digits = match tens.checked_add((byte - 0x30) as i128) {
                Some(next) => next,
                None => {
                    return None;
                },
            };
            if point {
                fraction = fraction + 1;
            }
            proof {
                if now.contains(0x2e) {
                    let k = choose|k: int| 0 <= k < now.len() && now[k] == 0x2e;
                    assert(read[k] == 0x2e);
                }
                assert(mantissa_ok(now));
            }
        } else if byte == 0x2e && !point {
            point = true;
            proof {
                assert(now[at] == 0x2e);
                assert forall|a: int, b: int|
                    #![trigger now[a], now[b]]
                    0 <= a < b < now.len() implies now[a] != 0x2e || now[b] != 0x2e by {
                    assert(now[a] == read[a]);
                    assert(read[a] != 0x2e);
                }
                assert(mantissa_ok(now));
                no_point_no_fraction(read);
            }
        } else {
            proof {
                if byte == 0x2e {
                    let k = choose|k: int| 0 <= k < read.len() && read[k] == 0x2e;
                    assert(mantissa[k] == 0x2e);
                }
                assert(!mantissa_ok(mantissa));
            }
            return None;
        }
        i = i + 1;
    }
    assert(i - start == mark);
    if !saw_digit {
        return None;
    }
    Some(RatioMantissa { digits, fraction, end: i })
}

proof fn no_point_no_fraction(mantissa: Seq<u8>)
    requires
        !mantissa.contains(0x2e),
    ensures
        fraction_count(mantissa) == 0,
{
    if mantissa.len() > 0 {
        let front = mantissa.drop_last();
        if front.contains(0x2e) {
            let k = choose|k: int| 0 <= k < front.len() && front[k] == 0x2e;
            assert(mantissa[k] == 0x2e);
        }
    }
}

proof fn pow10_monotone(low: nat, high: nat)
    requires
        low <= high,
    ensures
        0 < pow10(low) <= pow10(high),
    decreases high,
{
    if low < high {
        pow10_monotone(low, (high - 1) as nat);
    } else if low > 0 {
        pow10_monotone((low - 1) as nat, (high - 1) as nat);
    }
}

/// Returns a power of ten that fits the working range.
fn checked_pow10(exponent: u32) -> (power: Option<i128>)
    ensures
        power is Some <==> pow10(exponent as nat) <= i128::MAX,
        power matches Some(value) ==> value == pow10(exponent as nat),
{
    let mut value: i128 = 1;
    let mut i: u32 = 0;
    while i < exponent
        invariant
            i <= exponent,
            value == pow10(i as nat),
        decreases exponent - i,
    {
        proof {
            pow10_monotone((i + 1) as nat, exponent as nat);
        }
        match value.checked_mul(10) {
            Some(next) => {
                value = next;
            },
            None => {
                return None;
            },
        }
        i = i + 1;
    }
    Some(value)
}

/// Parses the ratio that a decimal lexeme denotes.
fn decimal_ratio(raw: &[u8]) -> (ratio: Option<(i128, i128)>)
    ensures
        ratio is Some <==> ratio_of(raw@) is Some,
        ratio matches Some((numerator, denominator)) ==> ratio_of(raw@) == Some(
            (numerator as int, denominator as int),
        ),
{
    if raw.len() == 0 {
        assert(mantissa_of(raw@) =~= Seq::empty());
        return None;
    }
    let negative = raw[0] == 0x2d;
    let start: usize = if raw[0] == 0x2d || raw[0] == 0x2b {
        1
    } else {
        0
    };
    assert(raw@.skip(0) =~= raw@);
    let parts = match read_ratio_mantissa(raw, start) {
        Some(parts) => parts,
        None => {
            return None;
        },
    };
    let exponent: i128 = if parts.end == raw.len() {
        0
    } else {
        let tail = vstd::slice::slice_subrange(raw, parts.end + 1, raw.len());
        assert(tail@ =~= exponent_lexeme(raw@));
        match parse_exponent(tail) {
            Some(ParsedExponent::Finite(value)) => value,
            _ => {
                return None;
            },
        }
    };
    assert(is_number_lexeme(raw@));
    assert(exponent == exponent_of(raw@));
    let smallest: i128 = -0x8000_0000;
    let largest: i128 = 0x7fff_ffff;
    if exponent < smallest || exponent > largest || parts.fraction > 0x7fff_ffff {
        return None;
    }
    let scale: i128 = parts.fraction as i128 - exponent;
    if scale < smallest || scale > largest {
        return None;
    }
    let magnitude: u32 = if scale >= 0 {
        scale as u32
    } else {
        (-scale) as u32
    };
    let power: i128 = match checked_pow10(magnitude) {
        Some(power) => power,
        None => {
            return None;
        },
    };
    if scale >= 0 {
        let numerator: i128 = if negative {
            -parts.digits
        } else {
            parts.digits
        };
        return Some((numerator, power));
    }
    match parts.digits.checked_mul(power) {
        Some(product) => {
            proof {
                let d = parts.digits as int;
                let p = power as int;
                assert((-d) * p == -(d * p)) by (nonlinear_arith);
                assert(0 <= d * p) by (nonlinear_arith)
                    requires
                        d >= 0,
                        p >= 0,
                ;
            }
            let numerator: i128 = if negative {
                -product
            } else {
                product
            };
            Some((numerator, 1))
        },
        None => {
            proof {
                let d = parts.digits as int;
                let p = power as int;
                assert(0 <= d * p) by (nonlinear_arith)
                    requires
                        d >= 0,
                        p >= 0,
                ;
            }
            None
        },
    }
}

/// Parses the unit value of an entry.
fn parse_unit(value: &SyntaxObject) -> (unit: Option<SceneUnit>)
    ensures
        unit == unit_of(value@),
{
    let (numerator, denominator): (i128, i128) = match value {
        SyntaxObject::Integer(number) => {
            if *number == 0 {
                (0, 1)
            } else if *number == 1 {
                (1, 1)
            } else {
                return None;
            }
        },
        SyntaxObject::Real(raw) => match decimal_ratio(raw.as_slice()) {
            Some(ratio) => ratio,
            None => {
                return None;
            },
        },
        _ => {
            return None;
        },
    };
    if numerator < 0 || numerator > denominator || denominator <= 0 {
        return None;
    }
    let product: i128 = match numerator.checked_mul(65535) {
        Some(product) => product,
        None => {
            return None;
        },
    };
    let sum: i128 = match product.checked_add(denominator / 2) {
        Some(sum) => sum,
        None => {
            return None;
        },
    };
    let quotient: i128 = sum / denominator;
    proof {
        unit_fits(numerator as int, denominator as int);
    }
    Some(SceneUnit::from_u16(quotient as u16))
}

proof fn unit_fits(numerator: int, denominator: int)
    requires
        0 <= numerator <= denominator,
        denominator > 0,
    ensures
        0 <= (numerator * 65535 + denominator / 2) / denominator <= 65535,
{
    let sum = numerator * 65535 + denominator / 2;
    assert(sum < 65536 * denominator) by (nonlinear_arith)
        requires
            sum == numerator * 65535 + denominator / 2,
            0 <= numerator <= denominator,
            denominator > 0,
    ;
    assert(0 <= sum / denominator < 65536) by (nonlinear_arith)
        requires
            0 <= sum < 65536 * denominator,
            denominator > 0,
    ;
}

/// Zero and one keep their place: the ends of the unit interval map to the first and last step.
pub proof fn unit_interval_ends(denominator: int)
    requires
        0 < denominator,
        denominator * 65535 + denominator / 2 <= i128::MAX,
    ensures
        unit_of_ratio((0, denominator)) == Some(SceneUnit { value: 0 }),
        unit_of_ratio((denominator, denominator)) == Some(SceneUnit { value: 65535 }),
{
    assert((denominator / 2) / denominator == 0) by (nonlinear_arith)
        requires
            denominator > 0,
    ;
    assert((denominator * 65535 + denominator / 2) / denominator == 65535) by (nonlinear_arith)
        requires
            denominator > 0,
    ;
}

/// Compares two byte strings.
pub(crate) fn same_bytes(left: &[u8], right: &[u8]) -> (same: bool)
    ensures
        same == (left@ == right@),
{
    if left.len() != right.len() {
        return false;
    }
    let mut i: usize = 0;
    while i < left.len()
        invariant
            i <= left@.len() == right@.len(),
            left@.take(i as int) =~= right@.take(i as int),
        decreases left@.len() - i,
    {
        if left[i] != right[i] {
            assert(left@[i as int] != right@[i as int]);
            return false;
        }
        i = i + 1;
    }
    assert(left@.take(i as int) =~= left@);
    assert(right@.take(i as int) =~= right@);
    true
}

fn parse_blend_mode(name: &[u8]) -> (mode: Option<BlendMode>)
    ensures
        mode == blend_mode_of(name@),
{
    let normal: &[u8] = &[0x4e, 0x6f, 0x72, 0x6d, 0x61, 0x6c];
    let multiply: &[u8] = &[0x4d, 0x75, 0x6c, 0x74, 0x69, 0x70, 0x6c, 0x79];
    let screen: &[u8] = &[0x53, 0x63, 0x72, 0x65, 0x65, 0x6e];
    proof {
        assert(normal@ =~= seq![0x4eu8, 0x6f, 0x72, 0x6d, 0x61, 0x6c]);
        assert(multiply@ =~= seq![0x4du8, 0x75, 0x6c, 0x74, 0x69, 0x70, 0x6c, 0x79]);
        assert(screen@ =~= seq![0x53u8, 0x63, 0x72, 0x65, 0x65, 0x6e]);
    }
    if same_bytes(name, normal) {
        Some(BlendMode::Normal)
    } else if same_bytes(name, multiply) {
        Some(BlendMode::Multiply)
    } else if same_bytes(name, screen) {
        Some(BlendMode::Screen)
    } else {
        None
    }
}

/// Adds one entry to a selection.
fn select_entry(selection: ExtGStateSelection, entry: &SyntaxEntry) -> (next: Result<
    ExtGStateSelection,
    ContentExtGStateErrorKind,
>)
    ensures
        next == select(selection, entry@),
{
    let type_key: &[u8] = &[0x54, 0x79, 0x70, 0x65];
    let state_name: &[u8] = &[0x45, 0x78, 0x74, 0x47, 0x53, 0x74, 0x61, 0x74, 0x65];
    let stroking_key: &[u8] = &[0x43, 0x41];
    let nonstroking_key: &[u8] = &[0x63, 0x61];
    let blend_key: &[u8] = &[0x42, 0x4d];
    proof {
        assert(type_key@ =~= key_type());
        assert(state_name@ =~= name_ext_gstate());
        assert(stroking_key@ =~= key_stroking_alpha());
        assert(nonstroking_key@ =~= key_nonstroking_alpha());
        assert(blend_key@ =~= key_blend_mode());
    }
    let key = entry.key.as_slice();
    if same_bytes(key, type_key) {
        if selection.seen_type {
            return Err(ContentExtGStateErrorKind::DuplicateEntry);
        }
        return match &entry.value {
            SyntaxObject::Name(name) => if same_bytes(name.as_slice(), state_name) {
                Ok(
                    ExtGStateSelection {
                        seen_type: true,
                        stroking_alpha: selection.stroking_alpha,
                        nonstroking_alpha: selection.nonstroking_alpha,
                        blend_mode: selection.blend_mode,
                    },
                )
            } else {
                Err(ContentExtGStateErrorKind::InvalidValue)
            },
            _ => Err(ContentExtGStateErrorKind::InvalidValue),
        };
    }
    if same_bytes(key, stroking_key) {
        if selection.stroking_alpha.is_some() {
            return Err(ContentExtGStateErrorKind::DuplicateEntry);
        }
        return match parse_unit(&entry.value) {
            Some(unit) => Ok(
                ExtGStateSelection {
                    seen_type: selection.seen_type,
                    stroking_alpha: Some(unit),
                    nonstroking_alpha: selection.nonstroking_alpha,
                    blend_mode: selection.blend_mode,
                },
            ),
            None => Err(ContentExtGStateErrorKind::InvalidValue),
        };
    }
    if same_bytes(key, nonstroking_key) {
        if selection.nonstroking_alpha.is_some() {
            return Err(ContentExtGStateErrorKind::DuplicateEntry);
        }
        return match parse_unit(&entry.value) {
            Some(unit) => Ok(
                ExtGStateSelection {
                    seen_type: selection.seen_type,
                    stroking_alpha: selection.stroking_alpha,
                    nonstroking_alpha: Some(unit),
                    blend_mode: selection.blend_mode,
                },
            ),
            None => Err(ContentExtGStateErrorKind::InvalidValue),
        };
    }
    if same_bytes(key, blend_key) {
        if selection.blend_mode.is_some() {
            return Err(ContentExtGStateErrorKind::DuplicateEntry);
        }
        return match &entry.value {
            SyntaxObject::Name(name) => match parse_blend_mode(name.as_slice()) {
                Some(mode) => Ok(
                    ExtGStateSelection {
                        seen_type: selection.seen_type,
                        stroking_alpha: selection.stroking_alpha,
                        nonstroking_alpha: selection.nonstroking_alpha,
                        blend_mode: Some(mode),
                    },
                ),
                None => Err(ContentExtGStateErrorKind::UnsupportedEntry),
            },
            _ => Err(ContentExtGStateErrorKind::InvalidValue),
        };
    }
    Err(ContentExtGStateErrorKind::UnsupportedEntry)
}

/// One proof-retaining external graphics state in the supported alpha/blend subset.
pub struct ContentExtGStateResource {
    name: Vec<u8>,
    object: AttestedObject,
    stroking_alpha: Option<SceneUnit>,
    nonstroking_alpha: Option<SceneUnit>,
    blend_mode: Option<BlendMode>,
}

impl ContentExtGStateResource {
    /// The name, as a value.
    pub closed spec fn spec_name(self) -> Seq<u8> {
        self.name@
    }

    /// The object, as a value.
    pub closed spec fn spec_object(self) -> AttestedObject {
        self.object
    }

    /// The stroking alpha, as a value.
    pub closed spec fn spec_stroking_alpha(self) -> Option<SceneUnit> {
        self.stroking_alpha
    }

    /// The nonstroking alpha, as a value.
    pub closed spec fn spec_nonstroking_alpha(self) -> Option<SceneUnit> {
        self.nonstroking_alpha
    }

    /// The blend mode, as a value.
    pub closed spec fn spec_blend_mode(self) -> Option<BlendMode> {
        self.blend_mode
    }

    /// Parses one reopened proof-bound dictionary and retains its resource name.
    ///
    /// The registered subset accepts optional `/Type /ExtGState`, direct numeric `/CA` and `/ca` in
    /// the closed unit interval, and `/BM` names `Normal`, `Multiply`, or `Screen`. Any other
    /// dictionary entry remains an explicit unsupported capability.
    pub fn new(name: Vec<u8>, object: AttestedObject) -> (resource: Result<
        Self,
        ContentExtGStateError,
    >)
        ensures
            match resource {
                Ok(value) => {
                    &&& object_selection(name@, object) is Ok
                    &&& value.spec_name() == name@
                    &&& value.spec_object() == object
                    &&& value.spec_stroking_alpha() == object_selection(
                        name@,
                        object,
                    )->Ok_0.stroking_alpha
                    &&& value.spec_nonstroking_alpha() == object_selection(
                        name@,
                        object,
                    )->Ok_0.nonstroking_alpha
                    &&& value.spec_blend_mode() == object_selection(name@, object)->Ok_0.blend_mode
                },
                Err(error) => object_selection(name@, object) == Err::<
                    ExtGStateSelection,
                    ContentExtGStateError,
                >(error),
            },
    {
        let reference = object.reference;
        if name.len() == 0 || name.len() > 127 {
            return Err(
                ContentExtGStateError::new(
                    ContentExtGStateErrorKind::InvalidName,
                    reference,
                    object.object_start,
                ),
            );
        }
        let mut selection = ExtGStateSelection {
            seen_type: false,
            stroking_alpha: None,
            nonstroking_alpha: None,
            blend_mode: None,
        };
        match &object.value {
            AttestedValue::Absent => {
                return Err(
                    ContentExtGStateError::new(
                        ContentExtGStateErrorKind::InvalidDictionary,
                        reference,
                        object.object_start,
                    ),
                );
            },
            AttestedValue::NoDictionary { start } => {
                return Err(
                    ContentExtGStateError::new(
                        ContentExtGStateErrorKind::InvalidDictionary,
                        reference,
                        *start,
                    ),
                );
            },
            AttestedValue::Dictionary(entries) => {
                let mut i: usize = 0;
                while i < entries.len()
                    invariant
                        i <= entries@.len(),
                        selected(reference, entries@, 0, no_selection()) == selected(
                            reference,
                            entries@,
                            i as int,
                            selection,
                        ),
                        reference == object.reference,
                        object.value == AttestedValue::Dictionary(*entries),
                        0 < name@.len() <= 127,
                    decreases entries@.len() - i,
                {
                    match select_entry(selection, &entries[i]) {
                        Ok(next) => {
                            selection = next;
                        },
                        Err(kind) => {
                            return Err(
                                ContentExtGStateError::new(kind, reference, entries[i].value_start),
                            );
                        },
                    }
                    i = i + 1;
                }
            },
        }
        Ok(
            Self {
                name,
                object,
                stroking_alpha: selection.stroking_alpha,
                nonstroking_alpha: selection.nonstroking_alpha,
                blend_mode: selection.blend_mode,
            },
        )
    }

    /// Returns the retained decoded resource name.
    pub fn name(&self) -> (name: &[u8])
        ensures
            name@ == self.spec_name(),
    {
        self.name.as_slice()
    }

    /// Borrows the reopened object proof retained by this resource.
    pub fn object(&self) -> (object: &AttestedObject)
        ensures
            *object == self.spec_object(),
    {
        &self.object
    }

    /// Returns the optional stroking constant alpha.
    pub fn stroking_alpha(&self) -> (alpha: Option<SceneUnit>)
        ensures
            alpha == self.spec_stroking_alpha(),
    {
        self.stroking_alpha
    }

    /// Returns the optional nonstroking constant alpha.
    pub fn nonstroking_alpha(&self) -> (alpha: Option<SceneUnit>)
        ensures
            alpha == self.spec_nonstroking_alpha(),
    {
        self.nonstroking_alpha
    }

    /// Returns the optional supported blend mode.
    pub fn blend_mode(&self) -> (mode: Option<BlendMode>)
        ensures
            mode == self.spec_blend_mode(),
    {
        self.blend_mode
    }
}

/// Whether two resources come from one revision of one source.
pub open spec fn same_revision(
    left: ContentExtGStateResource,
    right: ContentExtGStateResource,
) -> bool {
    &&& left.spec_object().snapshot == right.spec_object().snapshot
    &&& left.spec_object().revision_id == right.spec_object().revision_id
    &&& left.spec_object().revision_startxref == right.spec_object().revision_startxref
}

/// Whether a later resource has the name of resource `i`.
pub open spec fn name_recurs(resources: Seq<ContentExtGStateResource>, i: int) -> bool {
    exists|j: int|
        i < j < resources.len() && (#[trigger] resources[j]).spec_name()
            == resources[i].spec_name()
}

/// The first fault of a registry from `i` on.
pub open spec fn registry_fault(resources: Seq<ContentExtGStateResource>, i: int) -> Option<
    ContentExtGStateError,
>
    decreases resources.len() - i,
{
    if i < 0 || i >= resources.len() {
        None
    } else {
        let object = resources[i].spec_object();
        if name_recurs(resources, i) {
            Some(
                ContentExtGStateError {
                    kind: ContentExtGStateErrorKind::DuplicateEntry,
                    reference: object.reference,
                    offset: object.object_start,
                },
            )
        } else if !same_revision(resources[i], resources[0]) {
            Some(
                ContentExtGStateError {
                    kind: ContentExtGStateErrorKind::InvalidDictionary,
                    reference: object.reference,
                    offset: object.object_start,
                },
            )
        } else {
            registry_fault(resources, i + 1)
        }
    }
}

/// Position of the first resource from `i` on that has a name.
pub open spec fn resource_index(
    resources: Seq<ContentExtGStateResource>,
    name: Seq<u8>,
    i: int,
) -> int
    decreases resources.len() - i,
{
    if i >= resources.len() || resources[i].spec_name() == name {
        i
    } else {
        resource_index(resources, name, i + 1)
    }
}

/// Complete proof-bound registry for one interpreted page.
pub struct ContentExtGStateProfile {
    resources: Vec<ContentExtGStateResource>,
}

impl View for ContentExtGStateProfile {
    type V = Seq<ContentExtGStateResource>;

    closed spec fn view(&self) -> Seq<ContentExtGStateResource> {
        self.resources@
    }
}

impl ContentExtGStateProfile {
    /// Validates unique names and one immutable source/revision across all resources.
    pub fn new(resources: Vec<ContentExtGStateResource>) -> (profile: Result<
        Self,
        ContentExtGStateError,
    >)
        ensures
            match profile {
                Ok(value) => registry_fault(resources@, 0) is None && value@ == resources@,
                Err(error) => registry_fault(resources@, 0) == Some(error),
            },
    {
        let mut i: usize = 0;
        while i < resources.len()
            invariant
                i <= resources@.len(),
                registry_fault(resources@, 0) == registry_fault(resources@, i as int),
            decreases resources@.len() - i,
        {
            let mut j: usize = i + 1;
            let mut recurs = false;
            while j < resources.len()
                invariant
                    i < j <= resources@.len(),
                    recurs == (exists|k: int|
                        i < k < j && (#[trigger] resources@[k]).spec_name()
                            == resources@[i as int].spec_name()),
                decreases resources@.len() - j,
            {
                if same_bytes(resources[j].name(), resources[i].name()) {
                    recurs = true;
                }
                j = j + 1;
            }
            let reference = resources[i].object.reference;
            let offset: u64 = resources[i].object.object_start;
            if recurs {
                return Err(
                    ContentExtGStateError::new(
                        ContentExtGStateErrorKind::DuplicateEntry,
                        reference,
                        offset,
                    ),
                );
            }
            if resources[i].object.snapshot != resources[0].object.snapshot
                || resources[i].object.revision_id != resources[0].object.revision_id
                || resources[i].object.revision_startxref
                != resources[0].object.revision_startxref {
                return Err(
                    ContentExtGStateError::new(
                        ContentExtGStateErrorKind::InvalidDictionary,
                        reference,
                        offset,
                    ),
                );
            }
            i = i + 1;
        }
        Ok(Self { resources })
    }

    /// Finds the resource of a name.
    pub fn find(&self, name: &[u8]) -> (resource: Option<&ContentExtGStateResource>)
        ensures
            match resource {
                Some(found) => resource_index(self@, name@, 0) < self@.len() && *found
                    == self@[resource_index(self@, name@, 0)],
                None => resource_index(self@, name@, 0) == self@.len(),
            },
    {
        let mut i: usize = 0;
        while i < self.resources.len()
            invariant
                i <= self.resources@.len(),
                resource_index(self@, name@, 0) == resource_index(self@, name@, i as int),
            decreases self.resources@.len() - i,
        {
            if same_bytes(self.resources[i].name(), name) {
                return Some(&self.resources[i]);
            }
            i = i + 1;
        }
        None
    }

    /// Returns proof-bound resources in registry order.
    pub fn resources(&self) -> (resources: &[ContentExtGStateResource])
        ensures
            resources@ == self@,
    {
        self.resources.as_slice()
    }
}

/// In a registry without a fault every name is unique and every resource is of one revision.
pub proof fn registries_are_consistent(
    resources: Seq<ContentExtGStateResource>,
    start: int,
    i: int,
    j: int,
)
    requires
        registry_fault(resources, start) is None,
        0 <= start <= i < j < resources.len(),
    ensures
        resources[i].spec_name() != resources[j].spec_name(),
        same_revision(resources[i], resources[j]),
    decreases resources.len() - start,
{
    if start < i {
        registries_are_consistent(resources, start + 1, i, j);
    } else {
        assert(!name_recurs(resources, i));
        later_is_same_revision(resources, start, j);
    }
}

proof fn later_is_same_revision(
    resources: Seq<ContentExtGStateResource>,
    start: int,
    j: int,
)
    requires
        registry_fault(resources, start) is None,
        0 <= start <= j < resources.len(),
    ensures
        same_revision(resources[j], resources[0]),
    decreases resources.len() - start,
{
    if start < j {
        later_is_same_revision(resources, start + 1, j);
    }
}

} // verus!
