//! Laws of external graphics states.

use vstd::prelude::*;

use crate::content::ext_gstate::{
    no_selection, object_selection, ratio_of, selected, unit_of, unit_of_ratio, AttestedObject,
    AttestedValue, ExtGStateSelection, SyntaxEntry, SyntaxView,
};
use crate::content::model::ObjectRef;
use crate::content::number::{
    digits_value, exponent_of, fraction_count, mantissa_of, number_of, pow10, ContentNumber,
};
use crate::content::number_laws::powers_add;
use crate::content::scene::{BlendMode, SceneUnit};
use crate::content::vm_error::ContentVmError;

verus! {

/// Whether a selection has what an entry says: `CA` selects the alpha of strokes, `ca` that of
/// areas, and `BM` the blend mode.
pub open spec fn has_entry(selection: ExtGStateSelection, entry: SyntaxEntry) -> bool {
    let key = entry@.key;
    &&& key == seq![0x43u8, 0x41] ==> selection.stroking_alpha == unit_of(entry@.value)
        && selection.stroking_alpha is Some
    &&& key == seq![0x63u8, 0x61] ==> selection.nonstroking_alpha == unit_of(entry@.value)
        && selection.nonstroking_alpha is Some
    &&& key == seq![0x42u8, 0x4d] ==> (entry@.value matches SyntaxView::Name(name) && {
        &&& selection.blend_mode == Some(BlendMode::Normal) <==> name == seq![
            0x4eu8,
            0x6f,
            0x72,
            0x6d,
            0x61,
            0x6c,
        ]
        &&& selection.blend_mode == Some(BlendMode::Multiply) <==> name == seq![
            0x4du8,
            0x75,
            0x6c,
            0x74,
            0x69,
            0x70,
            0x6c,
            0x79,
        ]
        &&& selection.blend_mode == Some(BlendMode::Screen) <==> name == seq![
            0x53u8,
            0x63,
            0x72,
            0x65,
            0x65,
            0x6e,
        ]
        &&& selection.blend_mode is Some
    })
    &&& key == seq![0x43u8, 0x41] || key == seq![0x63u8, 0x61] || key == seq![0x42u8, 0x4d] || key
        == seq![0x54u8, 0x79, 0x70, 0x65]
}

proof fn names_of_modes_differ()
    ensures
        seq![0x4eu8, 0x6f, 0x72, 0x6d, 0x61, 0x6c] != seq![
            0x4du8,
            0x75,
            0x6c,
            0x74,
            0x69,
            0x70,
            0x6c,
            0x79,
        ],
        seq![0x4eu8, 0x6f, 0x72, 0x6d, 0x61, 0x6c] != seq![0x53u8, 0x63, 0x72, 0x65, 0x65, 0x6e],
        seq![0x4du8, 0x75, 0x6c, 0x74, 0x69, 0x70, 0x6c, 0x79] != seq![
            0x53u8,
            0x63,
            0x72,
            0x65,
            0x65,
            0x6e,
        ],
        seq![0x43u8, 0x41] != seq![0x63u8, 0x61],
        seq![0x43u8, 0x41] != seq![0x42u8, 0x4d],
        seq![0x63u8, 0x61] != seq![0x42u8, 0x4d],
        seq![0x43u8, 0x41] != seq![0x54u8, 0x79, 0x70, 0x65],
        seq![0x63u8, 0x61] != seq![0x54u8, 0x79, 0x70, 0x65],
        seq![0x42u8, 0x4d] != seq![0x54u8, 0x79, 0x70, 0x65],
{
    assert(seq![0x4eu8, 0x6f, 0x72, 0x6d, 0x61, 0x6c][0] == 0x4e);
    assert(seq![0x53u8, 0x63, 0x72, 0x65, 0x65, 0x6e][0] == 0x53);
    assert(seq![0x4du8, 0x75, 0x6c, 0x74, 0x69, 0x70, 0x6c, 0x79][0] == 0x4d);
    assert(seq![0x43u8, 0x41][0] == 0x43);
    assert(seq![0x63u8, 0x61][0] == 0x63);
    assert(seq![0x42u8, 0x4d][0] == 0x42);
    assert(seq![0x54u8, 0x79, 0x70, 0x65][0] == 0x54);
}

proof fn entries_are_kept(
    reference: ObjectRef,
    entries: Seq<SyntaxEntry>,
    i: int,
    selection: ExtGStateSelection,
)
    requires
        0 <= i <= entries.len(),
    ensures
        selected(reference, entries, i, selection) matches Ok(after) ==> {
            &&& forall|k: int| i <= k < entries.len() ==> has_entry(after, #[trigger] entries[k])
            &&& selection.stroking_alpha is Some ==> after.stroking_alpha
                == selection.stroking_alpha
            &&& selection.nonstroking_alpha is Some ==> after.nonstroking_alpha
                == selection.nonstroking_alpha
            &&& selection.blend_mode is Some ==> after.blend_mode == selection.blend_mode
            &&& after.stroking_alpha is Some && selection.stroking_alpha is None ==> exists|k: int|
                i <= k < entries.len() && (#[trigger] entries[k])@.key == seq![0x43u8, 0x41]
            &&& after.nonstroking_alpha is Some && selection.nonstroking_alpha is None ==> exists|
                k: int,
            |
                i <= k < entries.len() && (#[trigger] entries[k])@.key == seq![0x63u8, 0x61]
            &&& after.blend_mode is Some && selection.blend_mode is None ==> exists|k: int|
                i <= k < entries.len() && (#[trigger] entries[k])@.key == seq![0x42u8, 0x4d]
        },
    decreases entries.len() - i,
{
    names_of_modes_differ();
    if i < entries.len() {
        if let Ok(next) = crate::content::ext_gstate::select(selection, entries[i]@) {
            entries_are_kept(reference, entries, i + 1, next);
            assert(entries[i] == entries[i]);
        }
    }
}

/// An external graphics state selects exactly what its entries say: each alpha and the blend mode
/// by its own key, and nothing without one.
pub proof fn selections_are_those_of_the_entries(name: Seq<u8>, object: AttestedObject)
    ensures
        object_selection(name, object) matches Ok(selection) ==> (object.value
            matches AttestedValue::Dictionary(entries) && {
            &&& forall|k: int|
                0 <= k < entries@.len() ==> has_entry(selection, #[trigger] entries@[k])
            &&& selection.stroking_alpha is Some ==> exists|k: int|
                0 <= k < entries@.len() && (#[trigger] entries@[k])@.key == seq![0x43u8, 0x41]
            &&& selection.nonstroking_alpha is Some ==> exists|k: int|
                0 <= k < entries@.len() && (#[trigger] entries@[k])@.key == seq![0x63u8, 0x61]
            &&& selection.blend_mode is Some ==> exists|k: int|
                0 <= k < entries@.len() && (#[trigger] entries@[k])@.key == seq![0x42u8, 0x4d]
        }),
{
    if let AttestedValue::Dictionary(entries) = object.value {
        entries_are_kept(object.reference, entries@, 0, no_selection());
    }
}

/// A ratio becomes the nearest of 65535 steps.
pub proof fn ratios_become_the_nearest_step(numerator: int, denominator: int)
    ensures
        unit_of_ratio((numerator, denominator)) matches Some(unit) ==> {
            &&& 0 <= numerator <= denominator
            &&& -denominator <= 2 * (unit.value * denominator - numerator * 65_535) <= denominator
        },
{
    if let Some(unit) = unit_of_ratio((numerator, denominator)) {
        let n = numerator * 65_535 + denominator / 2;
        let q = n / denominator;
        let r = n % denominator;
        assert(n == q * denominator + r && 0 <= r < denominator) by (nonlinear_arith)
            requires
                q == n / denominator,
                r == n % denominator,
                denominator > 0,
        ;
        assert(0 <= q <= 65_535) by (nonlinear_arith)
            requires
                q * denominator <= numerator * 65_535 + denominator / 2,
                0 <= numerator <= denominator,
                denominator > 0,
                n >= 0,
                q == n / denominator,
        ;
        assert(unit.value == q);
        assert(denominator / 2 * 2 <= denominator);
    }
}

/// A ratio is the number that its lexeme denotes.
proof fn ratios_are_their_numbers(raw: Seq<u8>, number: ContentNumber)
    requires
        number_of(raw) == Ok::<ContentNumber, ContentVmError>(number),
    ensures
        ratio_of(raw) matches Some((numerator, denominator)) ==> {
            &&& denominator > 0
            &&& numerator * 1_000_000_000 == number.scaled * denominator
        },
{
    if let Some((numerator, denominator)) = ratio_of(raw) {
        let digits = digits_value(mantissa_of(raw)) as int;
        let scale = fraction_count(mantissa_of(raw)) - exponent_of(raw);
        let billion = pow10(9) as int;
        assert(billion == 1_000_000_000) by {
            reveal_with_fuel(pow10, 10);
        }
        let size = if number.scaled < 0 {
            -(number.scaled as int)
        } else {
            number.scaled as int
        };
        if digits == 0 {
            powers_add((if scale >= 0 {
                scale
            } else {
                -scale
            }) as nat, 0);
            assert(number.scaled == 0);
            let power = pow10((if scale >= 0 {
                scale
            } else {
                -scale
            }) as nat) as int;
            assert(0 * power == 0) by (nonlinear_arith);
            assert(numerator == 0);
            assert(0 * denominator == 0) by (nonlinear_arith);
        } else if scale > 9 {
            let rest = pow10((scale - 9) as nat) as int;
            powers_add((scale - 9) as nat, 9);
            powers_add(scale as nat, 0);
            assert(digits == size * rest) by (nonlinear_arith)
                requires
                    size == digits / rest,
                    digits % rest == 0,
                    rest > 0,
            ;
            assert((size * rest) * billion == size * (rest * billion)) by (nonlinear_arith);
            signed_sizes(size, denominator);
        } else if scale >= 0 {
            let rest = pow10((9 - scale) as nat) as int;
            powers_add((9 - scale) as nat, scale as nat);
            powers_add(scale as nat, 0);
            assert(size == digits * rest);
            assert((digits * rest) * denominator == digits * (rest * denominator))
                by (nonlinear_arith);
            signed_sizes(size, denominator);
        } else {
            let power = pow10((-scale) as nat) as int;
            powers_add((-scale) as nat, 9);
            assert(pow10((9 - scale) as nat) == power * billion);
            assert(size == digits * (power * billion));
            assert(digits * (power * billion) == (digits * power) * billion) by (nonlinear_arith);
            assert((-digits) * power == -(digits * power)) by (nonlinear_arith);
            let signed = number.scaled as int;
            assert(signed * denominator == signed) by (nonlinear_arith)
                requires
                    denominator == 1,
            ;
        }
    }
}

proof fn signed_sizes(size: int, denominator: int)
    by (nonlinear_arith)
    ensures
        (-size) * denominator == -(size * denominator),
{
}

/// An alpha is the nearest of 65535 steps to the number that its lexeme denotes, which lies in the
/// unit interval; the integers 0 and 1 are its ends, and no other integer is one.
pub proof fn alphas_are_the_nearest_step(raw: Seq<u8>, number: ContentNumber, integer: i64)
    requires
        number_of(raw) == Ok::<ContentNumber, ContentVmError>(number),
    ensures
        unit_of(SyntaxView::Real(raw)) matches Some(unit) ==> {
            &&& 0 <= number.scaled <= 1_000_000_000
            &&& -1_000_000_000 <= 2 * (unit.value * 1_000_000_000 - number.scaled * 65_535)
                <= 1_000_000_000
        },
        unit_of(SyntaxView::Integer(integer)) == if integer == 0 {
            Some(SceneUnit { value: 0 })
        } else if integer == 1 {
            Some(SceneUnit { value: 65_535 })
        } else {
            None
        },
{
    ratios_are_their_numbers(raw, number);
    assert(unit_of_ratio((0, 1)) == Some(SceneUnit { value: 0 })) by {
        assert((0int * 65_535 + 1int / 2) / 1 == 0);
    }
    assert(unit_of_ratio((1, 1)) == Some(SceneUnit { value: 65_535 })) by {
        assert((1int * 65_535 + 1int / 2) / 1 == 65_535);
    }
    if let Some(unit) = unit_of(SyntaxView::Real(raw)) {
        let (numerator, denominator) = ratio_of(raw)->0;
        ratios_become_the_nearest_step(numerator, denominator);
        let n = number.scaled as int;
        let u = unit.value as int;
        assert(0 <= n <= 1_000_000_000) by (nonlinear_arith)
            requires
                numerator * 1_000_000_000 == n * denominator,
                0 <= numerator <= denominator,
                denominator > 0,
        ;
        let off = 2 * (u * 1_000_000_000 - n * 65_535);
        assert(off * denominator == 2 * (u * denominator - numerator * 65_535) * 1_000_000_000)
            by (nonlinear_arith)
            requires
                numerator * 1_000_000_000 == n * denominator,
                off == 2 * (u * 1_000_000_000 - n * 65_535),
        ;
        assert(-1_000_000_000 <= off <= 1_000_000_000) by (nonlinear_arith)
            requires
                off * denominator == 2 * (u * denominator - numerator * 65_535) * 1_000_000_000,
                -denominator <= 2 * (u * denominator - numerator * 65_535) <= denominator,
                denominator > 0,
        ;
    }
}

} // verus!
