//! Laws of operands.

use vstd::prelude::*;

use crate::content::graphics_model::point_count;
use crate::content::model::ContentOperatorSource;
use crate::content::number::number_of;
use crate::content::operands::{operand_number, structure_fault};
use crate::content::operator::{OperatorFailurePolicy, OperatorKind};
use crate::content::view::{LocatedView, OperandView};
use crate::content::vm_error::ContentVmErrorCode;

verus! {

/// An integer operand denotes that integer in whole units, where it fits. A real denotes what its
/// lexeme does, and nothing else denotes a number.
pub proof fn operands_denote_their_number(operand: LocatedView, source: ContentOperatorSource)
    ensures
        operand.value matches OperandView::Integer(n) ==> {
            &&& operand_number(operand, source) is Ok <==> -9_223_372_036 <= n <= 9_223_372_036
            &&& operand_number(operand, source) matches Ok(number) ==> number.scaled % 1_000_000_000
                == 0 && number.scaled / 1_000_000_000 == n
        },
        operand.value matches OperandView::Real(raw) ==> {
            &&& operand_number(operand, source) is Ok <==> number_of(raw) is Ok
            &&& operand_number(operand, source) matches Ok(number) ==> number_of(raw) == Ok::<
                _,
                crate::content::vm_error::ContentVmError,
            >(number)
        },
        !(operand.value is Integer || operand.value is Real) ==> (operand_number(
            operand,
            source,
        ) matches Err(error) && error.code == ContentVmErrorCode::InvalidOperandType),
        operand_number(operand, source) matches Err(error) ==> error.source == Some(source),
{
}

/// Whether an operand is a number.
pub open spec fn is_numeric(operand: LocatedView) -> bool {
    operand.value is Integer || operand.value is Real
}

/// Numbers that an operator takes, and nothing else: two for each point of a path, one for each
/// component of a color, six for a transform.
pub open spec fn numbers_taken(kind: OperatorKind) -> Option<int> {
    match kind {
        OperatorKind::MoveTo
        | OperatorKind::LineTo
        | OperatorKind::CubicCurveTo
        | OperatorKind::CubicCurveToReplicateInitial
        | OperatorKind::CubicCurveToReplicateFinal => Some(2 * point_count(kind)),
        OperatorKind::SetStrokingGray | OperatorKind::SetNonstrokingGray => Some(1),
        OperatorKind::SetStrokingRgb | OperatorKind::SetNonstrokingRgb => Some(3),
        OperatorKind::SetStrokingCmyk
        | OperatorKind::SetNonstrokingCmyk
        | OperatorKind::Rectangle => Some(4),
        OperatorKind::ConcatMatrix | OperatorKind::SetTextMatrix => Some(6),
        OperatorKind::SetLineWidth
        | OperatorKind::SetMiterLimit
        | OperatorKind::SetCharacterSpacing
        | OperatorKind::SetWordSpacing
        | OperatorKind::SetHorizontalScaling
        | OperatorKind::SetTextLeading
        | OperatorKind::SetTextRise => Some(1),
        OperatorKind::MoveTextPosition | OperatorKind::MoveTextPositionSetLeading => Some(2),
        OperatorKind::SaveGraphicsState
        | OperatorKind::RestoreGraphicsState
        | OperatorKind::BeginText
        | OperatorKind::EndText
        | OperatorKind::MoveToNextTextLine
        | OperatorKind::BeginCompatibility
        | OperatorKind::EndCompatibility
        | OperatorKind::EndMarkedContent
        | OperatorKind::ClosePath
        | OperatorKind::StrokePath
        | OperatorKind::CloseAndStrokePath
        | OperatorKind::FillNonzero
        | OperatorKind::FillNonzeroLegacy
        | OperatorKind::FillEvenOdd
        | OperatorKind::FillStrokeNonzero
        | OperatorKind::FillStrokeEvenOdd
        | OperatorKind::CloseFillStrokeNonzero
        | OperatorKind::CloseFillStrokeEvenOdd
        | OperatorKind::EndPath
        | OperatorKind::ClipNonzero
        | OperatorKind::ClipEvenOdd => Some(0),
        _ => None,
    }
}

/// The operands of an operator are admitted exactly where there are as many as it takes, each of the
/// type that it takes there. A wrong count is reported before a wrong type.
pub proof fn operators_take_their_operands(
    kind: OperatorKind,
    operands: Seq<LocatedView>,
    source: ContentOperatorSource,
)
    ensures
        numbers_taken(kind) matches Some(count) ==> (structure_fault(kind, operands, source) is None
            <==> operands.len() == count && forall|i: int|
            0 <= i < count ==> is_numeric(#[trigger] operands[i])),
        kind == OperatorKind::SetLineCap || kind == OperatorKind::SetLineJoin || kind
            == OperatorKind::SetTextRenderMode ==> (structure_fault(kind, operands, source) is None
            <==> operands.len() == 1 && operands[0].value is Integer),
        kind == OperatorKind::SetGraphicsState || kind == OperatorKind::PaintXObject || kind
            == OperatorKind::BeginMarkedContent || kind == OperatorKind::MarkedContentPoint ==> (
        structure_fault(kind, operands, source) is None <==> operands.len() == 1
            && operands[0].value is Name),
        kind == OperatorKind::BeginMarkedContentProperties || kind
            == OperatorKind::MarkedContentPointProperties ==> (structure_fault(
            kind,
            operands,
            source,
        ) is None <==> operands.len() == 2 && operands[0].value is Name && (
        operands[1].value is Name || operands[1].value is Dictionary)),
        kind == OperatorKind::SetTextFont ==> (structure_fault(kind, operands, source) is None
            <==> operands.len() == 2 && operands[0].value is Name && is_numeric(operands[1])),
        kind == OperatorKind::SetLineDash ==> (structure_fault(kind, operands, source) is None
            <==> operands.len() == 2 && operands[0].value is Array && is_numeric(operands[1])),
        kind == OperatorKind::ShowText || kind == OperatorKind::MoveNextLineShowText ==> (
        structure_fault(kind, operands, source) is None <==> operands.len() == 1
            && operands[0].value is String),
        kind == OperatorKind::ShowTextAdjusted ==> (structure_fault(kind, operands, source) is None
            <==> operands.len() == 1 && operands[0].value is Array),
        kind == OperatorKind::SetSpacingMoveNextLineShowText ==> (structure_fault(
            kind,
            operands,
            source,
        ) is None <==> operands.len() == 3 && is_numeric(operands[0]) && is_numeric(operands[1])
            && operands[2].value is String),
        structure_fault(kind, operands, source) matches Some(error) ==> {
            &&& error.source == Some(source)
            &&& error.code == ContentVmErrorCode::InvalidOperandCount || error.code
                == ContentVmErrorCode::InvalidOperandType
        },
{
}

/// Whether an operator does one thing more than its operands say: it moves to another line, sets the
/// leading, walks an array, or looks an object up.
pub open spec fn does_more(kind: OperatorKind) -> bool {
    match kind {
        OperatorKind::MoveTextPositionSetLeading
        | OperatorKind::MoveToNextTextLine
        | OperatorKind::ShowTextAdjusted
        | OperatorKind::MoveNextLineShowText
        | OperatorKind::SetSpacingMoveNextLineShowText
        | OperatorKind::PaintXObject => true,
        _ => false,
    }
}

/// An operator costs one unit, one more for each operand, and one more where it does more than its
/// operands say. Concatenation costs four.
pub proof fn operators_cost_their_operands(kind: OperatorKind)
    ensures
        kind != OperatorKind::ConcatMatrix ==> kind.spec_base_fuel() == 1
            + kind.spec_shape().count() + (if does_more(kind) {
            1int
        } else {
            0int
        }),
        kind == OperatorKind::ConcatMatrix ==> kind.spec_base_fuel() == 4,
        kind.spec_policy() == OperatorFailurePolicy::ValidateThenUnsupported <==> kind
            == OperatorKind::MarkedContentPoint || kind
            == OperatorKind::MarkedContentPointProperties,
{
}

} // verus!
