//! Laws of the operator table.

use vstd::prelude::*;

use crate::content::drawing_laws::{closes_path, fills, fills_even_odd, strokes_path};
use crate::content::model::ContentOperatorSource;
use crate::content::operands::context_fault;
use crate::content::operator::{kind_of_token, OperatorKind};
use crate::content::state_laws::{colors_areas, colors_strokes};

verus! {

/// Whether a byte is a capital letter.
pub open spec fn is_capital(byte: u8) -> bool {
    0x41 <= byte <= 0x5a
}

/// The capitals and the small letters of a token mean something: capitals color strokes and small
/// letters areas; a star marks the even-odd rule; and the small letters among the operators that
/// stroke close the path first.
pub proof fn letters_tell_operators_apart(kind: OperatorKind)
    ensures
        ({
            let token = kind.spec_token();
            &&& colors_strokes(kind) ==> forall|i: int|
                0 <= i < token.len() ==> is_capital(#[trigger] token[i])
            &&& colors_areas(kind) ==> forall|i: int|
                0 <= i < token.len() ==> !is_capital(#[trigger] token[i])
            &&& fills(kind) ==> (fills_even_odd(kind) <==> token.last() == 0x2a)
            &&& strokes_path(kind) ==> (closes_path(kind) <==> !is_capital(token[0]))
            &&& kind == OperatorKind::ClipEvenOdd ==> token.last() == 0x2a
            &&& kind == OperatorKind::ClipNonzero ==> token.last() != 0x2a
        }),
{
}

/// What begins and ends a section differs in its first letter alone, and what saves and restores the
/// graphics state in its case.
pub proof fn paired_operators_are_spelled_alike()
    ensures
        OperatorKind::EndText.spec_token() == OperatorKind::BeginText.spec_token().update(0, 0x45),
        OperatorKind::EndCompatibility.spec_token()
            == OperatorKind::BeginCompatibility.spec_token().update(0, 0x45),
        OperatorKind::EndMarkedContent.spec_token()
            == OperatorKind::BeginMarkedContent.spec_token().update(0, 0x45),
        OperatorKind::SaveGraphicsState.spec_token()[0]
            == OperatorKind::RestoreGraphicsState.spec_token()[0] + 0x20,
{
    assert(OperatorKind::EndText.spec_token() =~= OperatorKind::BeginText.spec_token().update(
        0,
        0x45,
    ));
    assert(OperatorKind::EndCompatibility.spec_token()
        =~= OperatorKind::BeginCompatibility.spec_token().update(0, 0x45));
    assert(OperatorKind::EndMarkedContent.spec_token()
        =~= OperatorKind::BeginMarkedContent.spec_token().update(0, 0x45));
}

/// Every token of the content language names its operator.
pub proof fn tokens_name_their_operators()
    ensures
        kind_of_token(seq![0x71u8]) == Some(OperatorKind::SaveGraphicsState),
        kind_of_token(seq![0x51u8]) == Some(OperatorKind::RestoreGraphicsState),
        kind_of_token(seq![0x67u8, 0x73]) == Some(OperatorKind::SetGraphicsState),
        kind_of_token(seq![0x63u8, 0x6d]) == Some(OperatorKind::ConcatMatrix),
        kind_of_token(seq![0x42u8, 0x54]) == Some(OperatorKind::BeginText),
        kind_of_token(seq![0x45u8, 0x54]) == Some(OperatorKind::EndText),
        kind_of_token(seq![0x54u8, 0x63]) == Some(OperatorKind::SetCharacterSpacing),
        kind_of_token(seq![0x54u8, 0x77]) == Some(OperatorKind::SetWordSpacing),
        kind_of_token(seq![0x54u8, 0x7a]) == Some(OperatorKind::SetHorizontalScaling),
        kind_of_token(seq![0x54u8, 0x4c]) == Some(OperatorKind::SetTextLeading),
        kind_of_token(seq![0x54u8, 0x66]) == Some(OperatorKind::SetTextFont),
        kind_of_token(seq![0x54u8, 0x72]) == Some(OperatorKind::SetTextRenderMode),
        kind_of_token(seq![0x54u8, 0x73]) == Some(OperatorKind::SetTextRise),
        kind_of_token(seq![0x54u8, 0x64]) == Some(OperatorKind::MoveTextPosition),
        kind_of_token(seq![0x54u8, 0x44]) == Some(OperatorKind::MoveTextPositionSetLeading),
        kind_of_token(seq![0x54u8, 0x6d]) == Some(OperatorKind::SetTextMatrix),
        kind_of_token(seq![0x54u8, 0x2a]) == Some(OperatorKind::MoveToNextTextLine),
        kind_of_token(seq![0x54u8, 0x6a]) == Some(OperatorKind::ShowText),
        kind_of_token(seq![0x54u8, 0x4a]) == Some(OperatorKind::ShowTextAdjusted),
        kind_of_token(seq![0x27u8]) == Some(OperatorKind::MoveNextLineShowText),
        kind_of_token(seq![0x22u8]) == Some(OperatorKind::SetSpacingMoveNextLineShowText),
        kind_of_token(seq![0x42u8, 0x58]) == Some(OperatorKind::BeginCompatibility),
        kind_of_token(seq![0x45u8, 0x58]) == Some(OperatorKind::EndCompatibility),
        kind_of_token(seq![0x4du8, 0x50]) == Some(OperatorKind::MarkedContentPoint),
        kind_of_token(seq![0x44u8, 0x50]) == Some(OperatorKind::MarkedContentPointProperties),
        kind_of_token(seq![0x42u8, 0x4d, 0x43]) == Some(OperatorKind::BeginMarkedContent),
        kind_of_token(seq![0x42u8, 0x44, 0x43]) == Some(OperatorKind::BeginMarkedContentProperties),
        kind_of_token(seq![0x45u8, 0x4d, 0x43]) == Some(OperatorKind::EndMarkedContent),
        kind_of_token(seq![0x6du8]) == Some(OperatorKind::MoveTo),
        kind_of_token(seq![0x6cu8]) == Some(OperatorKind::LineTo),
        kind_of_token(seq![0x63u8]) == Some(OperatorKind::CubicCurveTo),
        kind_of_token(seq![0x76u8]) == Some(OperatorKind::CubicCurveToReplicateInitial),
        kind_of_token(seq![0x79u8]) == Some(OperatorKind::CubicCurveToReplicateFinal),
        kind_of_token(seq![0x68u8]) == Some(OperatorKind::ClosePath),
        kind_of_token(seq![0x72u8, 0x65]) == Some(OperatorKind::Rectangle),
        kind_of_token(seq![0x53u8]) == Some(OperatorKind::StrokePath),
        kind_of_token(seq![0x73u8]) == Some(OperatorKind::CloseAndStrokePath),
        kind_of_token(seq![0x66u8]) == Some(OperatorKind::FillNonzero),
        kind_of_token(seq![0x46u8]) == Some(OperatorKind::FillNonzeroLegacy),
        kind_of_token(seq![0x66u8, 0x2a]) == Some(OperatorKind::FillEvenOdd),
        kind_of_token(seq![0x42u8]) == Some(OperatorKind::FillStrokeNonzero),
        kind_of_token(seq![0x42u8, 0x2a]) == Some(OperatorKind::FillStrokeEvenOdd),
        kind_of_token(seq![0x62u8]) == Some(OperatorKind::CloseFillStrokeNonzero),
        kind_of_token(seq![0x62u8, 0x2a]) == Some(OperatorKind::CloseFillStrokeEvenOdd),
        kind_of_token(seq![0x6eu8]) == Some(OperatorKind::EndPath),
        kind_of_token(seq![0x57u8]) == Some(OperatorKind::ClipNonzero),
        kind_of_token(seq![0x57u8, 0x2a]) == Some(OperatorKind::ClipEvenOdd),
        kind_of_token(seq![0x77u8]) == Some(OperatorKind::SetLineWidth),
        kind_of_token(seq![0x4au8]) == Some(OperatorKind::SetLineCap),
        kind_of_token(seq![0x6au8]) == Some(OperatorKind::SetLineJoin),
        kind_of_token(seq![0x4du8]) == Some(OperatorKind::SetMiterLimit),
        kind_of_token(seq![0x64u8]) == Some(OperatorKind::SetLineDash),
        kind_of_token(seq![0x47u8]) == Some(OperatorKind::SetStrokingGray),
        kind_of_token(seq![0x67u8]) == Some(OperatorKind::SetNonstrokingGray),
        kind_of_token(seq![0x52u8, 0x47]) == Some(OperatorKind::SetStrokingRgb),
        kind_of_token(seq![0x72u8, 0x67]) == Some(OperatorKind::SetNonstrokingRgb),
        kind_of_token(seq![0x4bu8]) == Some(OperatorKind::SetStrokingCmyk),
        kind_of_token(seq![0x6bu8]) == Some(OperatorKind::SetNonstrokingCmyk),
        kind_of_token(seq![0x44u8, 0x6f]) == Some(OperatorKind::PaintXObject),
{
}

/// No token that is empty or longer than three bytes names an operator.
pub proof fn other_tokens_name_nothing(token: Seq<u8>)
    requires
        token.len() == 0 || token.len() > 3,
    ensures
        kind_of_token(token) is None,
{
}

/// Whether an operator builds, paints or clips a path, or paints an object.
pub open spec fn draws(kind: OperatorKind) -> bool {
    fills(kind) || strokes_path(kind) || match kind {
        OperatorKind::MoveTo
        | OperatorKind::LineTo
        | OperatorKind::CubicCurveTo
        | OperatorKind::CubicCurveToReplicateInitial
        | OperatorKind::CubicCurveToReplicateFinal
        | OperatorKind::ClosePath
        | OperatorKind::Rectangle
        | OperatorKind::EndPath
        | OperatorKind::ClipNonzero
        | OperatorKind::ClipEvenOdd
        | OperatorKind::PaintXObject => true,
        _ => false,
    }
}

/// Whether an operator positions or shows text.
pub open spec fn writes(kind: OperatorKind) -> bool {
    match kind {
        OperatorKind::MoveTextPosition
        | OperatorKind::MoveTextPositionSetLeading
        | OperatorKind::SetTextMatrix
        | OperatorKind::MoveToNextTextLine
        | OperatorKind::ShowText
        | OperatorKind::ShowTextAdjusted
        | OperatorKind::MoveNextLineShowText
        | OperatorKind::SetSpacingMoveNextLineShowText => true,
        _ => false,
    }
}

/// Nothing is drawn inside a text object, and nothing is written outside of one; every other
/// operator may stand anywhere.
pub proof fn text_objects_hold_text_only(
    kind: OperatorKind,
    text_active: bool,
    source: ContentOperatorSource,
)
    ensures
        context_fault(kind, text_active, source) is Some <==> if text_active {
            draws(kind)
        } else {
            writes(kind)
        },
{
}

} // verus!
