//! When operators succeed, and why they do not.

use vstd::prelude::*;

use crate::content::drawing_laws::{closes_path, fills, strokes_path};
use crate::content::graphics_limits::ContentGraphicsLimitConfig;
use crate::content::graphics_model::{
    all_mapped, graphics_outcome, is_path_operator, point_count, points_of, GraphicsFault,
    GraphicsView,
};
use crate::content::model::ContentOperatorSource;
use crate::content::operands::{converted, operand_fuel, operand_number, OperandsView};
use crate::content::operator::OperatorKind;
use crate::content::plan::ExecutionAction;
use crate::content::planner_laws::plan_ok;
use crate::content::planner_model::{
    array_adjustments, array_bytes, array_fault, form_depth, general_outcome, is_text_array,
    known_outcome, operator_admitted, planned, printable, saved_depth, text_outcome, AnswerView,
    PlanConfig, PlannerView,
};
use crate::content::scene::{SceneBounds, ScenePoint};
use crate::content::view::{LocatedView, OperandView, OperatorView};
use crate::content::vm_error::{ContentVmErrorCode, SceneError};

verus! {

/// An admitted operator of structure succeeds exactly where what it begins has room within its
/// budget, and what it ends was begun.
pub proof fn structure_nests_within_its_budgets(
    view: PlannerView,
    config: PlanConfig,
    operator: OperatorView,
    kind: OperatorKind,
    answer: AnswerView,
)
    requires
        plan_ok(view, config),
        !view.awaiting,
        operator.known == Some(kind),
        operator_admitted(view, config, operator),
    ensures
        ({
            let succeeds = planned(view, config, operator, answer) is Ok;
            &&& kind == OperatorKind::SaveGraphicsState ==> (succeeds <==> saved_depth(view, config)
                + form_depth(config) < config.vm.max_graphics_state_depth)
            &&& kind == OperatorKind::RestoreGraphicsState ==> (succeeds <==> saved_depth(
                view,
                config,
            ) > 0)
            &&& kind == OperatorKind::BeginCompatibility ==> (succeeds <==> view.compatibility_depth
                < config.vm.max_compatibility_depth)
            &&& kind == OperatorKind::EndCompatibility ==> (succeeds <==> view.compatibility_depth
                > 0)
            &&& kind == OperatorKind::BeginMarkedContent ==> (succeeds <==> view.marked_depth
                < config.vm.max_marked_content_depth)
            &&& kind == OperatorKind::EndMarkedContent ==> (succeeds <==> view.marked_depth > 0)
            &&& kind == OperatorKind::BeginText ==> (succeeds <==> !view.text_active)
            &&& kind == OperatorKind::EndText ==> (succeeds <==> view.text_active)
            &&& kind == OperatorKind::MarkedContentPoint || kind
                == OperatorKind::MarkedContentPointProperties ==> !succeeds
            &&& kind == OperatorKind::ConcatMatrix ==> (succeeds <==> (
            answer matches AnswerView::Product(product) && product is Ok))
            &&& kind == OperatorKind::PaintXObject ==> (succeeds <==> config.graphics is Some && (
            config.images matches Some(limits) && view.charges.image_uses
                < limits.max_image_uses))
        }),
{
    reveal(known_outcome);
    reveal(general_outcome);
    reveal(text_outcome);
}

/// Whether an operator sets a parameter of text, or moves it, by numbers alone.
pub open spec fn places_text(kind: OperatorKind) -> bool {
    match kind {
        OperatorKind::SetCharacterSpacing
        | OperatorKind::SetWordSpacing
        | OperatorKind::SetHorizontalScaling
        | OperatorKind::SetTextLeading
        | OperatorKind::SetTextRise
        | OperatorKind::MoveTextPosition
        | OperatorKind::MoveTextPositionSetLeading
        | OperatorKind::SetTextMatrix
        | OperatorKind::MoveToNextTextLine => true,
        _ => false,
    }
}

/// An admitted operator of text succeeds where fonts and graphics are planned: one that places text
/// always, a selection where another font may be used, a render mode where it fills. Without them
/// none succeeds.
pub proof fn text_needs_fonts_and_graphics(
    view: PlannerView,
    config: PlanConfig,
    operator: OperatorView,
    kind: OperatorKind,
    answer: AnswerView,
)
    requires
        !view.awaiting,
        operator.known == Some(kind),
        operator_admitted(view, config, operator),
    ensures
        ({
            let succeeds = planned(view, config, operator, answer) is Ok;
            let planned_for = config.fonts is Some && config.graphics is Some;
            &&& places_text(kind) ==> (succeeds <==> planned_for)
            &&& kind == OperatorKind::SetTextFont ==> (succeeds <==> planned_for && view.font_uses
                < config.fonts->0.max_font_uses)
            &&& kind == OperatorKind::SetTextRenderMode ==> (succeeds <==> planned_for
                && operator.operands[0].value->Integer_0 == 0)
            &&& kind == OperatorKind::ShowText && succeeds ==> planned_for && view.font_selected
        }),
{
    reveal(known_outcome);
    reveal(text_outcome);
}

/// Whether an operator shows one string.
pub open spec fn shows_a_string(kind: OperatorKind) -> bool {
    kind == OperatorKind::ShowText || kind == OperatorKind::MoveNextLineShowText || kind
        == OperatorKind::SetSpacingMoveNextLineShowText
}

/// A string is shown exactly where fonts and graphics are planned, a font is selected, every byte is
/// printable, and its bytes fit the budget. They are counted, one by one.
pub proof fn printable_strings_are_shown(
    view: PlannerView,
    config: PlanConfig,
    operator: OperatorView,
    kind: OperatorKind,
    answer: AnswerView,
)
    requires
        !view.awaiting,
        operator.known == Some(kind),
        shows_a_string(kind),
        operator_admitted(view, config, operator),
        operator.operands.last().value->String_bytes.len() <= u64::MAX,
    ensures
        ({
            let bytes = operator.operands.last().value->String_bytes;
            let limits = config.fonts->0;
            &&& planned(view, config, operator, answer) is Ok <==> {
                &&& config.fonts is Some && config.graphics is Some
                &&& view.font_selected
                &&& view.text_bytes + bytes.len() <= limits.max_text_bytes
                &&& view.text_adjustments <= limits.max_text_adjustments
                &&& forall|i: int| 0 <= i < bytes.len() ==> 0x20 <= #[trigger] bytes[i] < 0x7f
            }
            &&& planned(view, config, operator, answer) matches Ok(next) ==> next.text_bytes
                == view.text_bytes + bytes.len() && next.text_adjustments == view.text_adjustments
        }),
{
    reveal(known_outcome);
    reveal(text_outcome);
    let bytes = operator.operands.last().value->String_bytes;
    assert(printable(bytes) <==> forall|i: int|
        0 <= i < bytes.len() ==> 0x20 <= #[trigger] bytes[i] < 0x7f);
}

/// Whether an item of a text array can be shown: a printable string, or a number that is denoted.
pub open spec fn showable(item: LocatedView, source: ContentOperatorSource) -> bool {
    match item.value {
        OperandView::String { bytes, .. } => forall|i: int|
            0 <= i < bytes.len() ==> 0x20 <= #[trigger] bytes[i] < 0x7f,
        OperandView::Integer(_) | OperandView::Real(_) => operand_number(item, source) is Ok,
        _ => false,
    }
}

proof fn sound_arrays_are_showable(
    values: Seq<LocatedView>,
    count: int,
    source: ContentOperatorSource,
)
    requires
        0 <= count <= values.len(),
        is_text_array(values),
    ensures
        array_fault(values, count, source) is None <==> forall|i: int|
            0 <= i < count ==> showable(#[trigger] values[i], source),
    decreases count,
{
    if count > 0 {
        sound_arrays_are_showable(values, count - 1, source);
        let last = values[count - 1];
        assert(last.value is String || last.value is Integer || last.value is Real);
        if let OperandView::String { bytes, .. } = last.value {
            assert(printable(bytes) <==> showable(last, source));
        }
    }
}

/// A text array is shown only where a font is selected and every item can be shown; where every item
/// can, nothing but a budget keeps it from that.
pub proof fn showable_arrays_are_shown(
    view: PlannerView,
    config: PlanConfig,
    operator: OperatorView,
    answer: AnswerView,
)
    requires
        !view.awaiting,
        operator.known == Some(OperatorKind::ShowTextAdjusted),
        operator_admitted(view, config, operator),
    ensures
        ({
            let values = operator.operands[0].value->Array_0;
            let n = values.len() as int;
            let limits = config.fonts->0;
            planned(view, config, operator, answer) is Ok <==> {
                &&& config.fonts is Some && config.graphics is Some
                &&& view.font_selected
                &&& forall|i: int|
                    0 <= i < n ==> showable(#[trigger] values[i], operator.source)
                &&& view.text_bytes + (array_bytes(values, n) as u64) <= limits.max_text_bytes
                &&& view.text_adjustments + (array_adjustments(values, n) as u64)
                    <= limits.max_text_adjustments
            }
        }),
{
    reveal(known_outcome);
    reveal(text_outcome);
    let values = operator.operands[0].value->Array_0;
    let n = values.len() as int;
    if is_text_array(values) {
        sound_arrays_are_showable(values, n, operator.source);
    } else {
        let i = choose|i: int|
            0 <= i < values.len() && !{
                let value = (#[trigger] values[i]).value;
                value is String || value is Integer || value is Real
            };
        assert(!showable(values[i], operator.source));
    }
}

/// Segments that an operator adds to a path. A segment behind a closed subpath begins it anew.
pub open spec fn segments_added(view: GraphicsView, kind: OperatorKind) -> int {
    match kind {
        OperatorKind::MoveTo => 1,
        OperatorKind::Rectangle => 5,
        _ => if view.subpath_start is None {
            2
        } else {
            1
        },
    }
}

proof fn mapped_points_are_there(mapped: Seq<Result<ScenePoint, SceneError>>, count: int)
    requires
        0 <= count <= mapped.len(),
    ensures
        all_mapped(mapped, count) is Ok <==> forall|i: int|
            0 <= i < count ==> (#[trigger] mapped[i]) is Ok,
    decreases count,
{
    if count > 0 {
        mapped_points_are_there(mapped, count - 1);
        assert(mapped[count - 1] is Ok || mapped[count - 1] is Err);
    }
}

/// A path operator whose points are mapped succeeds exactly where its segments fit the budget, and
/// where there is a point to go on from unless it begins a subpath itself.
pub proof fn paths_grow_where_there_is_room(
    view: GraphicsView,
    kind: OperatorKind,
    operands: OperandsView,
    mapped: Seq<Result<ScenePoint, SceneError>>,
    limits: ContentGraphicsLimitConfig,
    source: ContentOperatorSource,
)
    requires
        is_path_operator(kind),
        points_of(kind, operands->Numbers_0) is Ok,
        mapped.len() == point_count(kind),
        forall|i: int| 0 <= i < mapped.len() ==> (#[trigger] mapped[i]) is Ok,
        view.path.len() <= u64::MAX,
    ensures
        ({
            let begins = kind == OperatorKind::MoveTo || kind == OperatorKind::Rectangle;
            let outcome = graphics_outcome(view, kind, operands, mapped, limits, source);
            &&& outcome is Ok <==> (begins || view.current_point is Some) && view.path.len()
                + segments_added(view, kind) <= limits.max_path_segments
            &&& outcome matches Ok((after, actions)) ==> after.path.len() == view.path.len()
                + segments_added(view, kind) && actions.len() == 0
            &&& !begins && view.current_point is None ==> (outcome matches Err(GraphicsFault::Vm(error))
                && error.code == ContentVmErrorCode::InvalidPathState)
        }),
{
    reveal(graphics_outcome);
    mapped_points_are_there(mapped, point_count(kind));
}

/// The work of an operator beyond its base covers what it adds: a path operator is charged for the
/// most segments that it may add, which it does behind a closed subpath, and text for each byte or
/// item that it shows.
pub proof fn work_covers_what_is_added(view: GraphicsView, kind: OperatorKind, operands: OperandsView)
    ensures
        is_path_operator(kind) ==> {
            &&& segments_added(view, kind) <= operand_fuel(kind, operands)
            &&& view.subpath_start is None ==> segments_added(view, kind) == operand_fuel(
                kind,
                operands,
            )
        },
        kind == OperatorKind::ClosePath ==> operand_fuel(kind, operands) == 1,
        !is_path_operator(kind) && kind != OperatorKind::ClosePath ==> match operands {
            OperandsView::String(bytes) => operand_fuel(kind, operands) == bytes.len(),
            OperandsView::TwoNumbersAndString(_, bytes) => operand_fuel(kind, operands)
                == bytes.len(),
            OperandsView::Array(values) => operand_fuel(kind, operands) == values.len(),
            OperandsView::Numbers(_) => operand_fuel(kind, operands) == 0,
            OperandsView::NameAndNumber(name, _) => kind == OperatorKind::SetTextFont
                ==> operand_fuel(kind, operands) == name.len(),
            _ => true,
        },
{
}

/// Where an action paints: on the page, or nowhere where its path is empty.
pub open spec fn painted_bounds(action: ExecutionAction) -> Option<SceneBounds> {
    match action {
        ExecutionAction::Fill { bounds, .. } => Some(bounds),
        ExecutionAction::Stroke { bounds, .. } => Some(bounds),
        ExecutionAction::FillStroke { bounds, .. } => Some(bounds),
        ExecutionAction::Clip { bounds, .. } => Some(bounds),
        _ => None,
    }
}

/// Painting succeeds wherever the path can be closed within its budget, if it is to be closed, and
/// one more clip can be counted, if one waits. What it publishes covers the page, or nothing where
/// the path is empty.
pub proof fn painting_succeeds(
    view: GraphicsView,
    kind: OperatorKind,
    operands: OperandsView,
    mapped: Seq<Result<ScenePoint, SceneError>>,
    limits: ContentGraphicsLimitConfig,
    source: ContentOperatorSource,
)
    requires
        fills(kind) || strokes_path(kind) || kind == OperatorKind::EndPath,
        view.path.len() <= u64::MAX,
    ensures
        ({
            let outcome = graphics_outcome(view, kind, operands, mapped, limits, source);
            let closing = closes_path(kind) && view.subpath_start is Some;
            &&& outcome is Ok <==> (closing ==> view.path.len() < limits.max_path_segments) && (
            view.pending_clip is Some ==> view.current.clip_depth < u32::MAX)
            &&& outcome matches Ok((after, actions)) ==> forall|i: int|
                0 <= i < actions.len() ==> painted_bounds(#[trigger] actions[i]) == Some(
                    if view.path.len() == 0 && !closing {
                        SceneBounds::Empty
                    } else {
                        SceneBounds::Page
                    },
                )
        }),
{
    reveal(graphics_outcome);
}

/// Closing a path succeeds where there is nothing to close, or room for one more segment; a clip is
/// always taken.
pub proof fn closing_and_clipping_succeed(
    view: GraphicsView,
    operands: OperandsView,
    mapped: Seq<Result<ScenePoint, SceneError>>,
    limits: ContentGraphicsLimitConfig,
    source: ContentOperatorSource,
)
    requires
        view.path.len() <= u64::MAX,
    ensures
        graphics_outcome(view, OperatorKind::ClosePath, operands, mapped, limits, source) is Ok
            <==> view.subpath_start is None || view.path.len() < limits.max_path_segments,
        graphics_outcome(view, OperatorKind::ClipNonzero, operands, mapped, limits, source) is Ok,
        graphics_outcome(view, OperatorKind::ClipEvenOdd, operands, mapped, limits, source) is Ok,
{
    reveal(graphics_outcome);
}

/// An admitted operator of the graphics machine is planned exactly where graphics are, its points
/// can be told and are answered, and the machine takes it.
pub proof fn planning_succeeds_with_the_machine(
    view: PlannerView,
    config: PlanConfig,
    operator: OperatorView,
    kind: OperatorKind,
    answer: AnswerView,
)
    requires
        !view.awaiting,
        operator.known == Some(kind),
        is_path_operator(kind) || kind == OperatorKind::ClosePath || fills(kind) || strokes_path(kind)
            || kind == OperatorKind::EndPath || kind == OperatorKind::ClipNonzero || kind
            == OperatorKind::ClipEvenOdd,
        operator_admitted(view, config, operator),
    ensures
        ({
            let operands = converted(kind, operator.operands, operator.source)->Ok_0;
            let mapped = match answer {
                AnswerView::Points(points) => points,
                _ => Seq::empty(),
            };
            planned(view, config, operator, answer) is Ok <==> config.graphics is Some && points_of(
                kind,
                operands->Numbers_0,
            ) is Ok && mapped.len() == point_count(kind) && graphics_outcome(
                view.graphics,
                kind,
                operands,
                mapped,
                config.graphics->0,
                operator.source,
            ) is Ok
        }),
{
    reveal(known_outcome);
    reveal(general_outcome);
}

} // verus!
