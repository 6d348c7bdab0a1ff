//! Laws of the operators that change the graphics state.

use vstd::prelude::*;

use crate::content::geometry::{carried_x, composes, lands_on};
use crate::content::drawing_laws::planning_runs_the_machine;
use crate::content::ext_gstate::{resource_index, ContentExtGStateResource};
use crate::content::graphics_model::{graphics_outcome, unit_value, GraphicsState, GraphicsView};
use crate::content::model::ContentOperatorSource;
use crate::content::number::ContentNumber;
use crate::content::operands::{operand_number, operand_numbers, structure_fault};
use crate::content::operator::OperatorKind;
use crate::content::plan::ExecutionAction;
use crate::content::planner_model::{
    dash_outcome, dash_values, general_outcome, known_outcome, operator_admitted, planned, required,
    AnswerView, PlanConfig, PlannerView, RequirementView,
};
use crate::content::scene::{DeviceColor, LineCap, LineJoin, Matrix, Paint, SceneBounds, SceneUnit};
use crate::content::view::{LocatedView, OperandView, OperatorView};

verus! {

/// The number that an operand of an operator denotes, in billionths.
pub open spec fn operand_value(operator: OperatorView, i: int) -> int {
    operand_number(operator.operands[i], operator.source)->Ok_0.scaled as int
}

/// Whether the first `count` operands of an operator denote numbers.
pub open spec fn has_numbers(operator: OperatorView, count: int) -> bool {
    forall|i: int|
        0 <= i < count ==> operand_number(#[trigger] operator.operands[i], operator.source) is Ok
}

/// Whether an operator of a kind has the operands that it takes.
pub open spec fn well_operated(operator: OperatorView, kind: OperatorKind) -> bool {
    operator.known == Some(kind) && structure_fault(kind, operator.operands, operator.source)
        is None
}

pub(crate) proof fn numbers_are_those_of_the_operands(
    operands: Seq<LocatedView>,
    count: int,
    source: ContentOperatorSource,
)
    requires
        0 <= count <= operands.len(),
    ensures
        operand_numbers(operands, count, source) matches Ok(numbers) ==> {
            &&& numbers.len() == count
            &&& forall|i: int|
                0 <= i < count ==> operand_number(#[trigger] operands[i], source) is Ok
                    && numbers[i] == operand_number(operands[i], source)->Ok_0
        },
        (forall|i: int| 0 <= i < count ==> operand_number(#[trigger] operands[i], source) is Ok)
            ==> operand_numbers(operands, count, source) is Ok,
    decreases count,
{
    if count > 0 {
        numbers_are_those_of_the_operands(operands, count - 1, source);
        assert(operand_number(operands[count - 1], source) is Ok ==> true);
    }
}

/// Concatenating a transform applies it to user space before the transform that was current: a point
/// goes through the six operands, and what comes out goes where the earlier transform carries it.
pub proof fn concatenation_applies_the_operand_first(
    view: PlannerView,
    config: PlanConfig,
    operator: OperatorView,
    product: Matrix,
    x: int,
    y: int,
)
    requires
        !view.awaiting,
        well_operated(operator, OperatorKind::ConcatMatrix),
        has_numbers(operator, 6),
    ensures
        ({
            let asked = required(view, config, operator);
            &&& asked is Product
            &&& composes(product, asked->Product_0, asked->Product_1) ==> (planned(
                view,
                config,
                operator,
                AnswerView::Product(Ok(product)),
            ) matches Ok(next) ==> {
                &&& lands_on(
                    next.ctm,
                    x,
                    y,
                    view.ctm,
                    operand_value(operator, 0) * x + operand_value(operator, 2) * y
                        + operand_value(operator, 4) * 1_000_000_000,
                    operand_value(operator, 1) * x + operand_value(operator, 3) * y
                        + operand_value(operator, 5) * 1_000_000_000,
                )
                &&& config.graphics is Some ==> next.graphics.current.ctm == next.ctm
            })
        }),
{
    reveal(known_outcome);
    reveal(general_outcome);
    numbers_are_those_of_the_operands(operator.operands, 6, operator.source);
    assert(operand_number(operator.operands[0], operator.source) is Ok);
    assert(operand_number(operator.operands[1], operator.source) is Ok);
    assert(operand_number(operator.operands[2], operator.source) is Ok);
    assert(operand_number(operator.operands[3], operator.source) is Ok);
    assert(operand_number(operator.operands[4], operator.source) is Ok);
    assert(operand_number(operator.operands[5], operator.source) is Ok);
    assert(carried_x(product, x, y) == carried_x(product, x, y));
}

/// Concatenating a transform that moves nothing keeps the translation as it is: what was moved
/// before is not scaled.
pub proof fn concatenation_keeps_an_earlier_translation(
    view: PlannerView,
    config: PlanConfig,
    operator: OperatorView,
    product: Matrix,
)
    requires
        !view.awaiting,
        well_operated(operator, OperatorKind::ConcatMatrix),
        has_numbers(operator, 6),
        operand_value(operator, 4) == 0,
        operand_value(operator, 5) == 0,
        ({
            let asked = required(view, config, operator);
            composes(product, asked->Product_0, asked->Product_1)
        }),
    ensures
        planned(view, config, operator, AnswerView::Product(Ok(product))) matches Ok(next)
            ==> next.ctm.e == view.ctm.e && next.ctm.f == view.ctm.f,
{
    concatenation_applies_the_operand_first(view, config, operator, product, 0, 0);
}

/// A number clamped to the unit interval, in billionths.
pub open spec fn clamped(value: int) -> int {
    if value < 0 {
        0
    } else if value > 1_000_000_000 {
        1_000_000_000
    } else {
        value
    }
}

/// Whether a component is the step of 65535 that is nearest to a number, clamped to the unit
/// interval.
pub open spec fn is_nearest_step(component: SceneUnit, value: int) -> bool {
    -500_000_000 <= component.value * 1_000_000_000 - clamped(value) * 65_535 <= 500_000_000
}

/// Whether a color is what the operands of a color operator denote: gray of one, RGB of three, and
/// CMYK of four, in that order.
pub open spec fn is_operand_color(color: DeviceColor, operator: OperatorView) -> bool {
    match color {
        DeviceColor::Gray(gray) => {
            &&& operator.operands.len() == 1
            &&& is_nearest_step(gray, operand_value(operator, 0))
        },
        DeviceColor::Rgb { red, green, blue } => {
            &&& operator.operands.len() == 3
            &&& is_nearest_step(red, operand_value(operator, 0))
            &&& is_nearest_step(green, operand_value(operator, 1))
            &&& is_nearest_step(blue, operand_value(operator, 2))
        },
        DeviceColor::Cmyk { cyan, magenta, yellow, black } => {
            &&& operator.operands.len() == 4
            &&& is_nearest_step(cyan, operand_value(operator, 0))
            &&& is_nearest_step(magenta, operand_value(operator, 1))
            &&& is_nearest_step(yellow, operand_value(operator, 2))
            &&& is_nearest_step(black, operand_value(operator, 3))
        },
    }
}

/// Whether an operator sets the color of strokes.
pub open spec fn colors_strokes(kind: OperatorKind) -> bool {
    kind == OperatorKind::SetStrokingGray || kind == OperatorKind::SetStrokingRgb || kind
        == OperatorKind::SetStrokingCmyk
}

/// Whether an operator sets the color of areas.
pub open spec fn colors_areas(kind: OperatorKind) -> bool {
    kind == OperatorKind::SetNonstrokingGray || kind == OperatorKind::SetNonstrokingRgb || kind
        == OperatorKind::SetNonstrokingCmyk
}

proof fn unit_steps_are_nearest(number: ContentNumber)
    ensures
        is_nearest_step(unit_value(number), number.scaled as int),
{
    let c = clamped(number.scaled as int);
    let n = c * 65_535 + 500_000_000;
    assert(n == (n / 1_000_000_000) * 1_000_000_000 + n % 1_000_000_000);
}

/// A color operator sets the color of strokes, or that of areas, to its operands; alpha, blend mode
/// and everything else stay.
pub proof fn colors_are_those_of_the_operands(
    view: PlannerView,
    config: PlanConfig,
    operator: OperatorView,
    kind: OperatorKind,
    answer: AnswerView,
)
    requires
        !view.awaiting,
        operator.known == Some(kind),
        colors_strokes(kind) || colors_areas(kind),
    ensures
        operator_admitted(view, config, operator) && config.graphics is Some && answer is Nothing
            ==> planned(view, config, operator, answer) is Ok,
        planned(view, config, operator, answer) matches Ok(next) ==> {
            let before = view.graphics.current;
            let after = next.graphics.current;
            &&& next.actions == view.actions
            &&& next.graphics == (GraphicsView { current: after, ..view.graphics })
            &&& colors_strokes(kind) ==> {
                &&& is_operand_color(after.stroking.color, operator)
                &&& after == (GraphicsState {
                    stroking: Paint { color: after.stroking.color, ..before.stroking },
                    ..before
                })
            }
            &&& colors_areas(kind) ==> {
                &&& is_operand_color(after.nonstroking.color, operator)
                &&& after == (GraphicsState {
                    nonstroking: Paint { color: after.nonstroking.color, ..before.nonstroking },
                    ..before
                })
            }
        },
{
    planning_runs_the_machine(view, config, operator, kind, answer);
    reveal(known_outcome);
    reveal(general_outcome);
    reveal(graphics_outcome);
    numbers_are_those_of_the_operands(
        operator.operands,
        operator.operands.len() as int,
        operator.source,
    );
    if let Ok(next) = planned(view, config, operator, answer) {
        let count = operator.operands.len() as int;
        numbers_are_those_of_the_operands(operator.operands, count, operator.source);
        assert(next.actions =~= view.actions);
        let numbers = operand_numbers(operator.operands, count, operator.source)->Ok_0;
        assert(operand_number(operator.operands[0], operator.source) is Ok);
        unit_steps_are_nearest(numbers[0]);
        if count >= 3 {
            assert(operand_number(operator.operands[1], operator.source) is Ok);
            assert(operand_number(operator.operands[2], operator.source) is Ok);
            unit_steps_are_nearest(numbers[1]);
            unit_steps_are_nearest(numbers[2]);
        }
        if count >= 4 {
            assert(operand_number(operator.operands[3], operator.source) is Ok);
            unit_steps_are_nearest(numbers[3]);
        }
    }
}

/// A line operator sets its own parameter, exactly to its operand, and no other. A negative width,
/// a miter limit below one, and a cap or join other than 0, 1 and 2 are refused.
pub proof fn line_parameters_are_set_one_at_a_time(
    view: PlannerView,
    config: PlanConfig,
    operator: OperatorView,
    kind: OperatorKind,
    answer: AnswerView,
)
    requires
        !view.awaiting,
        operator.known == Some(kind),
        kind == OperatorKind::SetLineWidth || kind == OperatorKind::SetLineCap || kind
            == OperatorKind::SetLineJoin || kind == OperatorKind::SetMiterLimit,
    ensures
        operator_admitted(view, config, operator) && config.graphics is Some && answer is Nothing && (
        if kind == OperatorKind::SetLineWidth {
            operand_value(operator, 0) >= 0
        } else if kind == OperatorKind::SetMiterLimit {
            operand_value(operator, 0) >= 1_000_000_000
        } else {
            0 <= operator.operands[0].value->Integer_0 <= 2
        }) ==> planned(view, config, operator, answer) is Ok,
        planned(view, config, operator, answer) matches Ok(next) ==> {
            let before = view.graphics.current;
            let after = next.graphics.current;
            &&& next.actions == view.actions
            &&& next.graphics == (GraphicsView { current: after, ..view.graphics })
            &&& operator.operands.len() == 1
            &&& kind == OperatorKind::SetLineWidth ==> {
                &&& after.line_width.scaled == operand_value(operator, 0)
                &&& after.line_width.scaled >= 0
                &&& after == (GraphicsState { line_width: after.line_width, ..before })
            }
            &&& kind == OperatorKind::SetMiterLimit ==> {
                &&& after.miter_limit.scaled == operand_value(operator, 0)
                &&& after.miter_limit.scaled >= 1_000_000_000
                &&& after == (GraphicsState { miter_limit: after.miter_limit, ..before })
            }
            &&& kind == OperatorKind::SetLineCap ==> {
                &&& operator.operands[0].value matches OperandView::Integer(value) && {
                    &&& 0 <= value <= 2
                    &&& after.line_cap == LineCap::Butt <==> value == 0
                    &&& after.line_cap == LineCap::Square <==> value == 2
                }
                &&& after == (GraphicsState { line_cap: after.line_cap, ..before })
            }
            &&& kind == OperatorKind::SetLineJoin ==> {
                &&& operator.operands[0].value matches OperandView::Integer(value) && {
                    &&& 0 <= value <= 2
                    &&& after.line_join == LineJoin::Miter <==> value == 0
                    &&& after.line_join == LineJoin::Bevel <==> value == 2
                }
                &&& after == (GraphicsState { line_join: after.line_join, ..before })
            }
        },
{
    planning_runs_the_machine(view, config, operator, kind, answer);
    reveal(known_outcome);
    reveal(general_outcome);
    reveal(graphics_outcome);
    numbers_are_those_of_the_operands(
        operator.operands,
        operator.operands.len() as int,
        operator.source,
    );
    if let Ok(next) = planned(view, config, operator, answer) {
        numbers_are_those_of_the_operands(operator.operands, 1, operator.source);
        assert(next.actions =~= view.actions);
        if kind == OperatorKind::SetLineWidth || kind == OperatorKind::SetMiterLimit {
            assert(operand_number(operator.operands[0], operator.source) is Ok);
        }
    }
}

/// A line dash becomes the current one with its lengths in order and its phase; dashes that lines
/// were stroked with stay what they were.
pub proof fn dashes_are_those_of_the_operands(
    view: PlannerView,
    config: PlanConfig,
    operator: OperatorView,
    answer: AnswerView,
)
    requires
        !view.awaiting,
        operator.known == Some(OperatorKind::SetLineDash),
        view.graphics.dashes.len() <= usize::MAX,
    ensures
        planned(view, config, operator, answer) matches Ok(next) ==> {
            let after = next.graphics;
            let dash = after.dashes[after.current.dash as int];
            &&& answer == AnswerView::Dash(true)
            &&& next.actions == view.actions
            &&& after.dashes.len() == view.graphics.dashes.len() + 1
            &&& after.dashes.drop_last() == view.graphics.dashes
            &&& after.current == (GraphicsState { dash: after.current.dash, ..view.graphics.current })
            &&& after.current.dash == view.graphics.dashes.len()
            &&& operator.operands[0].value matches OperandView::Array(values) && {
                &&& dash.array.len() == values.len()
                &&& forall|i: int|
                    0 <= i < values.len() ==> operand_number(
                        #[trigger] values[i],
                        operator.source,
                    ) is Ok && dash.array[i].scaled == operand_number(
                        values[i],
                        operator.source,
                    )->Ok_0.scaled && dash.array[i].scaled >= 0
            }
            &&& dash.phase.scaled == operand_value(operator, 1)
            &&& dash.phase.scaled >= 0
            &&& required(view, config, operator) == RequirementView::Dash(dash.array, dash.phase)
        },
{
    reveal(known_outcome);
    reveal(dash_outcome);
    if let Ok(next) = planned(view, config, operator, answer) {
        let values = operator.operands[0].value->Array_0;
        dash_lengths_are_in_order(values, values.len() as int, operator.source);
        assert(next.graphics.dashes.drop_last() =~= view.graphics.dashes);
    }
}

proof fn dash_lengths_are_in_order(
    values: Seq<LocatedView>,
    count: int,
    source: ContentOperatorSource,
)
    requires
        0 <= count <= values.len(),
    ensures
        dash_values(values, count, source) matches Ok(array) ==> {
            &&& array.len() == count
            &&& forall|i: int|
                0 <= i < count ==> operand_number(#[trigger] values[i], source) is Ok
                    && array[i].scaled == operand_number(values[i], source)->Ok_0.scaled
                    && array[i].scaled >= 0
        },
    decreases count,
{
    if count > 0 {
        dash_lengths_are_in_order(values, count - 1, source);
    }
}

/// An external graphics state sets the alpha of strokes, that of areas, and the blend mode of both,
/// each only where the named resource selects one. Colors, lines and everything else stay.
pub proof fn external_states_set_what_they_select(
    view: PlannerView,
    config: PlanConfig,
    operator: OperatorView,
    answer: AnswerView,
)
    requires
        !view.awaiting,
        operator.known == Some(OperatorKind::SetGraphicsState),
    ensures
        planned(view, config, operator, answer) matches Ok(next) ==> {
            let before = view.graphics.current;
            let after = next.graphics.current;
            &&& next.actions == view.actions
            &&& next.graphics == (GraphicsView { current: after, ..view.graphics })
            &&& after == (GraphicsState {
                stroking: after.stroking,
                nonstroking: after.nonstroking,
                ..before
            })
            &&& after.stroking.color == before.stroking.color
            &&& after.nonstroking.color == before.nonstroking.color
            &&& exists|i: int|
                0 <= i < config.ext_gstates->0.len() && {
                    let resource = #[trigger] config.ext_gstates->0[i];
                    &&& operator.operands[0].value == OperandView::Name(resource.spec_name())
                    &&& match resource.spec_stroking_alpha() {
                        Some(alpha) => after.stroking.alpha == alpha,
                        None => after.stroking.alpha == before.stroking.alpha,
                    }
                    &&& match resource.spec_nonstroking_alpha() {
                        Some(alpha) => after.nonstroking.alpha == alpha,
                        None => after.nonstroking.alpha == before.nonstroking.alpha,
                    }
                    &&& match resource.spec_blend_mode() {
                        Some(mode) => after.stroking.blend_mode == mode
                            && after.nonstroking.blend_mode == mode,
                        None => after.stroking.blend_mode == before.stroking.blend_mode
                            && after.nonstroking.blend_mode == before.nonstroking.blend_mode,
                    }
                }
        },
{
    reveal(known_outcome);
    reveal(general_outcome);
    if let Ok(next) = planned(view, config, operator, answer) {
        let name = operator.operands[0].value->Name_0;
        let resources = config.ext_gstates->0;
        found_resources_have_the_name(resources, name, 0);
        let i = resource_index(resources, name, 0);
        assert(resources[i].spec_name() == name);
    }
}

proof fn found_resources_have_the_name(
    resources: Seq<ContentExtGStateResource>,
    name: Seq<u8>,
    i: int,
)
    requires
        0 <= i <= resources.len(),
    ensures
        ({
            let found = resource_index(resources, name, i);
            &&& i <= found
            &&& found < resources.len() ==> resources[found].spec_name() == name
        }),
    decreases resources.len() - i,
{
    if i < resources.len() && resources[i].spec_name() != name {
        found_resources_have_the_name(resources, name, i + 1);
    }
}

/// An external object is painted under the current transform, with the alpha and the blend mode of
/// areas, and looked up by its name. The graphics state stays.
pub proof fn objects_are_painted_under_the_current_state(
    view: PlannerView,
    config: PlanConfig,
    operator: OperatorView,
    answer: AnswerView,
)
    requires
        !view.awaiting,
        operator.known == Some(OperatorKind::PaintXObject),
        view.names.len() <= usize::MAX,
    ensures
        planned(view, config, operator, answer) matches Ok(next) ==> {
            let state = view.graphics.current;
            let invocation = next.planned_images.last();
            &&& next.graphics == view.graphics
            &&& next.actions.len() == view.actions.len() + 1
            &&& next.actions.drop_last() == view.actions
            &&& next.actions.last() matches ExecutionAction::DrawImage {
                transform,
                alpha,
                blend_mode,
                source,
                bounds,
                ..
            } && {
                &&& transform == state.ctm
                &&& alpha == state.nonstroking.alpha
                &&& blend_mode == state.nonstroking.blend_mode
                &&& source == operator.source
                &&& bounds == SceneBounds::Page
            }
            &&& next.planned_images.len() == view.planned_images.len() + 1
            &&& next.planned_images.drop_last() == view.planned_images
            &&& invocation.transform == state.ctm
            &&& invocation.source == operator.source
            &&& operator.operands[0].value == OperandView::Name(
                next.names[invocation.name as int],
            )
        },
{
    reveal(known_outcome);
    reveal(general_outcome);
    if let Ok(next) = planned(view, config, operator, answer) {
        assert(next.actions.drop_last() =~= view.actions);
        assert(next.planned_images.drop_last() =~= view.planned_images);
    }
}

} // verus!
