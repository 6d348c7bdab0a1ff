//! Laws of planning a whole program.

use vstd::prelude::*;

use crate::content::model::ContentOperatorSource;
use crate::content::operands::{converted, OperandsView};
use crate::content::operator::OperatorKind;
use crate::content::plan_builder::{planned_from, planned_until, steps_left};
use crate::content::planner_model::{
    dash_outcome, executed, general_outcome, imbalance, inspected, is_text, known_outcome,
    next_place, planned, required, saved_depth, text_outcome, AnswerView, PlanConfig, PlannerView,
};
use crate::content::view::OperatorView;
use crate::content::vm_error::ContentVmErrorCode;

verus! {

/// The operators that a plan went past when it stands at a place: one that awaits its property was
/// begun already.
pub open spec fn went_past(view: PlannerView, place: int) -> int {
    if view.awaiting {
        place + 1
    } else {
        place
    }
}

proof fn text_counts_nothing(
    view: PlannerView,
    config: PlanConfig,
    kind: OperatorKind,
    operands: OperandsView,
    source: ContentOperatorSource,
)
    ensures
        text_outcome(view, config, kind, operands, source) matches Ok(next) ==> next.charges.operators
            == view.charges.operators && next.awaiting == view.awaiting,
{
    reveal(text_outcome);
}

proof fn the_rest_counts_nothing(
    view: PlannerView,
    config: PlanConfig,
    kind: OperatorKind,
    operands: OperandsView,
    answer: AnswerView,
    source: ContentOperatorSource,
)
    ensures
        general_outcome(view, config, kind, operands, answer, source) matches Ok(next) ==> {
            &&& next.charges.operators == view.charges.operators
            &&& next.awaiting ==> view.awaiting || kind == OperatorKind::BeginMarkedContentProperties
        },
{
    reveal(general_outcome);
}

/// Each operator that is planned counts once, when it is begun; the step that answers its property
/// counts nothing more.
pub proof fn planned_operators_count_once(
    view: PlannerView,
    config: PlanConfig,
    operator: OperatorView,
    answer: AnswerView,
)
    ensures
        planned(view, config, operator, answer) matches Ok(next) ==> {
            &&& next.charges.operators == view.charges.operators + (if view.awaiting {
                0int
            } else {
                1int
            })
            &&& view.awaiting ==> !next.awaiting
        },
{
    let source = operator.source;
    if planned(view, config, operator, answer) is Ok && !view.awaiting && operator.known is Some {
        let run = executed(inspected(view, config, source)->Ok_0, config, source)->Ok_0;
        let kind = operator.known->0;
        reveal(known_outcome);
        if kind == OperatorKind::SetLineDash {
            reveal(dash_outcome);
        } else {
            let operands = converted(kind, operator.operands, source)->Ok_0;
            if is_text(kind) {
                text_counts_nothing(run, config, kind, operands, source);
            } else {
                the_rest_counts_nothing(run, config, kind, operands, answer, source);
            }
        }
    }
}

/// Planning goes through the operators one by one: between two places it counts exactly those that it
/// went past, and it stops at the end, or at one that needs an answer.
pub proof fn no_operator_is_skipped(
    view: PlannerView,
    config: PlanConfig,
    operators: Seq<OperatorView>,
    i: int,
    answer: AnswerView,
)
    requires
        0 <= i <= operators.len(),
    ensures
        planned_from(view, config, operators, i, answer) matches Ok((next, place)) ==> {
            &&& i <= place <= operators.len()
            &&& next.charges.operators - view.charges.operators == if i < operators.len() {
                went_past(next, place) - went_past(view, i)
            } else {
                0
            }
            &&& i < operators.len() && place < operators.len() ==> !(required(
                next,
                config,
                operators[place],
            ) is Nothing)
        },
    decreases operators.len() - i, steps_left(view), 0int,
{
    if i < operators.len() {
        planned_operators_count_once(view, config, operators[i], answer);
        if let Ok(next) = planned(view, config, operators[i], answer) {
            later_operators_are_planned(next, config, operators, next_place(view, next, i));
        }
    }
}

proof fn later_operators_are_planned(
    view: PlannerView,
    config: PlanConfig,
    operators: Seq<OperatorView>,
    i: int,
)
    requires
        0 <= i <= operators.len(),
    ensures
        planned_until(view, config, operators, i) matches Ok((next, place)) ==> {
            &&& i <= place <= operators.len()
            &&& next.charges.operators - view.charges.operators == went_past(next, place) - went_past(
                view,
                i,
            )
            &&& place < operators.len() ==> !(required(next, config, operators[place]) is Nothing)
        },
    decreases operators.len() - i, steps_left(view), 1int,
{
    if i < operators.len() && required(view, config, operators[i]) is Nothing {
        no_operator_is_skipped(view, config, operators, i, AnswerView::Nothing);
    }
}

/// Content ends well exactly where nothing that it began is left open. Otherwise the failure names
/// what is open: states before text, text before compatibility sections, and those before marked
/// content.
pub proof fn content_ends_where_nothing_is_open(view: PlannerView, config: PlanConfig)
    ensures
        imbalance(view, config) is None <==> saved_depth(view, config) == 0 && !view.text_active
            && view.compatibility_depth == 0 && view.marked_depth == 0,
        imbalance(view, config) matches Some(error) ==> {
            &&& error.code == ContentVmErrorCode::InvalidGraphicsState <==> saved_depth(view, config)
                != 0
            &&& error.code == ContentVmErrorCode::InvalidTextObject <==> saved_depth(view, config)
                == 0 && view.text_active
            &&& error.code == ContentVmErrorCode::InvalidMarkedContentState ==> view.marked_depth
                != 0
            &&& error.code == ContentVmErrorCode::InvalidCompatibilityState
                ==> view.compatibility_depth != 0
        },
{
}

} // verus!
