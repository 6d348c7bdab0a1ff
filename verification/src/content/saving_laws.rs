//! Laws of saved states.

use vstd::prelude::*;

use crate::content::graphics_model::graphics_outcome;
use crate::content::model::ContentOperatorSource;
use crate::content::operands::{converted, OperandsView};
use crate::content::operator::OperatorKind;
use crate::content::planner_laws::plan_ok;
use crate::content::planner_model::{
    dash_outcome, executed, general_outcome, inspected, is_text, known_outcome, planned,
    text_outcome, AnswerView, PlanConfig, PlannerView,
};
use crate::content::view::OperatorView;

verus! {

/// Whether two plans hold the same saved states.
pub open spec fn same_saved(left: PlannerView, right: PlannerView) -> bool {
    &&& left.graphics.saved == right.graphics.saved
    &&& left.stack == right.stack
    &&& left.saved_text == right.saved_text
}

/// Whether `next` appends the one action that opens a state, or closes it, where graphics are
/// planned, and none else.
pub open spec fn marks_a_state(
    view: PlannerView,
    next: PlannerView,
    config: PlanConfig,
    opens: bool,
) -> bool {
    if config.graphics is Some {
        &&& next.actions.len() == view.actions.len() + 1
        &&& next.actions.drop_last() == view.actions
        &&& opens ==> next.actions.last() is Save
        &&& !opens ==> next.actions.last() is Restore
    } else {
        next.actions == view.actions
    }
}

/// A state that was saved comes back whole, whatever was done since: the paints, the line, the dash,
/// the clip depth, the transform and the font selection are again what they were at the save, and so
/// is what was saved before. The path and all that is planned stay as they are.
pub proof fn saved_states_come_back(
    view: PlannerView,
    config: PlanConfig,
    save: OperatorView,
    later: PlannerView,
    restore: OperatorView,
    answer: AnswerView,
)
    requires
        plan_ok(view, config),
        save.known == Some(OperatorKind::SaveGraphicsState),
        restore.known == Some(OperatorKind::RestoreGraphicsState),
        planned(view, config, save, answer) is Ok,
        same_saved(later, planned(view, config, save, answer)->Ok_0),
        planned(later, config, restore, answer) is Ok,
    ensures
        ({
            let saved = planned(view, config, save, answer)->Ok_0;
            let after = planned(later, config, restore, answer)->Ok_0;
            &&& saved.graphics.current == view.graphics.current
            &&& saved.ctm == view.ctm && saved.font_selected == view.font_selected
            &&& marks_a_state(view, saved, config, true)
            &&& config.graphics is Some ==> after.graphics.current == view.graphics.current
            &&& after.ctm == view.ctm
            &&& after.font_selected == view.font_selected
            &&& same_saved(after, view)
            &&& after.graphics.path == later.graphics.path
            &&& after.graphics.current_point == later.graphics.current_point
            &&& after.graphics.pending_clip == later.graphics.pending_clip
            &&& after.graphics.dashes == later.graphics.dashes
            &&& after.graphics.paths == later.graphics.paths
            &&& after.names == later.names && after.items == later.items
            &&& after.marked_depth == later.marked_depth
            &&& after.compatibility_depth == later.compatibility_depth
            &&& marks_a_state(later, after, config, false)
        }),
{
    reveal(known_outcome);
    reveal(general_outcome);
    let saved = planned(view, config, save, answer)->Ok_0;
    let after = planned(later, config, restore, answer)->Ok_0;
    assert(view.saved_text.push(view.font_selected).drop_last() =~= view.saved_text);
    assert(view.graphics.saved.push(view.graphics.current).drop_last() =~= view.graphics.saved);
    assert(view.stack.push(view.ctm).drop_last() =~= view.stack);
    if config.graphics is Some {
        assert(saved.actions.drop_last() =~= view.actions);
        assert(after.actions.drop_last() =~= later.actions);
    }
}

proof fn text_keeps_saved_states(
    view: PlannerView,
    config: PlanConfig,
    kind: OperatorKind,
    operands: OperandsView,
    source: ContentOperatorSource,
)
    ensures
        text_outcome(view, config, kind, operands, source) matches Ok(next) ==> same_saved(
            view,
            next,
        ),
{
    reveal(text_outcome);
}

proof fn the_machine_keeps_saved_states(
    view: PlannerView,
    config: PlanConfig,
    kind: OperatorKind,
    operands: OperandsView,
    answer: AnswerView,
    source: ContentOperatorSource,
)
    requires
        kind != OperatorKind::SaveGraphicsState,
        kind != OperatorKind::RestoreGraphicsState,
    ensures
        general_outcome(view, config, kind, operands, answer, source) matches Ok(next) ==> same_saved(
            view,
            next,
        ),
{
    reveal(general_outcome);
    reveal(graphics_outcome);
}

/// Only saving and restoring change what is saved.
pub proof fn other_operators_keep_saved_states(
    view: PlannerView,
    config: PlanConfig,
    operator: OperatorView,
    answer: AnswerView,
)
    requires
        operator.known != Some(OperatorKind::SaveGraphicsState),
        operator.known != Some(OperatorKind::RestoreGraphicsState),
    ensures
        planned(view, config, operator, answer) matches Ok(next) ==> same_saved(view, next),
{
    let source = operator.source;
    if planned(view, config, operator, answer) is Ok && !view.awaiting && operator.known is Some {
        let run = executed(inspected(view, config, source)->Ok_0, config, source)->Ok_0;
        let kind = operator.known->0;
        reveal(known_outcome);
        if kind == OperatorKind::SetLineDash {
            reveal(dash_outcome);
        } else {
            let operands = converted(kind, operator.operands, source)->Ok_0;
            if is_text(kind) {
                text_keeps_saved_states(run, config, kind, operands, source);
            } else {
                the_machine_keeps_saved_states(run, config, kind, operands, answer, source);
            }
        }
    }
}

} // verus!
