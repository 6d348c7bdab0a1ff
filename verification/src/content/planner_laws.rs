//! Laws of planning.

use vstd::prelude::*;

use crate::content::graphics_model::{all_mapped, graphics_outcome, GraphicsView};
use crate::content::guard::RunStop;
use crate::content::model::ContentOperatorSource;
use crate::content::operands::{converted, OperandsView};
use crate::content::operator::OperatorKind;
use crate::content::plan::{action_source, ExecutionAction};
use crate::content::plan_builder::{planned_from, steps_left};
use crate::content::planner_model::{
    array_items, awaited_property, corner_bounds, dash_outcome, epilogue_actions, executed,
    form_depth, form_opened, general_outcome, imbalance, initial_plan, inspected, is_text,
    known_outcome, next_place, open_states, operator_admitted, painting_outcome, planned,
    prologue_actions, required, restored_outcome, saved_depth, saved_outcome, text_outcome,
    AnswerView, PlanConfig, PlannerView, RequirementView,
};
use crate::content::scene::{Matrix, SceneBounds, ScenePoint};
use crate::content::view::{LocatedView, OperatorView};
use crate::content::vm_error::SceneError;

verus! {

/// The invariant of a plan: saved text states match saved graphics states, the machine's transform
/// is the current one, the actions leave open exactly the saved states, nesting stays in its
/// budgets, uses are counted, and one more level and use are within the budgets where a property is
/// awaited.
pub open spec fn plan_ok(view: PlannerView, config: PlanConfig) -> bool {
    &&& view.saved_text.len() == saved_depth(view, config)
    &&& config.graphics is Some ==> view.stack.len() == 0 && view.ctm == view.graphics.current.ctm
        && open_states(view.actions, view.actions.len() as int) == saved_depth(view, config)
        + form_depth(config)
    &&& config.graphics is None ==> open_states(view.actions, view.actions.len() as int)
        == form_depth(config)
    &&& saved_depth(view, config) + form_depth(config) <= config.vm.max_graphics_state_depth
    &&& view.compatibility_depth <= config.vm.max_compatibility_depth
    &&& view.marked_depth <= config.vm.max_marked_content_depth
    &&& view.charges.operators <= config.vm.max_operators
    &&& view.planned_images.len() == view.charges.image_uses
    &&& view.property_uses.len() == view.charges.property_uses
    &&& view.awaiting ==> view.marked_depth < config.vm.max_marked_content_depth
        && view.charges.property_uses < config.vm.max_property_uses
}

proof fn open_states_prefix(left: Seq<ExecutionAction>, right: Seq<ExecutionAction>, count: int)
    requires
        count <= left.len(),
        count <= right.len(),
        forall|i: int| 0 <= i < count ==> left[i] == right[i],
    ensures
        open_states(left, count) == open_states(right, count),
    decreases count,
{
    if count > 0 {
        open_states_prefix(left, right, count - 1);
    }
}

/// One more action opens or closes at most one state.
proof fn open_states_push(actions: Seq<ExecutionAction>, action: ExecutionAction)
    ensures
        open_states(actions.push(action), actions.len() + 1int) == open_states(
            actions,
            actions.len() as int,
        ) + (match action {
            ExecutionAction::Save { .. } => 1int,
            ExecutionAction::Restore { .. } => -1int,
            _ => 0int,
        }),
{
    open_states_prefix(actions.push(action), actions, actions.len() as int);
}

/// Actions that save and restore nothing leave open what was open.
proof fn open_states_flat(actions: Seq<ExecutionAction>, more: Seq<ExecutionAction>)
    requires
        forall|i: int|
            0 <= i < more.len() ==> !(#[trigger] more[i] is Save) && !(more[i] is Restore),
    ensures
        open_states(actions + more, (actions + more).len() as int) == open_states(
            actions,
            actions.len() as int,
        ),
    decreases more.len(),
{
    if more.len() == 0 {
        assert(actions + more =~= actions);
    } else {
        let front = more.drop_last();
        open_states_flat(actions, front);
        assert(actions + more =~= (actions + front).push(more.last()));
        open_states_push(actions + front, more.last());
    }
}

proof fn painting_saves_nothing(
    view: GraphicsView,
    kind: OperatorKind,
    operands: OperandsView,
    answer: Seq<Result<ScenePoint, SceneError>>,
    config: PlanConfig,
    source: ContentOperatorSource,
)
    requires
        config.graphics is Some,
    ensures
        graphics_outcome(view, kind, operands, answer, config.graphics->0, source) matches Ok((
            after,
            actions,
        )) ==> {
            &&& after.saved == view.saved
            &&& after.current.ctm == view.current.ctm
            &&& forall|i: int|
                0 <= i < actions.len() ==> !(#[trigger] actions[i] is Save) && !(
                actions[i] is Restore)
        },
{
    reveal(graphics_outcome);
}

proof fn text_keeps_the_invariant(
    view: PlannerView,
    config: PlanConfig,
    kind: OperatorKind,
    operands: OperandsView,
    source: ContentOperatorSource,
)
    requires
        plan_ok(view, config),
    ensures
        text_outcome(view, config, kind, operands, source) matches Ok(next) ==> plan_ok(next, config),
{
    reveal(text_outcome);
    if let Ok(next) = text_outcome(view, config, kind, operands, source) {
        let action = next.actions.last();
        assert(next.actions == view.actions.push(action));
        open_states_push(view.actions, action);
    }
}

proof fn painting_keeps_the_invariant(
    view: PlannerView,
    config: PlanConfig,
    kind: OperatorKind,
    operands: OperandsView,
    answer: AnswerView,
    source: ContentOperatorSource,
)
    requires
        plan_ok(view, config),
    ensures
        painting_outcome(view, config, kind, operands, answer, source) matches Ok(next) ==> plan_ok(
            next,
            config,
        ),
{
    let mapped = match answer {
        AnswerView::Points(points) => points,
        _ => Seq::empty(),
    };
    if let Ok(next) = painting_outcome(view, config, kind, operands, answer, source) {
        painting_saves_nothing(view.graphics, kind, operands, mapped, config, source);
        let (_, actions) = graphics_outcome(
            view.graphics,
            kind,
            operands,
            mapped,
            config.graphics->0,
            source,
        )->Ok_0;
        open_states_flat(view.actions, actions);
    }
}

proof fn general_keeps_the_invariant(
    view: PlannerView,
    config: PlanConfig,
    kind: OperatorKind,
    operands: OperandsView,
    answer: AnswerView,
    source: ContentOperatorSource,
)
    requires
        plan_ok(view, config),
        !view.awaiting,
        config.vm.admissible(),
    ensures
        general_outcome(view, config, kind, operands, answer, source) matches Ok(next) ==> plan_ok(
            next,
            config,
        ),
{
    reveal(general_outcome);
    painting_keeps_the_invariant(view, config, kind, operands, answer, source);
    if let Ok(next) = general_outcome(view, config, kind, operands, answer, source) {
        if next.actions.len() == view.actions.len() + 1 {
            let action = next.actions.last();
            if next.actions == view.actions.push(action) {
                open_states_push(view.actions, action);
            }
        }
    }
}

/// Planning an operator keeps the invariant.
pub proof fn planning_keeps_the_invariant(
    view: PlannerView,
    config: PlanConfig,
    operator: OperatorView,
    answer: AnswerView,
)
    requires
        plan_ok(view, config),
        config.vm.admissible(),
        planned(view, config, operator, answer) is Ok,
    ensures
        plan_ok(planned(view, config, operator, answer)->Ok_0, config),
{
    let source = operator.source;
    let counted = inspected(view, config, source)->Ok_0;
    let run = executed(counted, config, source)->Ok_0;
    if view.awaiting {
        let next = planned(view, config, operator, answer)->Ok_0;
        if next.actions.len() == view.actions.len() + 1 {
            open_states_push(view.actions, next.actions.last());
        }
    } else if let Some(kind) = operator.known {
        reveal(known_outcome);
        if kind == OperatorKind::SetLineDash {
            reveal(dash_outcome);
        } else {
            let operands = converted(kind, operator.operands, source)->Ok_0;
            if is_text(kind) {
                text_keeps_the_invariant(run, config, kind, operands, source);
            } else {
                general_keeps_the_invariant(run, config, kind, operands, answer, source);
            }
        }
    }
}

/// A property is looked up only once its operator was charged, and one more level and one more
/// property are within their budgets. Nothing but charges changes before.
pub proof fn properties_are_admitted_before_they_are_looked_up(
    view: PlannerView,
    config: PlanConfig,
    operator: OperatorView,
    answer: AnswerView,
)
    requires
        !view.awaiting,
    ensures
        !(required(view, config, operator) is Property),
        planned(view, config, operator, answer) matches Ok(next) ==> (next.awaiting ==> {
            &&& operator_admitted(view, config, operator)
            &&& next.charges.operators == view.charges.operators + 1
            &&& next.marked_depth < config.vm.max_marked_content_depth
            &&& next.charges.property_uses < config.vm.max_property_uses
            &&& next == (PlannerView {
                awaiting: true,
                charges: next.charges,
                image_operators: next.image_operators,
                font_operators: next.font_operators,
                ..view
            })
            &&& awaited_property(operator) matches Some((_, name)) && required(
                next,
                config,
                operator,
            ) == RequirementView::Property(name)
        }),
{
    let source = operator.source;
    let run = executed(inspected(view, config, source)->Ok_0, config, source)->Ok_0;
    if let Some(kind) = operator.known {
        reveal(known_outcome);
        if kind == OperatorKind::SetLineDash {
            reveal(dash_outcome);
        } else {
            reveal(text_outcome);
            reveal(general_outcome);
        }
    }
}

/// Content starts with a plan that meets the invariant.
pub proof fn plans_start_well(config: PlanConfig, ctm: Matrix)
    requires
        !config.in_form,
    ensures
        plan_ok(initial_plan(ctm), config),
{
}

/// Planning any stretch of a program keeps the invariant, whatever the layers below answer.
pub proof fn planning_programs_keeps_the_invariant(
    view: PlannerView,
    config: PlanConfig,
    operators: Seq<OperatorView>,
    i: int,
    answer: AnswerView,
)
    requires
        plan_ok(view, config),
        config.vm.admissible(),
    ensures
        planned_from(view, config, operators, i, answer) matches Ok((next, _)) ==> plan_ok(
            next,
            config,
        ),
    decreases operators.len() - i, steps_left(view),
{
    if 0 <= i < operators.len() {
        if let Ok(next) = planned(view, config, operators[i], answer) {
            planning_keeps_the_invariant(view, config, operators[i], answer);
            planning_programs_keeps_the_invariant(
                next,
                config,
                operators,
                next_place(view, next, i),
                AnswerView::Nothing,
            );
        }
    }
}

/// An unknown operator inside a compatibility section leaves no trace but its charges; outside, it
/// is refused.
pub proof fn unknown_operators_pass_in_compatibility_only(
    view: PlannerView,
    config: PlanConfig,
    operator: OperatorView,
    answer: AnswerView,
)
    requires
        operator.known is None,
    ensures
        planned(view, config, operator, answer) matches Ok(next) ==> {
            &&& view.compatibility_depth > 0
            &&& next == (PlannerView {
                image_operators: next.image_operators,
                font_operators: next.font_operators,
                charges: next.charges,
                ..view
            })
        },
        view.compatibility_depth == 0 ==> planned(view, config, operator, answer) is Err,
{
}

/// The plan with an operator's charges.
spec fn charged(view: PlannerView, config: PlanConfig, source: ContentOperatorSource) -> PlannerView {
    executed(inspected(view, config, source)->Ok_0, config, source)->Ok_0
}

proof fn a_save_saves(
    view: PlannerView,
    config: PlanConfig,
    save: OperatorView,
    answer: AnswerView,
)
    requires
        save.known == Some(OperatorKind::SaveGraphicsState),
        planned(view, config, save, answer) is Ok,
    ensures
        planned(view, config, save, answer) == saved_outcome(
            charged(view, config, save.source),
            config,
            save.source,
        ),
{
    reveal(known_outcome);
    reveal(general_outcome);
}

proof fn a_restore_restores(
    view: PlannerView,
    config: PlanConfig,
    restore: OperatorView,
    answer: AnswerView,
)
    requires
        restore.known == Some(OperatorKind::RestoreGraphicsState),
        planned(view, config, restore, answer) is Ok,
    ensures
        planned(view, config, restore, answer) == restored_outcome(
            charged(view, config, restore.source),
            config,
            restore.source,
        ),
{
    reveal(known_outcome);
    reveal(general_outcome);
}

proof fn restored_undoes_saved(
    view: PlannerView,
    saved: PlannerView,
    config: PlanConfig,
    first: ContentOperatorSource,
    second: ContentOperatorSource,
)
    requires
        plan_ok(view, config),
        saved_outcome(charged(view, config, first), config, first) == Ok::<PlannerView, RunStop>(
            saved,
        ),
        restored_outcome(charged(saved, config, second), config, second) is Ok,
        inspected(view, config, first) is Ok,
        inspected(saved, config, second) is Ok,
        executed(inspected(view, config, first)->Ok_0, config, first) is Ok,
        executed(inspected(saved, config, second)->Ok_0, config, second) is Ok,
    ensures
        ({
            let after = restored_outcome(charged(saved, config, second), config, second)->Ok_0;
            &&& after.graphics == view.graphics
            &&& after.stack == view.stack
            &&& after.ctm == view.ctm
            &&& after.font_selected == view.font_selected
            &&& after.saved_text == view.saved_text
        }),
{
    assert(saved.saved_text.drop_last() =~= view.saved_text);
    if config.graphics is Some {
        assert(saved.graphics.saved.drop_last() =~= view.graphics.saved);
    } else {
        assert(saved.stack.drop_last() =~= view.stack);
    }
}

/// Restoring after saving brings back the transform, the graphics state and the font selection.
pub proof fn restoring_undoes_saving(
    view: PlannerView,
    config: PlanConfig,
    save: OperatorView,
    restore: OperatorView,
    answer: AnswerView,
)
    requires
        plan_ok(view, config),
        save.known == Some(OperatorKind::SaveGraphicsState),
        restore.known == Some(OperatorKind::RestoreGraphicsState),
        planned(view, config, save, answer) is Ok,
        planned(planned(view, config, save, answer)->Ok_0, config, restore, answer) is Ok,
    ensures
        ({
            let after = planned(
                planned(view, config, save, answer)->Ok_0,
                config,
                restore,
                answer,
            )->Ok_0;
            &&& after.graphics == view.graphics
            &&& after.stack == view.stack
            &&& after.ctm == view.ctm
            &&& after.font_selected == view.font_selected
            &&& after.saved_text == view.saved_text
        }),
{
    let saved = planned(view, config, save, answer)->Ok_0;
    reveal(known_outcome);
    a_save_saves(view, config, save, answer);
    a_restore_restores(saved, config, restore, answer);
    restored_undoes_saved(view, saved, config, save.source, restore.source);
}

/// Opening a form keeps the invariant: its one saved state is the one that a form counts for.
pub proof fn opening_a_form_keeps_the_invariant(
    view: PlannerView,
    config: PlanConfig,
    mapped: Seq<Result<ScenePoint, SceneError>>,
    group: bool,
    source: ContentOperatorSource,
)
    requires
        config.in_form,
        config.graphics is Some,
        plan_ok(view, PlanConfig { in_form: false, ..config }),
        view.actions.len() == 0,
        saved_depth(view, config) == 0,
        form_opened(view, config, mapped, group, source) is Ok,
    ensures
        plan_ok(form_opened(view, config, mapped, group, source)->Ok_0, config),
{
    let next = form_opened(view, config, mapped, group, source)->Ok_0;
    let bounds = corner_bounds(all_mapped(mapped, 4)->Ok_0);
    let opened = prologue_actions(view.graphics.paths.len() as int, bounds, group, source);
    assert(next.actions =~= opened);
    reveal_with_fuel(open_states, 5);
}

/// A finished plan restores as often as it saves, whether it is a page or a form.
pub proof fn finished_plans_are_balanced(
    view: PlannerView,
    config: PlanConfig,
    bounds: SceneBounds,
    group: bool,
    source: ContentOperatorSource,
)
    requires
        plan_ok(view, config),
        imbalance(view, config) is None,
    ensures
        ({
            let all = if config.in_form {
                view.actions + epilogue_actions(bounds, group, source)
            } else {
                view.actions
            };
            open_states(all, all.len() as int) == 0
        }),
{
    if config.in_form {
        let closing = epilogue_actions(bounds, group, source);
        let ended = closing.drop_last();
        open_states_flat(view.actions, ended);
        assert(view.actions + closing =~= (view.actions + ended).push(closing.last()));
        open_states_push(view.actions + ended, closing.last());
    }
}

/// Whether an action names an operator, or a clip operator that waited.
pub open spec fn names_its_operator(
    view: PlannerView,
    action: ExecutionAction,
    source: ContentOperatorSource,
) -> bool {
    action_source(action) == source || (view.graphics.pending_clip matches Some(clip)
        && action is Clip && action_source(action) == clip.source)
}

/// Every action carries the evidence of the operator that it came from, or of the clip operator
/// that waited for it.
pub proof fn actions_name_their_operator(
    view: PlannerView,
    config: PlanConfig,
    operator: OperatorView,
    answer: AnswerView,
    i: int,
)
    requires
        operator.source.page_operator_ordinal <= u32::MAX,
        view.graphics.pending_clip matches Some(clip) ==> clip.source.page_operator_ordinal
            <= u32::MAX,
        planned(view, config, operator, answer) is Ok,
        view.actions.len() <= i < planned(view, config, operator, answer)->Ok_0.actions.len(),
    ensures
        names_its_operator(
            view,
            planned(view, config, operator, answer)->Ok_0.actions[i],
            operator.source,
        ),
{
    let source = operator.source;
    let run = executed(inspected(view, config, source)->Ok_0, config, source)->Ok_0;
    if !view.awaiting && operator.known is Some {
        let kind = operator.known->0;
        reveal(known_outcome);
        if kind == OperatorKind::SetLineDash {
            reveal(dash_outcome);
        } else {
            let operands = converted(kind, operator.operands, source)->Ok_0;
            if is_text(kind) {
                reveal(text_outcome);
            } else {
                general_evidence(run, config, kind, operands, answer, source, i);
            }
        }
    }
}

proof fn general_evidence(
    view: PlannerView,
    config: PlanConfig,
    kind: OperatorKind,
    operands: OperandsView,
    answer: AnswerView,
    source: ContentOperatorSource,
    i: int,
)
    requires
        source.page_operator_ordinal <= u32::MAX,
        view.graphics.pending_clip matches Some(clip) ==> clip.source.page_operator_ordinal
            <= u32::MAX,
        general_outcome(view, config, kind, operands, answer, source) is Ok,
        view.actions.len() <= i < general_outcome(
            view,
            config,
            kind,
            operands,
            answer,
            source,
        )->Ok_0.actions.len(),
    ensures
        names_its_operator(
            view,
            general_outcome(view, config, kind, operands, answer, source)->Ok_0.actions[i],
            source,
        ),
{
    reveal(general_outcome);
    if config.graphics is Some {
        let mapped = match answer {
            AnswerView::Points(points) => points,
            _ => Seq::empty(),
        };
        painting_evidence(view.graphics, kind, operands, mapped, config, source);
    }
}

proof fn painting_evidence(
    view: GraphicsView,
    kind: OperatorKind,
    operands: OperandsView,
    mapped: Seq<Result<ScenePoint, SceneError>>,
    config: PlanConfig,
    source: ContentOperatorSource,
)
    requires
        config.graphics is Some,
        source.page_operator_ordinal <= u32::MAX,
        view.pending_clip matches Some(clip) ==> clip.source.page_operator_ordinal <= u32::MAX,
    ensures
        graphics_outcome(view, kind, operands, mapped, config.graphics->0, source) matches Ok((
            after,
            actions,
        )) ==> forall|i: int|
            0 <= i < actions.len() ==> action_source(#[trigger] actions[i]) == source || (
            view.pending_clip matches Some(clip) && actions[i] is Clip && action_source(actions[i])
                == clip.source),
{
    reveal(graphics_outcome);
}

/// Whether a plan holds everything that another one does.
pub open spec fn extends(view: PlannerView, next: PlannerView) -> bool {
    &&& view.actions.is_prefix_of(next.actions)
    &&& view.names.is_prefix_of(next.names)
    &&& view.items.is_prefix_of(next.items)
    &&& view.property_uses.is_prefix_of(next.property_uses)
    &&& view.planned_images.is_prefix_of(next.planned_images)
}

/// Planning only appends: actions, names, items and uses that are there stay.
pub proof fn plans_only_grow(
    view: PlannerView,
    config: PlanConfig,
    operator: OperatorView,
    answer: AnswerView,
)
    requires
        planned(view, config, operator, answer) is Ok,
    ensures
        extends(view, planned(view, config, operator, answer)->Ok_0),
{
    let source = operator.source;
    let run = executed(inspected(view, config, source)->Ok_0, config, source)->Ok_0;
    if !view.awaiting && operator.known is Some {
        let kind = operator.known->0;
        reveal(known_outcome);
        if kind == OperatorKind::SetLineDash {
            reveal(dash_outcome);
        } else {
            let operands = converted(kind, operator.operands, source)->Ok_0;
            if is_text(kind) {
                text_extends(run, config, kind, operands, source);
            } else {
                general_extends(run, config, kind, operands, answer, source);
            }
        }
    }
}

proof fn text_extends(
    view: PlannerView,
    config: PlanConfig,
    kind: OperatorKind,
    operands: OperandsView,
    source: ContentOperatorSource,
)
    ensures
        text_outcome(view, config, kind, operands, source) matches Ok(next) ==> extends(view, next),
{
    reveal(text_outcome);
    if let OperandsView::Array(values) = operands {
        items_extend_names(view.names, values, values.len() as int, source);
    }
}

proof fn general_extends(
    view: PlannerView,
    config: PlanConfig,
    kind: OperatorKind,
    operands: OperandsView,
    answer: AnswerView,
    source: ContentOperatorSource,
)
    ensures
        general_outcome(view, config, kind, operands, answer, source) matches Ok(next) ==> extends(
            view,
            next,
        ),
{
    reveal(general_outcome);
}

proof fn items_extend_names(
    names: Seq<Seq<u8>>,
    values: Seq<LocatedView>,
    count: int,
    source: ContentOperatorSource,
)
    ensures
        names.is_prefix_of(array_items(names, values, count, source).0),
        count >= 0 ==> array_items(names, values, count, source).1.len() == count,
    decreases count,
{
    if count > 0 {
        items_extend_names(names, values, count - 1, source);
    }
}

} // verus!
