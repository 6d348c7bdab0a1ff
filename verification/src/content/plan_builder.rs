//! Planning a whole program, with requests to the layers below in between.

use vstd::prelude::*;

use crate::bytes::model::ByteSource;
use crate::content::form_plan::{ExecutionPlan, FormEnvelope};
use crate::content::guard::{is_guard_stop, vm_stop, RunStop, RuntimeGuard};
use crate::content::model::{ContentProgram, ScannedOperator};
use crate::content::planner::{Answer, Planner, Requirement};
use crate::content::planner_model::{
    epilogue_actions, imbalance, movable, next_place, plan_scope, planned, required, starved,
    starved_widely, step_cost, AnswerView, PlanConfig, PlannerView, RequirementView,
};
use crate::content::scanner::ContentCancellation;
use crate::content::view::{operator_view, operator_views, OperatorView};

verus! {

/// How many steps the operator at hand may take after the first.
pub open spec fn steps_left(view: PlannerView) -> int {
    if view.awaiting {
        0
    } else {
        1
    }
}

/// The plan from operator `i` on, whose answer is given, up to the next operator that needs one.
/// Returns that operator's place, or the end.
pub open spec fn planned_from(
    view: PlannerView,
    config: PlanConfig,
    operators: Seq<OperatorView>,
    i: int,
    answer: AnswerView,
) -> Result<(PlannerView, int), RunStop>
    decreases operators.len() - i, steps_left(view), 0int,
{
    if i < 0 || i >= operators.len() {
        Ok((view, i))
    } else {
        match planned(view, config, operators[i], answer) {
            Err(stop) => Err(stop),
            Ok(next) => planned_until(next, config, operators, next_place(view, next, i)),
        }
    }
}

/// The plan from operator `i` on, up to the next operator that needs an answer.
pub open spec fn planned_until(
    view: PlannerView,
    config: PlanConfig,
    operators: Seq<OperatorView>,
    i: int,
) -> Result<(PlannerView, int), RunStop>
    decreases operators.len() - i, steps_left(view), 1int,
{
    if i < 0 || i >= operators.len() || !(required(view, config, operators[i])
        is Nothing) {
        Ok((view, i))
    } else {
        planned_from(view, config, operators, i, AnswerView::Nothing)
    }
}

/// The least and the most fuel that planning charges from operator `i` on, whose answer is given, up
/// to the next operator that needs one: what each operator costs, and the elements that it may move.
pub open spec fn cost_from(
    view: PlannerView,
    config: PlanConfig,
    operators: Seq<OperatorView>,
    i: int,
    answer: AnswerView,
) -> (int, int)
    decreases operators.len() - i, steps_left(view), 0int,
{
    if i < 0 || i >= operators.len() {
        (0, 0)
    } else {
        let cost = step_cost(view, operators[i]);
        match planned(view, config, operators[i], answer) {
            Err(_) => (0, 0),
            Ok(next) => {
                let rest = cost_until(next, config, operators, next_place(view, next, i));
                (cost + rest.0, cost + movable(view) + rest.1)
            },
        }
    }
}

/// The least and the most fuel that planning charges from operator `i` on, up to the next operator
/// that needs an answer.
pub open spec fn cost_until(
    view: PlannerView,
    config: PlanConfig,
    operators: Seq<OperatorView>,
    i: int,
) -> (int, int)
    decreases operators.len() - i, steps_left(view), 1int,
{
    if i < 0 || i >= operators.len() || !(required(view, config, operators[i]) is Nothing) {
        (0, 0)
    } else {
        cost_from(view, config, operators, i, AnswerView::Nothing)
    }
}

/// Planning goes on up to an operator that needs an answer, or to the end.
pub proof fn planning_stops_for_an_answer(
    view: PlannerView,
    config: PlanConfig,
    operators: Seq<OperatorView>,
    i: int,
    answer: AnswerView,
)
    requires
        0 <= i < operators.len(),
        planned_from(view, config, operators, i, answer) is Ok,
    ensures
        ({
            let (reached, at) = planned_from(view, config, operators, i, answer)->Ok_0;
            at >= operators.len() || !(required(reached, config, operators[at]) is Nothing)
        }),
    decreases operators.len() - i, steps_left(view),
{
    let next = planned(view, config, operators[i], answer)->Ok_0;
    let place = next_place(view, next, i);
    if place < operators.len() && required(next, config, operators[place]) is Nothing {
        planning_stops_for_an_answer(next, config, operators, place, AnswerView::Nothing);
    }
}

/// Whether memory or fuel stops planning at operator `i`, whose answer is given, or at a later one
/// that is reached without a further answer. The fuel charged before `i` is `low` units at least
/// and `high` at most: what operators cost is fixed, and what moving elements costs is bounded.
pub open spec fn starved_from(
    stop: RunStop,
    view: PlannerView,
    config: PlanConfig,
    operators: Seq<OperatorView>,
    i: int,
    answer: AnswerView,
    low: int,
    high: int,
) -> bool
    decreases operators.len() - i, steps_left(view), 0int,
{
    if i < 0 || i >= operators.len() {
        false
    } else {
        let outcome = planned(view, config, operators[i], answer);
        let cost = step_cost(view, operators[i]);
        ||| exists|fuel: u64|
            low <= fuel <= high && #[trigger] starved(
                stop,
                outcome,
                view,
                plan_scope(view, config, operators[i], fuel, false),
            )
        ||| outcome is Ok && starved_until(
            stop,
            outcome->Ok_0,
            config,
            operators,
            next_place(view, outcome->Ok_0, i),
            low + cost,
            high + cost + movable(view),
        )
    }
}

/// Whether memory or fuel stops planning from operator `i` on, before the next one that needs an
/// answer.
pub open spec fn starved_until(
    stop: RunStop,
    view: PlannerView,
    config: PlanConfig,
    operators: Seq<OperatorView>,
    i: int,
    low: int,
    high: int,
) -> bool
    decreases operators.len() - i, steps_left(view), 1int,
{
    if i < 0 || i >= operators.len() || !(required(view, config, operators[i]) is Nothing) {
        false
    } else {
        starved_from(stop, view, config, operators, i, AnswerView::Nothing, low, high)
    }
}

/// Whether every operator has a place that command evidence can hold.
pub open spec fn indexed(operators: Seq<ScannedOperator>) -> bool {
    forall|i: int|
        0 <= i < operators.len() ==> (#[trigger] operators[i]).source.page_operator_ordinal
            <= u32::MAX
}

/// A plan under construction, and how far it is.
pub struct PlanBuilder {
    pub planner: Planner,
    pub position: usize,
}

impl PlanBuilder {
    /// Starts at the first operator.
    pub fn new(planner: Planner) -> (builder: Self)
        ensures
            builder.planner == planner,
            builder.position == 0,
    {
        Self { planner, position: 0 }
    }

    /// Returns what the operator at hand needs.
    pub fn requirement(&self, program: &ContentProgram) -> (requirement: Requirement)
        requires
            self.planner.well_formed(),
        ensures
            requirement@ == (if self.position < program.spec_operators().len() {
                required(
                    self.planner@,
                    self.planner.config(),
                    operator_view(program.spec_operators()[self.position as int]),
                )
            } else {
                RequirementView::Nothing
            }),
    {
        let operators = program.operators();
        if self.position < operators.len() {
            self.planner.requirement(&operators[self.position])
        } else {
            Requirement::Nothing
        }
    }

    /// Plans the operator at hand with its answer, and every operator after it that needs none.
    pub fn build_execution_plan<S: ByteSource, C: ContentCancellation>(
        &mut self,
        program: &ContentProgram,
        answer: &Answer,
        guard: &RuntimeGuard<'_, S, C>,
    ) -> (result: Result<(), RunStop>)
        requires
            old(self).planner.well_formed(),
            indexed(program.spec_operators()),
        ensures
            final(self).planner.same_setup(&old(self).planner),
            final(self).planner.accounting.fuel >= old(self).planner.accounting.fuel,
            ({
                let expected = planned_from(
                    old(self).planner@,
                    old(self).planner.config(),
                    operator_views(program.spec_operators()),
                    old(self).position as int,
                    answer@,
                );
                let cost = cost_from(
                    old(self).planner@,
                    old(self).planner.config(),
                    operator_views(program.spec_operators()),
                    old(self).position as int,
                    answer@,
                );
                match result {
                    Ok(_) => {
                        &&& expected == Ok::<(PlannerView, int), RunStop>(
                            (final(self).planner@, final(self).position as int),
                        )
                        &&& final(self).planner.well_formed()
                        &&& old(self).position < program.spec_operators().len() ==> guard@.clear()
                        &&& old(self).planner.accounting.fuel + cost.0
                            <= final(self).planner.accounting.fuel <= old(
                            self,
                        ).planner.accounting.fuel + cost.1
                    },
                    Err(stop) => {
                        &&& old(self).position < program.spec_operators().len()
                        &&& {
                            ||| exists|k: int|
                                old(self).position <= k < program.spec_operators().len()
                                    && is_guard_stop(
                                    stop,
                                    Some((#[trigger] program.spec_operators()[k]).source),
                                    guard@,
                                )
                            ||| expected == Err::<(PlannerView, int), RunStop>(stop)
                            ||| starved_from(
                                stop,
                                old(self).planner@,
                                old(self).planner.config(),
                                operator_views(program.spec_operators()),
                                old(self).position as int,
                                answer@,
                                old(self).planner.accounting.fuel as int,
                                old(self).planner.accounting.fuel as int,
                            )
                        }
                    },
                }
            }),
    {
        let operators = program.operators();
        let ghost views = operator_views(operators@);
        let ghost config = self.planner.config();
        let ghost expected = planned_from(
            self.planner@,
            config,
            views,
            self.position as int,
            answer@,
        );
        if self.position >= operators.len() {
            return Ok(());
        }
        let ghost start = self.planner;
        let awaited = self.planner.awaiting;
        assert(views[self.position as int] == operator_view(operators@[self.position as int]));
        match self.planner.plan_operator(&operators[self.position], answer, guard) {
            Ok(_) => {},
            Err(stop) => {
                proof {
                    let operator = views[self.position as int];
                    let outcome = planned(start@, config, operator, answer@);
                    let fuel = start.accounting.fuel;
                    let scope = plan_scope(start@, config, operator, fuel, start.weighed);
                    let wide = plan_scope(start@, config, operator, fuel, false);
                    if starved(stop, outcome, start@, scope) {
                        starved_widely(stop, outcome, start@, start@, scope, wide);
                    }
                }
                return Err(stop);
            },
        }
        let ghost first = self.position as int;
        let ghost cost = step_cost(start@, views[first]);
        let ghost mut low = start.accounting.fuel + cost;
        let ghost mut high = start.accounting.fuel + cost + movable(start@);
        proof {
            assert forall|stop: RunStop|
                #[trigger] starved_until(
                    stop,
                    self.planner@,
                    config,
                    views,
                    next_place(start@, self.planner@, first),
                    low,
                    high,
                ) implies starved_from(
                stop,
                start@,
                config,
                views,
                first,
                answer@,
                start.accounting.fuel as int,
                start.accounting.fuel as int,
            ) by {}
        }
        if !self.planner.awaiting || awaited {
            self.position = self.position + 1;
        }
        let nothing = Answer::Nothing;
        while self.position < operators.len()
            invariant
                old(self).position <= self.position <= operators@.len(),
                guard@.clear(),
                operators@ == program.spec_operators(),
                views == operator_views(operators@),
                indexed(operators@),
                self.planner.well_formed(),
                self.planner.same_setup(&old(self).planner),
                self.planner.accounting.fuel >= old(self).planner.accounting.fuel,
                self.planner.config() == config,
                config == old(self).planner.config(),
                nothing@ is Nothing,
                expected == planned_until(self.planner@, config, views, self.position as int),
                expected == planned_from(
                    old(self).planner@,
                    config,
                    views,
                    old(self).position as int,
                    answer@,
                ),
                old(self).position < operators@.len(),
                low <= self.planner.accounting.fuel <= high,
                ({
                    let rest = cost_until(self.planner@, config, views, self.position as int);
                    let fuel = old(self).planner.accounting.fuel;
                    cost_from(
                        old(self).planner@,
                        config,
                        views,
                        old(self).position as int,
                        answer@,
                    ) == (low - fuel + rest.0, high - fuel + rest.1)
                }),
                forall|stop: RunStop|
                    #[trigger] starved_until(
                        stop,
                        self.planner@,
                        config,
                        views,
                        self.position as int,
                        low,
                        high,
                    ) ==> starved_from(
                        stop,
                        old(self).planner@,
                        config,
                        views,
                        old(self).position as int,
                        answer@,
                        old(self).planner.accounting.fuel as int,
                        old(self).planner.accounting.fuel as int,
                    ),
            decreases operators@.len() - self.position, steps_left(self.planner@),
        {
            let ghost at = self.planner;
            let ghost place = self.position as int;
            let ghost cost = step_cost(at@, views[place]);
            let awaited = self.planner.awaiting;
            assert(views[self.position as int] == operator_view(operators@[self.position as int]));
            match self.planner.requirement(&operators[self.position]) {
                Requirement::Nothing => {},
                _ => {
                    return Ok(());
                },
            }
            match self.planner.plan_operator(&operators[self.position], &nothing, guard) {
                Ok(_) => {},
                Err(stop) => {
                    proof {
                        let outcome = planned(at@, config, views[place], nothing@);
                        let fuel = at.accounting.fuel;
                        let scope = plan_scope(at@, config, views[place], fuel, at.weighed);
                        let wide = plan_scope(at@, config, views[place], fuel, false);
                        if starved(stop, outcome, at@, scope) {
                            starved_widely(stop, outcome, at@, at@, scope, wide);
                            assert(starved_until(stop, at@, config, views, place, low, high));
                        }
                    }
                    return Err(stop);
                },
            }
            proof {
                let further = low + cost;
                let most = high + cost + movable(at@);
                assert forall|stop: RunStop|
                    #[trigger] starved_until(
                        stop,
                        self.planner@,
                        config,
                        views,
                        next_place(at@, self.planner@, place),
                        further,
                        most,
                    ) implies starved_until(stop, at@, config, views, place, low, high) by {}
                low = further;
                high = most;
            }
            if !self.planner.awaiting || awaited {
                self.position = self.position + 1;
            }
        }
        Ok(())
    }

    /// Ends planning at the end of the program.
    pub fn finish<S: ByteSource, C: ContentCancellation>(
        self,
        envelope: Option<FormEnvelope>,
        guard: &RuntimeGuard<'_, S, C>,
    ) -> (plan: Result<ExecutionPlan, RunStop>)
        requires
            self.planner.well_formed(),
            envelope matches Some(form) ==> form.source.page_operator_ordinal <= u32::MAX,
        ensures
            ({
                let closing = match envelope {
                    Some(form) => epilogue_actions(
                        form.bounds,
                        form.simple_transparency_group,
                        form.source,
                    ),
                    None => Seq::empty(),
                };
                let fault = imbalance(self.planner@, self.planner.config());
                match plan {
                    Ok(plan) => guard@.clear() && fault is None && plan.completes(
                        self.planner@,
                        closing,
                    )
                        && self.planner.accounting.fuel <= plan.accounting.fuel
                        <= self.planner.accounting.fuel + (if envelope is Some {
                        2 * self.planner@.actions.len() + 1
                    } else {
                        0
                    }),
                    Err(stop) => is_guard_stop(stop, None, guard@) || (guard@.clear() && match fault {
                        Some(error) => stop == vm_stop(error),
                        None => {
                            ||| envelope is Some && is_guard_stop(
                                stop,
                                Some(envelope->0.source),
                                guard@,
                            )
                            ||| self.planner.cannot_end(stop, envelope is Some)
                        },
                    }),
                }
            }),
    {
        self.planner.finish(envelope, guard)
    }
}

} // verus!
