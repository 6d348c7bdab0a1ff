//! Framing of form content, and the end of planning.

use vstd::prelude::*;

use crate::bytes::model::ByteSource;
use crate::content::accounting::{capacity_bytes, retained_sum, Accounting};
use crate::content::ext_gstate::ContentExtGStateProfile;
use crate::content::font_limits::ContentFontLimits;
use crate::content::graphics::{DashEntry, GraphicsVm, PathEntry};
use crate::content::graphics_limits::ContentGraphicsLimits;
use crate::content::graphics_model::all_mapped;
use crate::content::guard::{
    is_fuel_stop, is_guard_stop, is_memory_stop, vm_stop, RunStop, RuntimeGuard,
};
use crate::content::image_limits::ContentImageLimits;
use crate::content::model::ContentOperatorSource;
use crate::content::plan::{ExecutionAction, TextShowItem};
use crate::content::planner::Planner;
use crate::content::planner_model::{
    corner_bounds, corner_path, counters, epilogue_actions, form_opened, greater, imbalance,
    initial_plan, lesser, prologue_actions, PlanConfig, PlannedImageInvocation, PlannerView,
    ResolvedImageUse, ResolvedPropertyUse,
};
use crate::content::scanner::ContentCancellation;
use crate::content::scene::{
    command_source, BlendMode, FillRule, Matrix, PathSegment, SceneBounds, ScenePoint, SceneScalar,
    SceneUnit,
};
use crate::content::vm_error::{
    ContentVmError, ContentVmErrorCode, ContentVmFailure, ContentVmLimit, ContentVmLimitKind,
    SceneError,
};
use crate::content::vm_limits::ContentVmLimits;
use crate::memory::try_reserve_exact;

verus! {

/// What a form keeps from its opening to its close.
#[derive(Clone, Copy, Debug, PartialEq, Eq, Structural)]
pub struct FormEnvelope {
    pub source: ContentOperatorSource,
    pub bounds: SceneBounds,
    pub simple_transparency_group: bool,
}

/// The box of a form, in its own space.
#[derive(Clone, Copy, Debug, PartialEq, Eq, Structural)]
pub struct FormBox {
    pub left: SceneScalar,
    pub bottom: SceneScalar,
    pub right: SceneScalar,
    pub top: SceneScalar,
}

impl FormBox {
    /// The corners of the box, counterclockwise from the lower left.
    pub open spec fn spec_corners(self) -> Seq<ScenePoint> {
        seq![
            ScenePoint { x: self.left, y: self.bottom },
            ScenePoint { x: self.right, y: self.bottom },
            ScenePoint { x: self.right, y: self.top },
            ScenePoint { x: self.left, y: self.top },
        ]
    }

    /// Returns the corners of the box, counterclockwise from the lower left.
    pub fn corners(self) -> (corners: [ScenePoint; 4])
        ensures
            corners@ == self.spec_corners(),
    {
        let corners = [
            ScenePoint::new(self.left, self.bottom),
            ScenePoint::new(self.right, self.bottom),
            ScenePoint::new(self.right, self.top),
            ScenePoint::new(self.left, self.top),
        ];
        assert(corners@ =~= self.spec_corners());
        corners
    }
}

fn lesser_of(left: SceneScalar, right: SceneScalar) -> (least: SceneScalar)
    ensures
        least == lesser(left, right),
{
    if right.scaled < left.scaled {
        right
    } else {
        left
    }
}

fn greater_of(left: SceneScalar, right: SceneScalar) -> (greatest: SceneScalar)
    ensures
        greatest == greater(left, right),
{
    if right.scaled > left.scaled {
        right
    } else {
        left
    }
}

/// The least box that holds four corners.
fn bounds_of(c: &[ScenePoint; 4]) -> (bounds: SceneBounds)
    ensures
        bounds == corner_bounds(c@),
{
    SceneBounds::Finite {
        minimum: ScenePoint::new(
            lesser_of(lesser_of(lesser_of(c[0].x, c[1].x), c[2].x), c[3].x),
            lesser_of(lesser_of(lesser_of(c[0].y, c[1].y), c[2].y), c[3].y),
        ),
        maximum: ScenePoint::new(
            greater_of(greater_of(greater_of(c[0].x, c[1].x), c[2].x), c[3].x),
            greater_of(greater_of(greater_of(c[0].y, c[1].y), c[2].y), c[3].y),
        ),
    }
}

/// A box that four corners span holds each of them.
pub proof fn bounds_hold_every_corner(corners: Seq<ScenePoint>, i: int)
    requires
        corners.len() == 4,
        0 <= i < 4,
    ensures
        corner_bounds(corners) matches SceneBounds::Finite { minimum, maximum } && {
            &&& minimum.x.scaled <= corners[i].x.scaled <= maximum.x.scaled
            &&& minimum.y.scaled <= corners[i].y.scaled <= maximum.y.scaled
        },
{
    assert(i == 0 || i == 1 || i == 2 || i == 3);
}

/// One immutable execution plan. Registries hold what its actions refer to.
pub struct ExecutionPlan {
    pub actions: Vec<ExecutionAction>,
    pub names: Vec<Vec<u8>>,
    pub items: Vec<Vec<TextShowItem>>,
    pub paths: Vec<PathEntry>,
    pub dashes: Vec<DashEntry>,
    pub image_invocations: Vec<PlannedImageInvocation>,
    pub property_uses: Vec<ResolvedPropertyUse>,
    pub image_uses: Vec<ResolvedImageUse>,
    pub font_use_count: usize,
    pub first_font_source: Option<ContentOperatorSource>,
    pub final_ctm: Matrix,
    pub action_payload_retained_bytes: u64,
    pub owned_name_retained_bytes: u64,
    pub text_bytes: u64,
    pub text_adjustments: u64,
    pub image_operators: u64,
    pub font_operators: u64,
    pub accounting: Accounting,
}

impl ExecutionPlan {
    /// Whether a plan is what planning reached, with closing actions.
    pub open spec fn completes(&self, view: PlannerView, closing: Seq<ExecutionAction>) -> bool {
        &&& self.actions@ == view.actions + closing
        &&& crate::content::planner::name_views(self.names@) == view.names
        &&& crate::content::planner::item_views(self.items@) == view.items
        &&& crate::content::graphics::path_views(self.paths@) == view.graphics.paths
        &&& crate::content::graphics::dash_views(self.dashes@) == view.graphics.dashes
        &&& self.image_invocations@ == view.planned_images
        &&& self.property_uses@ == view.property_uses
        &&& self.font_use_count == view.font_uses
        &&& self.first_font_source == view.first_font_source
        &&& self.final_ctm == view.ctm
        &&& self.text_bytes == view.text_bytes
        &&& self.text_adjustments == view.text_adjustments
        &&& self.image_operators == view.image_operators
        &&& self.font_operators == view.font_operators
        &&& counters(self.accounting) == view.charges
    }

    /// The least that actions and what they refer to retain.
    pub open spec fn least_font_bytes(&self) -> u64 {
        retained_sum(
            self.actions@.len() * vstd::layout::size_of::<ExecutionAction>()
                + self.action_payload_retained_bytes + self.owned_name_retained_bytes,
        )
    }

    /// The least that actions, what they refer to, and planned external objects retain.
    pub open spec fn least_image_bytes(&self) -> u64 {
        retained_sum(
            self.least_font_bytes() + self.image_invocations@.len() * vstd::layout::size_of::<
                PlannedImageInvocation,
            >(),
        )
    }

    /// Bytes that vectors of the plan and what its actions refer to retain; what does not fit counts
    /// as all there is.
    pub fn vm_retained_bytes(&self) -> (bytes: u64)
        ensures
            bytes >= self.least_image_bytes(),
    {
        capacity_bytes(&self.property_uses).saturating_add(
            capacity_bytes(&self.image_uses),
        ).saturating_add(self.image_plan_retained_bytes())
    }

    /// Bytes that actions, what they refer to, and planned external objects retain.
    pub fn image_plan_retained_bytes(&self) -> (bytes: u64)
        ensures
            bytes >= self.least_image_bytes(),
    {
        self.font_plan_retained_bytes().saturating_add(capacity_bytes(&self.image_invocations))
    }

    /// Bytes that actions and what they refer to retain.
    pub fn font_plan_retained_bytes(&self) -> (bytes: u64)
        ensures
            bytes >= self.least_font_bytes(),
    {
        capacity_bytes(&self.actions).saturating_add(
            self.action_payload_retained_bytes,
        ).saturating_add(self.owned_name_retained_bytes)
    }
}

/// Whether memory or fuel keeps a form from opening. Its box is a path of its own, and its two or
/// three actions join the `actions` that the plan holds.
pub open spec fn form_starved(stop: RunStop, config: PlanConfig, fuel: u64, actions: int) -> bool {
    ||| stop == RunStop::Failed(ContentVmFailure::Scene(SceneError::Allocation))
    ||| is_memory_stop(stop)
    ||| is_fuel_stop(stop, config.vm.max_fuel, fuel, 3 * (actions + 2))
}

impl Planner {
    /// Starts a plan.
    pub fn new(
        limits: ContentVmLimits,
        graphics_limits: Option<ContentGraphicsLimits>,
        image_limits: Option<ContentImageLimits>,
        font_limits: Option<ContentFontLimits>,
        ext_gstates: Option<ContentExtGStateProfile>,
        in_form: bool,
        program_bytes: u64,
        ctm: Matrix,
        accounting: Accounting,
    ) -> (planner: Self)
        ensures
            planner.well_formed(),
            planner@ == (PlannerView { charges: counters(accounting), ..initial_plan(ctm) }),
            planner.accounting == accounting,
            planner.limits == limits,
            planner.graphics_limits == graphics_limits,
            planner.image_limits == image_limits,
            planner.font_limits == font_limits,
            planner.ext_gstates == ext_gstates,
            planner.in_form == in_form,
            planner.program_bytes == program_bytes,
    {
        let mut machine = GraphicsVm::new();
        machine.set_ctm(ctm);
        let planner = Self {
            limits,
            graphics_limits,
            image_limits,
            font_limits,
            ext_gstates,
            in_form,
            program_bytes,
            machine,
            stack: Vec::new(),
            ctm,
            actions: Vec::new(),
            names: Vec::new(),
            items: Vec::new(),
            property_uses: Vec::new(),
            planned_images: Vec::new(),
            image_uses: Vec::new(),
            image_operators: 0,
            font_operators: 0,
            text_bytes: 0,
            text_adjustments: 0,
            font_uses: 0,
            first_font_source: None,
            text_active: false,
            font_selected: false,
            saved_text: Vec::new(),
            compatibility_depth: 0,
            marked_depth: 0,
            awaiting: false,
            name_bytes: 0,
            weighed: false,
            accounting,
        };
        proof {
            let start = initial_plan(ctm);
            assert(planner@.names =~= start.names);
            assert(planner@.items =~= start.items);
            assert(planner@.stack =~= start.stack);
            assert(planner@.actions =~= start.actions);
            assert(planner@.property_uses =~= start.property_uses);
            assert(planner@.planned_images =~= start.planned_images);
            assert(planner@.saved_text =~= start.saved_text);
        }
        planner
    }

    /// Whether memory or fuel keeps a balanced plan from ending: an open form still takes actions,
    /// and what actions refer to must be countable.
    pub open spec fn cannot_end(&self, stop: RunStop, form: bool) -> bool {
        ||| form && (is_memory_stop(stop) || is_fuel_stop(
            stop,
            self.limits@.max_fuel,
            self.accounting.fuel,
            2 * self@.actions.len() as int + 1,
        ))
        ||| self.machine.action_path_retained_bytes + self.machine.action_dash_retained_bytes
            > u64::MAX && is_memory_stop(stop)
    }

    /// Opens a form: saves, clips to the mapped box, and opens its group.
    pub fn append_form_prologue(
        &mut self,
        mapped: &[Result<ScenePoint, SceneError>; 4],
        simple_transparency_group: bool,
        source: ContentOperatorSource,
    ) -> (result: Result<FormEnvelope, RunStop>)
        requires
            old(self).well_formed(),
            source.page_operator_ordinal <= u32::MAX,
        ensures
            final(self).same_setup(old(self)),
            ({
                let expected = form_opened(
                    old(self)@,
                    old(self).config(),
                    mapped@,
                    simple_transparency_group,
                    source,
                );
                match result {
                    Ok(envelope) => {
                        &&& expected == Ok::<PlannerView, RunStop>(final(self)@)
                        &&& final(self).well_formed()
                        &&& envelope == (FormEnvelope {
                            source,
                            bounds: corner_bounds(all_mapped(mapped@, 4)->Ok_0),
                            simple_transparency_group,
                        })
                    },
                    Err(stop) => match expected {
                        Err(fault) => stop == fault,
                        Ok(_) => form_starved(
                            stop,
                            old(self).config(),
                            old(self).accounting.fuel,
                            old(self)@.actions.len() as int,
                        ),
                    },
                }
            }),
            old(self).accounting.fuel <= final(self).accounting.fuel <= old(self).accounting.fuel + 3
                * (old(self)@.actions.len() + 2),
    {
        match self.limits.preflight(
            ContentVmLimitKind::GraphicsStateDepth,
            0,
            1,
            Some(source),
        ) {
            Ok(_) => {},
            Err(error) => {
                return Err(RunStop::Failed(ContentVmFailure::Vm(error)));
            },
        }
        self.weighed = false;
        let command = command_source(source);
        proof {
            reveal_with_fuel(all_mapped, 5);
        }
        let corners = match mapped_corners(mapped) {
            Ok(corners) => corners,
            Err(error) => {
                return Err(RunStop::Failed(ContentVmFailure::Scene(error)));
            },
        };
        let bounds = bounds_of(&corners);
        let mut path: Vec<PathSegment> = Vec::new();
        if !try_reserve_exact(&mut path, 5) {
            return Err(RunStop::Failed(ContentVmFailure::Scene(SceneError::Allocation)));
        }
        path.push(PathSegment::MoveTo(corners[0]));
        path.push(PathSegment::LineTo(corners[1]));
        path.push(PathSegment::LineTo(corners[2]));
        path.push(PathSegment::LineTo(corners[3]));
        path.push(PathSegment::ClosePath);
        assert(path@ =~= corner_path(corners@));
        let retained: u64 = capacity_bytes(&path);
        let total: u64 = self.program_bytes.saturating_add(self.plan_capacity()).saturating_add(
            retained,
        );
        match self.limits.preflight(ContentVmLimitKind::RetainedBytes, 0, total, Some(source)) {
            Ok(_) => {},
            Err(error) => {
                return Err(RunStop::Failed(ContentVmFailure::Vm(error)));
            },
        }
        self.accounting.observe_retained(total);
        let held: u64 = self.machine.action_path_retained_bytes;
        match self.limits.preflight(ContentVmLimitKind::RetainedBytes, held, retained, Some(source)) {
            Ok(_) => {},
            Err(error) => {
                return Err(RunStop::Failed(ContentVmFailure::Vm(error)));
            },
        }
        let place: usize = self.machine.register_path(path, retained);
        let other: u64 = self.value_capacity().saturating_add(retained);
        match self.push_action(ExecutionAction::Save { bounds, source: command }, other, source) {
            Ok(_) => {},
            Err(stop) => {
                return Err(stop);
            },
        }
        match self.push_action(
            ExecutionAction::Clip {
                path: place,
                rule: FillRule::Nonzero,
                transform: Matrix::identity(),
                bounds,
                source: command,
            },
            other,
            source,
        ) {
            Ok(_) => {},
            Err(stop) => {
                return Err(stop);
            },
        }
        if simple_transparency_group {
            match self.push_action(
                ExecutionAction::BeginGroup {
                    alpha: SceneUnit::from_u16(65535),
                    blend_mode: BlendMode::Normal,
                    bounds: SceneBounds::Page,
                    source: command,
                },
                other,
                source,
            ) {
                Ok(_) => {},
                Err(stop) => {
                    return Err(stop);
                },
            }
        }
        if self.accounting.max_graphics_depth < 1 {
            self.accounting.max_graphics_depth = 1;
        }
        proof {
            assert(self.actions@ =~= old(self).actions@ + prologue_actions(
                place as int,
                bounds,
                simple_transparency_group,
                source,
            ));
        }
        Ok(FormEnvelope { source, bounds, simple_transparency_group })
    }

    /// Closes a form.
    pub fn append_form_epilogue(&mut self, envelope: FormEnvelope) -> (result: Result<(), RunStop>)
        requires
            old(self).well_formed(),
            envelope.source.page_operator_ordinal <= u32::MAX,
        ensures
            final(self).same_setup(old(self)),
            result is Ok ==> old(self).accounting.fuel <= final(self).accounting.fuel <= old(
                self,
            ).accounting.fuel + 2 * old(self)@.actions.len() + 1,
            match result {
                Ok(_) => {
                    &&& final(self).well_formed()
                    &&& final(self)@ == (PlannerView {
                        actions: old(self)@.actions + epilogue_actions(
                            envelope.bounds,
                            envelope.simple_transparency_group,
                            envelope.source,
                        ),
                        ..old(self)@
                    })
                },
                Err(stop) => is_memory_stop(stop) || is_fuel_stop(
                    stop,
                    old(self).limits@.max_fuel,
                    old(self).accounting.fuel,
                    2 * old(self)@.actions.len() as int + 1,
                ),
            },
    {
        let command = command_source(envelope.source);
        let other: u64 = self.value_capacity();
        if envelope.simple_transparency_group {
            match self.push_action(
                ExecutionAction::EndGroup { bounds: SceneBounds::Page, source: command },
                other,
                envelope.source,
            ) {
                Ok(_) => {},
                Err(stop) => {
                    return Err(stop);
                },
            }
        }
        match self.push_action(
            ExecutionAction::Restore { bounds: envelope.bounds, source: command },
            other,
            envelope.source,
        ) {
            Ok(_) => {},
            Err(stop) => {
                return Err(stop);
            },
        }
        proof {
            assert(self.actions@ =~= old(self).actions@ + epilogue_actions(
                envelope.bounds,
                envelope.simple_transparency_group,
                envelope.source,
            ));
        }
        Ok(())
    }

    /// Reports what the plan leaves open.
    pub fn check_balance(&self) -> (result: Result<(), ContentVmError>)
        ensures
            match imbalance(self@, self.config()) {
                Some(error) => result == Err::<(), ContentVmError>(error),
                None => result is Ok,
            },
    {
        let open = if self.graphics_limits.is_some() {
            self.machine.saved.len() > 0
        } else {
            self.stack.len() > 0
        };
        if open {
            return Err(ContentVmError::new(ContentVmErrorCode::InvalidGraphicsState, None));
        }
        if self.text_active {
            return Err(ContentVmError::new(ContentVmErrorCode::InvalidTextObject, None));
        }
        if self.compatibility_depth != 0 {
            return Err(ContentVmError::new(ContentVmErrorCode::InvalidCompatibilityState, None));
        }
        if self.marked_depth != 0 {
            return Err(ContentVmError::new(ContentVmErrorCode::InvalidMarkedContentState, None));
        }
        Ok(())
    }

    /// Ends planning: everything must be balanced, and an open form is closed.
    pub fn finish<S: ByteSource, C: ContentCancellation>(
        self,
        envelope: Option<FormEnvelope>,
        guard: &RuntimeGuard<'_, S, C>,
    ) -> (plan: Result<ExecutionPlan, RunStop>)
        requires
            self.well_formed(),
            envelope matches Some(form) ==> form.source.page_operator_ordinal <= u32::MAX,
        ensures
            ({
                let closing = match envelope {
                    Some(form) => epilogue_actions(
                        form.bounds,
                        form.simple_transparency_group,
                        form.source,
                    ),
                    None => Seq::empty(),
                };
                let fault = imbalance(self@, self.config());
                match plan {
                    Ok(plan) => guard@.clear() && fault is None && plan.completes(self@, closing)
                        && self.accounting.fuel <= plan.accounting.fuel <= self.accounting.fuel + (
                    if envelope is Some {
                        2 * self@.actions.len() + 1
                    } else {
                        0
                    }),
                    Err(stop) => is_guard_stop(stop, None, guard@) || (guard@.clear() && match fault {
                        Some(error) => stop == vm_stop(error),
                        None => {
                            ||| envelope is Some && is_guard_stop(
                                stop,
                                Some(envelope->0.source),
                                guard@,
                            )
                            ||| self.cannot_end(stop, envelope is Some)
                        },
                    }),
                }
            }),
    {
        match self.check_balance() {
            Ok(_) => {},
            Err(error) => {
                return Err(guard.prioritize(None, RunStop::Failed(ContentVmFailure::Vm(error))));
            },
        }
        match guard.probe(None) {
            Ok(_) => {},
            Err(stop) => {
                return Err(stop);
            },
        }
        let mut planner = self;
        if let Some(form) = envelope {
            match planner.append_form_epilogue(form) {
                Ok(_) => {},
                Err(stop) => {
                    return Err(guard.prioritize(Some(form.source), stop));
                },
            }
        } else {
            assert(planner.actions@ =~= self@.actions + Seq::<ExecutionAction>::empty());
        }
        let paths: u64 = planner.machine.action_path_retained_bytes;
        let dashes: u64 = planner.machine.action_dash_retained_bytes;
        let payload: u64 = match planner.machine.action_payload_retained_bytes() {
            Some(bytes) => bytes,
            None => {
                let error = ContentVmError::resource(
                    ContentVmLimit::new(
                        ContentVmLimitKind::RetainedBytes,
                        planner.limits.max_retained_bytes(),
                        paths,
                        dashes,
                    ),
                    None,
                );
                return Err(guard.prioritize(None, RunStop::Failed(ContentVmFailure::Vm(error))));
            },
        };
        let stack: u64 = capacity_bytes(&planner.saved_text);
        let owned: u64 = planner.name_bytes.saturating_sub(stack);
        Ok(
            ExecutionPlan {
                actions: planner.actions,
                names: planner.names,
                items: planner.items,
                paths: planner.machine.paths,
                dashes: planner.machine.dashes,
                image_invocations: planner.planned_images,
                property_uses: planner.property_uses,
                image_uses: planner.image_uses,
                font_use_count: planner.font_uses as usize,
                first_font_source: planner.first_font_source,
                final_ctm: planner.ctm,
                action_payload_retained_bytes: payload,
                owned_name_retained_bytes: owned,
                text_bytes: planner.text_bytes,
                text_adjustments: planner.text_adjustments,
                image_operators: planner.image_operators,
                font_operators: planner.font_operators,
                accounting: planner.accounting,
            },
        )
    }
}

/// The mapped corners, or the first failure among them.
fn mapped_corners(mapped: &[Result<ScenePoint, SceneError>; 4]) -> (corners: Result<
    [ScenePoint; 4],
    SceneError,
>)
    ensures
        match all_mapped(mapped@, 4) {
            Ok(points) => corners is Ok && corners->Ok_0@ == points,
            Err(error) => corners is Err && corners->Err_0 == error,
        },
{
    proof {
        reveal_with_fuel(all_mapped, 5);
    }
    let a = match mapped[0] {
        Ok(point) => point,
        Err(error) => {
            return Err(error);
        },
    };
    let b = match mapped[1] {
        Ok(point) => point,
        Err(error) => {
            return Err(error);
        },
    };
    let c = match mapped[2] {
        Ok(point) => point,
        Err(error) => {
            return Err(error);
        },
    };
    let d = match mapped[3] {
        Ok(point) => point,
        Err(error) => {
            return Err(error);
        },
    };
    let corners = [a, b, c, d];
    assert(corners@ =~= all_mapped(mapped@, 4)->Ok_0);
    Ok(corners)
}

} // verus!
