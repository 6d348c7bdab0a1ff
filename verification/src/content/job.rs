//! Interpretation jobs: requests to the layers below until there is a terminal outcome, which is
//! replayed ever after.

use vstd::prelude::*;

use crate::bytes::model::{ByteSource, SourceSnapshot};
use crate::content::accounting::{Accounting, ContentVmStats};
use crate::content::ext_gstate::ContentExtGStateProfile;
use crate::content::font_runtime::{
    font_guard_clear, font_next, font_stats_fit, is_font_guard_stop, no_fonts, ContentFontStats,
    FontRuntimeView, FontStep,
};
use crate::content::graphics_limits::ContentGraphicsLimits;
use crate::content::guard::{
    is_guard_stop, is_memory_stop, no_guard, vm_stop, GuardView, RunStop, RuntimeGuard,
};
use crate::content::image_runtime::{
    form_of, image_guards_clear, image_next, image_stats_fit, images_passed, is_image_guard_stop,
    no_images, untouched, ContentImageStats, ImageActivity, ImageRuntimeView, ImageStep,
};
use crate::content::interpret::{ContentInput, FormFrame, OwnedStream};
use crate::content::limits::ContentLimits;
use crate::content::materialize::{
    begins_a_run, material_next, room_made, MaterialStage, MaterialStep, MaterialView, Materializer,
};
use crate::content::model::{ContentScanStats, ObjectRef};
use crate::content::plan::{action_source, ExecutionAction};
use crate::content::plan_builder::planning_stops_for_an_answer;
use crate::content::planner::{item_views, name_views, Answer, Requirement};
use crate::content::planner_model::{required, AnswerView};
use crate::content::profile::{ContentFontProfile, ContentFormProfile, ContentImageProfile};
use crate::content::run::{
    accounting_of, execution_reached, execution_refused, font_name_of, font_place,
    fonts_plan_reached, fonts_plan_refused, image_at, images_plan_reached, images_plan_refused,
    live_fonts, live_images, plan_reached, plan_refused, plan_work_kept, run_fresh, run_starts,
    scan_reached, scan_refused, scan_work_kept, stage_from, start_work_kept, stopped, work_kept,
    ContentVmPhase, Interpretation, RunLimits, RunStage, RunState,
};
use crate::content::resources::ResourceLimits;
use crate::content::scanner::ContentCancellation;
use crate::content::scene::{identity_matrix, Matrix, ScenePoint};
use crate::content::text_model::broken;
use crate::content::view::{operator_view, operator_views};
use crate::content::vm_error::{
    vm_failure_of, ContentUnsupported, ContentVmError, ContentVmErrorCode, ContentVmFailure,
    SceneError,
};
use crate::content::vm_limits::ContentVmLimits;

verus! {

/// What a job needs next, or its terminal outcome.
pub enum JobRequest {
    /// The interpretation is complete.
    Ready,
    /// A validated feature is outside the profile.
    Unsupported(ContentUnsupported),
    /// The interpretation failed.
    Failed(ContentVmFailure),
    /// The corners of a form's box, mapped through its matrix.
    Corners { matrix: Matrix, corners: [ScenePoint; 4] },
    /// What an operator needs.
    Answer(Requirement),
    /// The external object of a name.
    LookupImage(Vec<u8>),
    /// The font of a name, for the action at a place.
    LookupFont { place: usize, name: Vec<u8> },
    /// A step of the acquisition of external objects.
    Images(ImageStep),
    /// A step of the acquisition of fonts.
    Fonts(FontStep),
    /// A step on the scene.
    Scene(MaterialStep),
}

/// How far a job still has to go.
pub open spec fn remaining_stages(run: Interpretation) -> int {
    match run.stage {
        RunStage::Scan => 9,
        RunStage::Open => 8,
        RunStage::Plan => 7,
        RunStage::LookupImages => 6,
        RunStage::LookupFonts => 5,
        RunStage::AcquireImages => 4,
        RunStage::AcquireFonts => 3,
        RunStage::Execute => if run.material is None {
            2
        } else {
            1
        },
        RunStage::Done => 0,
    }
}

/// How far a job still has to go in its stage.
pub open spec fn remaining_work(run: Interpretation) -> nat {
    match run.stage {
        RunStage::Execute => if run.material is Some && run.material->0.cursor
            <= run.material->0.plan.actions@.len() {
            (run.material->0.plan.actions@.len() - run.material->0.cursor) as nat
        } else {
            0
        },
        _ => 0,
    }
}

/// Whether a request is what an interpretation needs where it stands.
pub open spec fn request_fits(run: Interpretation, request: JobRequest) -> bool {
    match request {
        JobRequest::Ready => run.state == RunState::Ready,
        JobRequest::Unsupported(outcome) => run.state == RunState::Unsupported(outcome),
        JobRequest::Failed(failure) => run.state == RunState::Failed(failure),
        JobRequest::Corners { matrix, corners } => {
            &&& run.stage == RunStage::Open
            &&& matrix == run.input->0.initial_ctm
            &&& corners@ == run.input->0.form->0.bbox.spec_corners()
        },
        JobRequest::Answer(requirement) => {
            let at = run.builder->0.position as int;
            &&& run.stage == RunStage::Plan
            &&& at < run.program->0.spec_operators().len()
            &&& !(requirement@ is Nothing)
            &&& requirement@ == required(
                run.builder->0.planner@,
                run.builder->0.planner.config(),
                operator_view(run.program->0.spec_operators()[at]),
            )
        },
        JobRequest::LookupImage(name) => {
            &&& run.stage == RunStage::LookupImages
            &&& image_at(run.plan, run.lookup as int) == Some(name@)
        },
        JobRequest::LookupFont { place, name } => {
            let plan = run.plan->0;
            &&& run.stage == RunStage::LookupFonts
            &&& place == font_place(plan.actions@, run.lookup as int)
            &&& place < plan.actions@.len()
            &&& name@ == plan.names@[font_name_of(plan.actions@[place as int])]@
        },
        JobRequest::Images(step) => run.stage == RunStage::AcquireImages && image_step_fits(
            run.images->0@,
            step,
        ),
        JobRequest::Fonts(step) => run.stage == RunStage::AcquireFonts && font_step_fits(
            run.fonts->0@,
            step,
        ),
        JobRequest::Scene(step) => run.stage == RunStage::Execute && run.material is Some
            && material_step_fits(run.material->0@, run.material->0.plan.actions@, step),
    }
}

/// Whether a step is what the acquisition of external objects needs where it stands.
pub open spec fn image_step_fits(view: ImageRuntimeView, step: ImageStep) -> bool {
    let resources = view.resources;
    let cursor = resources.acquisition_cursor;
    let at_entry = cursor < resources.entries.len();
    let i = view.use_forms.len() as int;
    match step {
        ImageStep::Complete => false,
        ImageStep::AcquireImage(key) => at_entry && resources.entries[cursor].key == key
            && view.activity == ImageActivity::Idle,
        ImageStep::PollImage => at_entry && view.activity == ImageActivity::Image,
        ImageStep::AcquireForm(key) => at_entry && resources.entries[cursor].key == key
            && view.activity == ImageActivity::WantForm,
        ImageStep::PollForm => at_entry && view.activity == ImageActivity::Form,
        ImageStep::Interpret { form, transform } => {
            &&& !at_entry && i < resources.uses.len()
            &&& form_of(resources, i) == Some(form)
            &&& resources.uses[i].transform == transform
            &&& view.activity == ImageActivity::Idle
        },
        ImageStep::PollInterpretation => !at_entry && i < resources.uses.len() && view.activity
            == ImageActivity::Interpreting,
    }
}

/// Whether a step is what the acquisition of fonts needs where it stands.
pub open spec fn font_step_fits(view: FontRuntimeView, step: FontStep) -> bool {
    let cursor = view.resources.acquisition_cursor;
    &&& cursor < view.resources.entries.len()
    &&& match step {
        FontStep::Complete => false,
        FontStep::Acquire(key) => view.resources.entries[cursor].key == key && !view.active,
        FontStep::Poll => view.active,
    }
}

/// Whether a step is what materialization needs where it stands.
pub open spec fn material_step_fits(
    view: MaterialView,
    actions: Seq<ExecutionAction>,
    step: MaterialStep,
) -> bool {
    match step {
        MaterialStep::Proceed => false,
        MaterialStep::Finish => view.cursor == actions.len() && view.stage == MaterialStage::Ready,
        MaterialStep::Action(action) => view.stage == MaterialStage::Scene(None)
            && actions[view.cursor] == action,
        MaterialStep::DrawImage { image, .. } => view.stage matches MaterialStage::Scene(
            Some(object),
        ) && object is Image && object->Image_image == image,
        MaterialStep::AppendForm(form) => view.stage matches MaterialStage::Scene(Some(object))
            && object is Form && object->Form_form == form,
        _ => view.stage == MaterialStage::Text,
    }
}

impl Interpretation {
    /// The terminal outcome, as a request.
    fn terminal(&self) -> (request: Option<JobRequest>)
        ensures
            match request {
                Some(request) => self.state != RunState::Pending && request_fits(*self, request)
                    && (request is Ready || request is Unsupported || request is Failed),
                None => self.state == RunState::Pending,
            },
    {
        match self.state {
            RunState::Pending => None,
            RunState::Ready => Some(JobRequest::Ready),
            RunState::Unsupported(outcome) => Some(JobRequest::Unsupported(outcome)),
            RunState::Failed(failure) => Some(JobRequest::Failed(failure)),
        }
    }

    /// Scans, and goes on.
    fn poll_scan<S: ByteSource, C: ContentCancellation>(
        &mut self,
        guard: &RuntimeGuard<'_, S, C>,
    ) -> (request: Option<JobRequest>)
        requires
            at_rest(*old(self)),
            old(self).stage == RunStage::Scan,
        ensures
            polled(*old(self), *final(self), request, guard@),
    {
        match self.scan(guard) {
            Ok(_) => None,
            Err(stop) => {
                assert(ended(*self, stop));
                None
            },
        }
    }

    /// Asks for the corners of a form.
    fn poll_open(&mut self) -> (request: Option<JobRequest>)
        requires
            at_rest(*old(self)),
            old(self).stage == RunStage::Open,
        ensures
            polled(*old(self), *final(self), request, no_guard()),
    {
        match self.form_corners() {
            Some((matrix, corners)) => Some(JobRequest::Corners { matrix, corners }),
            None => {
                self.settle(internal());
                None
            },
        }
    }

    /// Plans until an operator needs an answer.
    fn poll_plan<S: ByteSource, C: ContentCancellation>(
        &mut self,
        guard: &RuntimeGuard<'_, S, C>,
    ) -> (request: Option<JobRequest>)
        requires
            at_rest(*old(self)),
            old(self).stage == RunStage::Plan,
        ensures
            polled(*old(self), *final(self), request, guard@),
    {
        match self.requirement() {
            Requirement::Nothing => {},
            requirement => {
                return Some(JobRequest::Answer(requirement));
            },
        }
        let ghost before = *self;
        match self.plan(&Answer::Nothing, guard) {
            Ok(_) => {},
            Err(stop) => {
                assert(ended(*self, stop));
                return None;
            },
        }
        proof {
            let at = before.builder->0.position as int;
            if at < before.program->0.spec_operators().len() {
                planning_stops_for_an_answer(
                    before.builder->0.planner@,
                    before.builder->0.planner.config(),
                    operator_views(before.program->0.spec_operators()),
                    at,
                    AnswerView::Nothing,
                );
            }
        }
        if self.stage != RunStage::Plan {
            return None;
        }
        match self.requirement() {
            Requirement::Nothing => {
                self.settle(internal());
                None
            },
            requirement => Some(JobRequest::Answer(requirement)),
        }
    }

    /// Asks for external objects and fonts, and ends their lookups.
    fn poll_lookups<S: ByteSource, C: ContentCancellation>(
        &mut self,
        guard: &RuntimeGuard<'_, S, C>,
    ) -> (request: Option<JobRequest>)
        requires
            at_rest(*old(self)),
            old(self).stage == RunStage::LookupImages || old(self).stage == RunStage::LookupFonts,
        ensures
            polled(*old(self), *final(self), request, guard@),
    {
        if self.stage == RunStage::LookupImages {
            if let Some(name) = self.image_name() {
                return Some(JobRequest::LookupImage(name));
            }
            return match self.images_planned(guard) {
                Ok(_) => None,
                Err(stop) => {
                    assert(ended(*self, stop));
                    None
                },
            };
        }
        if let Some((place, name)) = self.font_name() {
            return Some(JobRequest::LookupFont { place, name });
        }
        match self.fonts_planned(guard) {
            Ok(_) => None,
            Err(stop) => {
                assert(ended(*self, stop));
                None
            },
        }
    }

    /// Asks for the next step of the acquisition of external objects.
    fn poll_images<S: ByteSource, C: ContentCancellation>(
        &mut self,
        guard: &RuntimeGuard<'_, S, C>,
    ) -> (request: Option<JobRequest>)
        requires
            at_rest(*old(self)),
            old(self).stage == RunStage::AcquireImages,
        ensures
            polled(*old(self), *final(self), request, guard@),
    {
        proof {
            passing_stops_at_a_form(self.images->0@);
            self.images->0.resources.well_formed_model();
        }
        let step = match &mut self.images {
            Some(images) => images.poll_acquisitions(guard),
            None => Err(internal()),
        };
        match step {
            Ok(ImageStep::Complete) => {
                if !self.images_acquired() {
                    self.settle(internal());
                }
                None
            },
            Ok(step) => Some(JobRequest::Images(step)),
            Err(stop) => {
                self.settle(stop);
                assert(ended(*self, stop));
                None
            },
        }
    }

    /// Asks for the next step of the acquisition of fonts.
    fn poll_fonts<S: ByteSource, C: ContentCancellation>(
        &mut self,
        guard: &RuntimeGuard<'_, S, C>,
    ) -> (request: Option<JobRequest>)
        requires
            at_rest(*old(self)),
            old(self).stage == RunStage::AcquireFonts,
        ensures
            polled(*old(self), *final(self), request, guard@),
    {
        proof {
            self.fonts->0.resources.well_formed_model();
        }
        let step = match &mut self.fonts {
            Some(fonts) => fonts.poll_acquisitions(guard),
            None => Err(internal()),
        };
        match step {
            Ok(FontStep::Complete) => {
                if !self.fonts_acquired() {
                    self.settle(internal());
                }
                None
            },
            Ok(step) => Some(JobRequest::Fonts(step)),
            Err(stop) => {
                self.settle(stop);
                assert(ended(*self, stop));
                None
            },
        }
    }

    /// Asks for the next step on the scene.
    fn poll_scene<S: ByteSource, C: ContentCancellation>(
        &mut self,
        guard: &RuntimeGuard<'_, S, C>,
    ) -> (request: Option<JobRequest>)
        requires
            at_rest(*old(self)),
            old(self).stage == RunStage::Execute,
        ensures
            polled(*old(self), *final(self), request, guard@),
    {
        if self.material.is_none() {
            return match self.execute(guard) {
                Ok(_) => None,
                Err(stop) => {
                    assert(ended(*self, stop));
                    None
                },
            };
        }
        let step = match &mut self.material {
            Some(material) => material.next(guard),
            None => Err(internal()),
        };
        match step {
            Ok(MaterialStep::Proceed) => None,
            Ok(step) => Some(JobRequest::Scene(step)),
            Err(stop) => {
                self.settle(stop);
                assert(ended(*self, stop));
                None
            },
        }
    }

    /// Goes on as far as nothing is needed from the layers below, and returns what is. A terminal
    /// outcome is replayed, and nothing changes any more.
    pub fn poll<S: ByteSource, C: ContentCancellation>(
        &mut self,
        guard: &RuntimeGuard<'_, S, C>,
    ) -> (request: JobRequest)
        requires
            at_rest(*old(self)),
        ensures
            final(self).well_formed(),
            request_fits(*final(self), request),
            run_step(*old(self), *final(self), request, guard@),
            request is Ready ==> old(self).state == RunState::Ready,
            old(self).state != RunState::Pending ==> *final(self) == *old(self),
            final(self).state != RunState::Pending <==> (request is Ready || request is Unsupported
                || request is Failed),
    {
        let ghost mut count: nat = 0;
        loop
            invariant
                at_rest(*self),
                rounds(*old(self), *self, count, guard@),
                self.state == RunState::Ready ==> old(self).state == RunState::Ready,
                old(self).state != RunState::Pending ==> *self == *old(self),
            decreases remaining_stages(*self), remaining_work(*self),
        {
            if let Some(request) = self.terminal() {
                return request;
            }
            let ghost before = *self;
            let request = match self.stage {
                RunStage::Scan => self.poll_scan(guard),
                RunStage::Open => self.poll_open(),
                RunStage::Plan => self.poll_plan(guard),
                RunStage::LookupImages => self.poll_lookups(guard),
                RunStage::LookupFonts => self.poll_lookups(guard),
                RunStage::AcquireImages => self.poll_images(guard),
                RunStage::AcquireFonts => self.poll_fonts(guard),
                _ => self.poll_scene(guard),
            };
            if let Some(request) = request {
                assert(rounds(*old(self), before, count, guard@));
                return request;
            }
            proof {
                count = count + 1;
                assert(rounds(*old(self), before, (count - 1) as nat, guard@));
                assert(run_round(before, *self, None, guard@));
            }
        }
    }
}

proof fn passing_stops_at_a_form(view: ImageRuntimeView)
    ensures
        ({
            let next = images_passed(view);
            let i = next.use_forms.len() as int;
            &&& next == (ImageRuntimeView { use_forms: next.use_forms, ..view })
            &&& i < view.resources.uses.len() ==> form_of(view.resources, i) is Some
        }),
    decreases view.resources.uses.len() - view.use_forms.len(),
{
    let i = view.use_forms.len() as int;
    if i < view.resources.uses.len() && form_of(view.resources, i) is None {
        passing_stops_at_a_form(
            ImageRuntimeView { use_forms: view.use_forms.push(None), ..view },
        );
    }
}

/// Whether an interpretation waits for nothing on the scene.
pub open spec fn at_rest(run: Interpretation) -> bool {
    &&& run.well_formed()
    &&& run.stage == RunStage::Execute && run.material is Some ==> run.material->0.stage
        == MaterialStage::Ready
}

/// Whether an interpretation ended with a stop, and is at rest.
pub open spec fn ended(after: Interpretation, stop: RunStop) -> bool {
    after.well_formed() && stopped(after, stop)
}

/// Whether the operator at hand needs an answer.
pub open spec fn awaits_answer(run: Interpretation) -> bool {
    let operators = run.program->0.spec_operators();
    let at = run.builder->0.position as int;
    at < operators.len() && !(required(
        run.builder->0.planner@,
        run.builder->0.planner.config(),
        operator_view(operators[at]),
    ) is Nothing)
}

/// Whether the font to look up next has a name.
pub open spec fn awaits_font(run: Interpretation) -> bool {
    let plan = run.plan->0;
    let at = font_place(plan.actions@, run.lookup as int);
    at < plan.actions@.len() && font_name_of(plan.actions@[at]) < plan.names@.len()
}

/// One round over the acquisition of external objects.
pub open spec fn image_round(
    before: Interpretation,
    after: Interpretation,
    request: Option<JobRequest>,
    guard: GuardView,
) -> bool {
    let expected = image_next(
        before.images->0@,
        ResourceLimits::Image(before.images->0.limits),
    );
    match request {
        Some(JobRequest::Images(step)) => {
            &&& after == (Interpretation { images: after.images, ..before })
            &&& after.images is Some && after.images->0.limits == before.images->0.limits
            &&& expected == Ok::<(ImageRuntimeView, ImageStep), RunStop>(
                (after.images->0@, step),
            )
            &&& image_guards_clear(before.images->0@, guard)
        },
        Some(_) => false,
        None => {
            ||| exists|stop: RunStop| #[trigger]
                ended(after, stop) && work_kept(before, after) && (is_image_guard_stop(
                    before.images->0@,
                    stop,
                    guard,
                ) || (image_guards_clear(before.images->0@, guard) && expected == Err::<
                    (ImageRuntimeView, ImageStep),
                    RunStop,
                >(stop)))
            ||| expected matches Ok((view, ImageStep::Complete)) && if view.activity
                == ImageActivity::Idle {
                &&& after == (Interpretation {
                    images: after.images,
                    stage: stage_from(RunStage::AcquireFonts, true, before.fonts is Some),
                    ..before
                })
                &&& after.images is Some && after.images->0.limits == before.images->0.limits
                &&& after.images->0@ == view
            } else {
                ended(after, vm_stop(vm_failure_of(ContentVmErrorCode::InternalState, None)))
            }
        },
    }
}

/// One round over the acquisition of fonts.
pub open spec fn font_round(
    before: Interpretation,
    after: Interpretation,
    request: Option<JobRequest>,
    guard: GuardView,
) -> bool {
    let expected = font_next(before.fonts->0@, ResourceLimits::Font(before.fonts->0.limits));
    match request {
        Some(JobRequest::Fonts(step)) => {
            &&& after == (Interpretation { fonts: after.fonts, ..before })
            &&& after.fonts is Some && after.fonts->0.limits == before.fonts->0.limits
            &&& expected == Ok::<(FontRuntimeView, FontStep), RunStop>((after.fonts->0@, step))
            &&& font_guard_clear(before.fonts->0@, guard)
        },
        Some(_) => false,
        None => {
            ||| exists|stop: RunStop| #[trigger]
                ended(after, stop) && work_kept(before, after) && (is_font_guard_stop(
                    before.fonts->0@,
                    stop,
                    guard,
                ) || (font_guard_clear(before.fonts->0@, guard) && expected == Err::<
                    (FontRuntimeView, FontStep),
                    RunStop,
                >(stop)))
            ||| expected matches Ok((view, FontStep::Complete)) && if !view.active {
                &&& after == (Interpretation {
                    fonts: after.fonts,
                    stage: RunStage::Execute,
                    ..before
                })
                &&& after.fonts is Some && after.fonts->0.limits == before.fonts->0.limits
                &&& after.fonts->0@ == view
            } else {
                ended(after, vm_stop(vm_failure_of(ContentVmErrorCode::InternalState, None)))
            }
        },
    }
}

/// Why the action at hand cannot be begun.
pub open spec fn action_refused(
    material: Materializer,
    stop: RunStop,
    guard: GuardView,
) -> bool {
    let action = material.plan.actions@[material.cursor as int];
    let source = action_source(action);
    let expected = material_next(
        material@,
        material.plan.actions@,
        name_views(material.plan.names@),
        item_views(material.plan.items@),
        material.font_limits(),
    );
    &&& material.cursor < material.plan.actions@.len()
    &&& {
        ||| is_guard_stop(stop, Some(source), guard)
        ||| expected == Err::<(MaterialView, MaterialStep), RunStop>(stop)
        ||| begins_a_run(action) && is_memory_stop(stop) && room_made(expected)
        ||| action is Save && material.text@.saved.len() >= material.text.saved_slots && stop
            == broken(source)
    }
}

/// One round over the scene.
pub open spec fn scene_round(
    before: Interpretation,
    after: Interpretation,
    request: Option<JobRequest>,
    guard: GuardView,
) -> bool {
    let material = before.material->0;
    let expected = material_next(
        material@,
        material.plan.actions@,
        name_views(material.plan.names@),
        item_views(material.plan.items@),
        material.font_limits(),
    );
    let step = match request {
        Some(JobRequest::Scene(step)) => step,
        _ => MaterialStep::Proceed,
    };
    if before.material is None {
        &&& request is None
        &&& {
            ||| execution_reached(before, after)
            ||| exists|stop: RunStop| #[trigger]
                ended(after, stop) && execution_refused(before, stop, guard)
                    && start_work_kept(before, after)
        }
    } else if material.cursor >= material.plan.actions@.len() {
        &&& request == Some(JobRequest::Scene(MaterialStep::Finish))
        &&& after == (Interpretation { material: after.material, ..before })
        &&& after.material is Some && after.material->0.same_plan(&material)
        &&& after.material->0@ == material@
    } else {
        ||| request is None && exists|stop: RunStop| #[trigger]
            ended(after, stop) && action_refused(material, stop, guard) && after.accounting == (
            Accounting { peak_retained: after.accounting.peak_retained, ..before.accounting })
                && after.accounting.peak_retained >= accounting_of(before).peak_retained
        ||| {
            &&& request is None || request is Some && request->0 is Scene && step
                != MaterialStep::Proceed
            &&& after == (Interpretation { material: after.material, ..before })
            &&& after.material is Some && after.material->0.same_plan(&material)
            &&& expected == Ok::<(MaterialView, MaterialStep), RunStop>(
                (after.material->0@, step),
            )
            &&& guard.clear()
            &&& after.material->0.peak_retained >= material.peak_retained
        }
    }
}

/// What one round makes of a pending interpretation: its stage asks for what it needs, goes on to
/// the next stage, or stops.
pub open spec fn run_round(
    before: Interpretation,
    after: Interpretation,
    request: Option<JobRequest>,
    guard: GuardView,
) -> bool {
    match before.stage {
        RunStage::Scan => {
            &&& request is None
            &&& guard.clear() && scan_reached(before, after) || exists|stop: RunStop| #[trigger]
                ended(after, stop) && scan_refused(before, stop, guard) && scan_work_kept(before, after, stop)
        },
        RunStage::Open => after == before && request is Some && request->0 is Corners,
        RunStage::Plan => if awaits_answer(before) {
            after == before && request is Some && request->0 is Answer
        } else {
            match request {
                Some(request) => request is Answer && after.stage == RunStage::Plan && guard.clear()
                    && plan_reached(before, AnswerView::Nothing, after),
                None => {
                    ||| after.stage != RunStage::Plan && guard.clear() && plan_reached(
                        before,
                        AnswerView::Nothing,
                        after,
                    )
                    ||| exists|stop: RunStop| #[trigger]
                        ended(after, stop) && plan_refused(before, AnswerView::Nothing, stop, guard)
                            && plan_work_kept(before, after)
                },
            }
        },
        RunStage::LookupImages => if image_at(before.plan, before.lookup as int) is Some {
            after == before && request is Some && request->0 is LookupImage
        } else {
            &&& request is None
            &&& images_plan_reached(before, after) || exists|stop: RunStop| #[trigger]
                ended(after, stop) && images_plan_refused(before, stop, guard) && work_kept(before, after)
        },
        RunStage::LookupFonts => if awaits_font(before) {
            after == before && request is Some && request->0 is LookupFont
        } else {
            &&& request is None
            &&& fonts_plan_reached(before, after) || exists|stop: RunStop| #[trigger]
                ended(after, stop) && fonts_plan_refused(before, stop, guard) && work_kept(before, after)
        },
        RunStage::AcquireImages => image_round(before, after, request, guard),
        RunStage::AcquireFonts => font_round(before, after, request, guard),
        RunStage::Execute => scene_round(before, after, request, guard),
        RunStage::Done => false,
    }
}

/// Whether `count` rounds that ask for nothing lead from one interpretation to another.
pub open spec fn rounds(
    before: Interpretation,
    after: Interpretation,
    count: nat,
    guard: GuardView,
) -> bool
    decreases count,
{
    if count == 0 {
        after == before
    } else {
        exists|between: Interpretation|
            rounds(before, between, (count - 1) as nat, guard) && between.state == RunState::Pending
                && #[trigger] run_round(between, after, None, guard)
    }
}

/// What a poll makes of an interpretation: rounds that ask for nothing, and one that asks; or
/// rounds up to a terminal outcome, which is reported.
pub open spec fn run_step(
    before: Interpretation,
    after: Interpretation,
    request: JobRequest,
    guard: GuardView,
) -> bool {
    exists|last: Interpretation, count: nat| #[trigger]
        rounds(before, last, count, guard) && if last.state == RunState::Pending {
            run_round(last, after, Some(request), guard)
        } else {
            after == last && request_fits(last, request)
        }
}

/// Whether one round asked for what is needed, or came closer to the end.
pub open spec fn polled(
    before: Interpretation,
    after: Interpretation,
    request: Option<JobRequest>,
    guard: GuardView,
) -> bool {
    &&& run_round(before, after, request, guard)
    &&& match request {
        Some(request) => {
            &&& after.well_formed()
            &&& request_fits(after, request)
            &&& after.state == RunState::Pending
            &&& !(request is Ready || request is Unsupported || request is Failed)
        },
        None => {
            &&& at_rest(after)
            &&& after.state != RunState::Ready
            &&& remaining_stages(after) < remaining_stages(before) || (remaining_stages(after)
                == remaining_stages(before) && remaining_work(after) < remaining_work(before))
        },
    }
}

fn internal() -> (stop: RunStop)
    ensures
        stop == vm_stop(vm_failure_of(ContentVmErrorCode::InternalState, None)),
{
    RunStop::Failed(
        ContentVmFailure::Vm(ContentVmError::new(ContentVmErrorCode::InternalState, None)),
    )
}

/// Interpretation of one page.
pub struct InterpretPageJob {
    pub run: Interpretation,
}

impl InterpretPageJob {
    /// Creates a job without graphics.
    pub fn new(
        snapshot: SourceSnapshot,
        streams: Vec<OwnedStream>,
        scan_limits: ContentLimits,
        vm_limits: ContentVmLimits,
    ) -> (job: Self)
        ensures
            page_starts(
                job,
                snapshot,
                streams,
                (RunLimits { scan: scan_limits, vm: vm_limits, graphics: None }),
                None,
                None,
                None,
            ),
    {
        let limits = RunLimits { scan: scan_limits, vm: vm_limits, graphics: None };
        Self {
            run: Interpretation::new(
                ContentInput::page(snapshot, streams),
                limits,
                None,
                None,
                None,
            ),
        }
    }

    /// Creates a job with graphics.
    pub fn new_graphics_v2(
        snapshot: SourceSnapshot,
        streams: Vec<OwnedStream>,
        scan_limits: ContentLimits,
        vm_limits: ContentVmLimits,
        graphics_limits: ContentGraphicsLimits,
    ) -> (job: Self)
        ensures
            page_starts(
                job,
                snapshot,
                streams,
                (RunLimits { scan: scan_limits, vm: vm_limits, graphics: Some(graphics_limits) }),
                None,
                None,
                None,
            ),
    {
        let limits = RunLimits {
            scan: scan_limits,
            vm: vm_limits,
            graphics: Some(graphics_limits),
        };
        Self {
            run: Interpretation::new(
                ContentInput::page(snapshot, streams),
                limits,
                None,
                None,
                None,
            ),
        }
    }

    /// Creates a job with graphics and external images.
    pub fn new_graphics_v2_with_images(
        snapshot: SourceSnapshot,
        streams: Vec<OwnedStream>,
        scan_limits: ContentLimits,
        vm_limits: ContentVmLimits,
        graphics_limits: ContentGraphicsLimits,
        image_profile: ContentImageProfile,
    ) -> (job: Self)
        ensures
            page_starts(
                job,
                snapshot,
                streams,
                (RunLimits { scan: scan_limits, vm: vm_limits, graphics: Some(graphics_limits) }),
                Some(image_profile),
                None,
                None,
            ),
    {
        let limits = RunLimits {
            scan: scan_limits,
            vm: vm_limits,
            graphics: Some(graphics_limits),
        };
        Self {
            run: Interpretation::new(
                ContentInput::page(snapshot, streams),
                limits,
                Some(image_profile.content_limits()),
                None,
                None,
            ),
        }
    }

    /// Creates a job with graphics and embedded fonts.
    pub fn new_graphics_v2_with_fonts(
        snapshot: SourceSnapshot,
        streams: Vec<OwnedStream>,
        scan_limits: ContentLimits,
        vm_limits: ContentVmLimits,
        graphics_limits: ContentGraphicsLimits,
        font_profile: ContentFontProfile,
    ) -> (job: Self)
        ensures
            page_starts(
                job,
                snapshot,
                streams,
                (RunLimits { scan: scan_limits, vm: vm_limits, graphics: Some(graphics_limits) }),
                None,
                Some(font_profile),
                None,
            ),
    {
        let limits = RunLimits {
            scan: scan_limits,
            vm: vm_limits,
            graphics: Some(graphics_limits),
        };
        Self {
            run: Interpretation::new(
                ContentInput::page(snapshot, streams),
                limits,
                None,
                Some(font_profile.content_limits()),
                None,
            ),
        }
    }

    /// Creates a job with graphics, external images and embedded fonts.
    pub fn new_graphics_v2_with_images_and_fonts(
        snapshot: SourceSnapshot,
        streams: Vec<OwnedStream>,
        scan_limits: ContentLimits,
        vm_limits: ContentVmLimits,
        graphics_limits: ContentGraphicsLimits,
        image_profile: ContentImageProfile,
        font_profile: ContentFontProfile,
    ) -> (job: Self)
        ensures
            page_starts(
                job,
                snapshot,
                streams,
                (RunLimits { scan: scan_limits, vm: vm_limits, graphics: Some(graphics_limits) }),
                Some(image_profile),
                Some(font_profile),
                None,
            ),
    {
        let limits = RunLimits {
            scan: scan_limits,
            vm: vm_limits,
            graphics: Some(graphics_limits),
        };
        Self {
            run: Interpretation::new(
                ContentInput::page(snapshot, streams),
                limits,
                Some(image_profile.content_limits()),
                Some(font_profile.content_limits()),
                None,
            ),
        }
    }

    /// Creates a job with graphics, external images, embedded fonts and external graphics states.
    pub fn new_graphics_v2_with_resources(
        snapshot: SourceSnapshot,
        streams: Vec<OwnedStream>,
        scan_limits: ContentLimits,
        vm_limits: ContentVmLimits,
        graphics_limits: ContentGraphicsLimits,
        image_profile: ContentImageProfile,
        font_profile: ContentFontProfile,
        ext_gstate_profile: ContentExtGStateProfile,
    ) -> (job: Self)
        ensures
            page_starts(
                job,
                snapshot,
                streams,
                (RunLimits { scan: scan_limits, vm: vm_limits, graphics: Some(graphics_limits) }),
                Some(image_profile),
                Some(font_profile),
                Some(ext_gstate_profile),
            ),
    {
        let mut job = Self::new_graphics_v2_with_images_and_fonts(
            snapshot,
            streams,
            scan_limits,
            vm_limits,
            graphics_limits,
            image_profile,
            font_profile,
        );
        job.run.ext_gstates = Some(ext_gstate_profile);
        job
    }

    /// Lets external objects that are no images be forms, under a profile.
    pub fn with_forms(self, profile: ContentFormProfile) -> (job: Result<Self, ContentVmError>)
        requires
            self.run.well_formed(),
        ensures
            match job {
                Ok(job) => {
                    &&& job.run.well_formed()
                    &&& self.run.images is Some && untouched(self.run.images->0@)
                    &&& job.run.images is Some && job.run.images->0.limits
                        == self.run.images->0.limits
                    &&& job.run.images->0@ == (ImageRuntimeView {
                        forms: Some(profile),
                        ..self.run.images->0@
                    })
                    &&& job.run == (Interpretation { images: job.run.images, ..self.run })
                },
                Err(error) => {
                    &&& self.run.images is None || !untouched(self.run.images->0@)
                    &&& error == vm_failure_of(
                        if self.run.images is None {
                            ContentVmErrorCode::InvalidLimits
                        } else {
                            ContentVmErrorCode::InternalState
                        },
                        None,
                    )
                },
            },
    {
        match self.run.with_forms(profile) {
            Ok(run) => Ok(Self { run }),
            Err(error) => Err(error),
        }
    }

    /// Returns the pending or terminal phase.
    pub fn phase(&self) -> (phase: ContentVmPhase)
        ensures
            phase == phase_of(self.run.state),
    {
        self.run.phase()
    }

    /// Returns scanner work.
    pub fn scan_stats(&self) -> (stats: ContentScanStats)
        ensures
            stats == self.run.scan_stats,
    {
        self.run.scan_stats()
    }

    /// Returns interpreter work.
    pub fn vm_stats(&self) -> (stats: ContentVmStats)
        ensures
            stats.operators == self.run.accounting.operators,
            stats.fuel == self.run.accounting.fuel,
            stats.max_graphics_depth == self.run.accounting.max_graphics_depth,
            stats.max_compatibility_depth == self.run.accounting.max_compatibility_depth,
            stats.max_marked_depth == self.run.accounting.max_marked_depth,
            stats.property_uses == self.run.accounting.property_uses,
            stats.image_uses == self.run.accounting.image_uses,
            stats.retained_bytes == self.run.retained,
            stats.peak_retained_bytes == self.run.accounting.peak_retained,
    {
        self.run.vm_stats()
    }

    /// Returns work and results of external objects.
    pub fn image_stats(&self) -> (stats: Option<ContentImageStats>)
        ensures
            match live_images(self.run) {
                Some(images) => stats is Some && image_stats_fit(stats->0, images),
                None => stats == self.run.image_stats,
            },
    {
        self.run.image_stats()
    }

    /// Returns work and results of fonts.
    pub fn font_stats(&self) -> (stats: Option<ContentFontStats>)
        ensures
            match live_fonts(self.run) {
                Some(fonts) => stats is Some && font_stats_fit(stats->0, fonts),
                None => stats == self.run.font_stats,
            },
    {
        self.run.font_stats()
    }

    /// Goes on, and returns what is needed next or the terminal outcome.
    pub fn poll<S: ByteSource, C: ContentCancellation>(
        &mut self,
        guard: &RuntimeGuard<'_, S, C>,
    ) -> (request: JobRequest)
        requires
            at_rest(old(self).run),
        ensures
            final(self).run.well_formed(),
            request_fits(final(self).run, request),
            run_step(old(self).run, final(self).run, request, guard@),
            request is Ready ==> old(self).run.state == RunState::Ready,
            old(self).run.state != RunState::Pending ==> final(self).run == old(self).run,
            final(self).run.state != RunState::Pending <==> (request is Ready
                || request is Unsupported || request is Failed),
    {
        self.run.poll(guard)
    }
}

/// The phase of a state.
pub open spec fn phase_of(state: RunState) -> ContentVmPhase {
    match state {
        RunState::Pending => ContentVmPhase::Pending,
        RunState::Ready => ContentVmPhase::Ready,
        RunState::Unsupported(_) => ContentVmPhase::Unsupported,
        RunState::Failed(_) => ContentVmPhase::Failed,
    }
}

/// Whether a job starts with the content of a page, under budgets and capabilities.
pub open spec fn page_starts(
    job: InterpretPageJob,
    snapshot: SourceSnapshot,
    streams: Vec<OwnedStream>,
    limits: RunLimits,
    images: Option<ContentImageProfile>,
    fonts: Option<ContentFontProfile>,
    ext_gstates: Option<ContentExtGStateProfile>,
) -> bool {
    let input = ContentInput { snapshot, streams, initial_ctm: identity_matrix(), form: None };
    &&& at_rest(job.run)
    &&& run_starts(
        job.run,
        input,
        limits,
        match images {
            Some(profile) => Some(profile.content_limits),
            None => None,
        },
        match fonts {
            Some(profile) => Some(profile.content_limits),
            None => None,
        },
        ext_gstates,
    )
}

/// Interpretation of one form.
pub struct InterpretFormJob {
    pub run: Interpretation,
}

impl InterpretFormJob {
    /// Creates a job with graphics, external images and embedded fonts. `initial_ctm` is the
    /// transform of the invocation with the form's matrix.
    pub fn new_graphics_v2_with_images_and_fonts(
        snapshot: SourceSnapshot,
        object: ObjectRef,
        decoded: Vec<u8>,
        frame: FormFrame,
        initial_ctm: Result<Matrix, SceneError>,
        scan_limits: ContentLimits,
        vm_limits: ContentVmLimits,
        graphics_limits: ContentGraphicsLimits,
        image_profile: ContentImageProfile,
        font_profile: ContentFontProfile,
    ) -> (job: Result<Self, SceneError>)
        ensures
            match (job, initial_ctm) {
                (Ok(job), Ok(ctm)) => form_starts(
                    job,
                    snapshot,
                    OwnedStream { object, ordinal: 0, decoded },
                    frame,
                    ctm,
                    (RunLimits {
                        scan: scan_limits,
                        vm: vm_limits,
                        graphics: Some(graphics_limits),
                    }),
                    image_profile,
                    font_profile,
                ),
                (Err(error), Err(cause)) => error == cause,
                _ => false,
            },
    {
        let ctm = match initial_ctm {
            Ok(ctm) => ctm,
            Err(error) => {
                return Err(error);
            },
        };
        let limits = RunLimits {
            scan: scan_limits,
            vm: vm_limits,
            graphics: Some(graphics_limits),
        };
        Ok(
            Self {
                run: Interpretation::new(
                    ContentInput::form(snapshot, object, decoded, ctm, frame),
                    limits,
                    Some(image_profile.content_limits()),
                    Some(font_profile.content_limits()),
                    None,
                ),
            },
        )
    }

    /// Installs the external graphics states of the form.
    pub fn with_ext_gstates(self, profile: ContentExtGStateProfile) -> (job: Self)
        requires
            self.run.well_formed(),
        ensures
            job.run == (Interpretation { ext_gstates: Some(profile), ..self.run }),
            job.run.well_formed(),
    {
        let mut run = self.run;
        run.ext_gstates = Some(profile);
        Self { run }
    }

    /// Lets external objects inside the form that are no images be forms, under a profile.
    pub fn with_forms(self, profile: ContentFormProfile) -> (job: Result<Self, ContentVmError>)
        requires
            self.run.well_formed(),
            self.run.images is Some,
        ensures
            match job {
                Ok(job) => {
                    &&& job.run.well_formed()
                    &&& untouched(self.run.images->0@)
                    &&& job.run.images is Some && job.run.images->0.limits
                        == self.run.images->0.limits
                    &&& job.run.images->0@ == (ImageRuntimeView {
                        forms: Some(profile),
                        ..self.run.images->0@
                    })
                    &&& job.run == (Interpretation { images: job.run.images, ..self.run })
                },
                Err(error) => !untouched(self.run.images->0@) && error == vm_failure_of(
                    ContentVmErrorCode::InternalState,
                    None,
                ),
            },
    {
        match self.run.with_forms(profile) {
            Ok(run) => Ok(Self { run }),
            Err(error) => Err(error),
        }
    }

    /// Returns the pending or terminal phase.
    pub fn phase(&self) -> (phase: ContentVmPhase)
        ensures
            phase == phase_of(self.run.state),
    {
        self.run.phase()
    }

    /// Goes on, and returns what is needed next or the terminal outcome.
    pub fn poll<S: ByteSource, C: ContentCancellation>(
        &mut self,
        guard: &RuntimeGuard<'_, S, C>,
    ) -> (request: JobRequest)
        requires
            at_rest(old(self).run),
        ensures
            final(self).run.well_formed(),
            request_fits(final(self).run, request),
            run_step(old(self).run, final(self).run, request, guard@),
            request is Ready ==> old(self).run.state == RunState::Ready,
            old(self).run.state != RunState::Pending ==> final(self).run == old(self).run,
            final(self).run.state != RunState::Pending <==> (request is Ready
                || request is Unsupported || request is Failed),
    {
        self.run.poll(guard)
    }
}

/// Whether a job starts with the content of a form, under budgets and capabilities.
pub open spec fn form_starts(
    job: InterpretFormJob,
    snapshot: SourceSnapshot,
    stream: OwnedStream,
    frame: FormFrame,
    ctm: Matrix,
    limits: RunLimits,
    images: ContentImageProfile,
    fonts: ContentFontProfile,
) -> bool {
    let input = job.run.input->0;
    &&& at_rest(job.run)
    &&& input.snapshot == snapshot
    &&& input.streams@ == seq![stream]
    &&& input.initial_ctm == ctm
    &&& input.form == Some(frame)
    &&& run_starts(
        job.run,
        input,
        limits,
        Some(images.content_limits),
        Some(fonts.content_limits),
        None,
    )
}

/// Creates the job of a form that content under a profile invokes. Forms inside it run under the
/// profile's child, and there are none where the profile has no child.
pub fn nested_form_job(
    profile: &ContentFormProfile,
    snapshot: SourceSnapshot,
    object: ObjectRef,
    decoded: Vec<u8>,
    frame: FormFrame,
    initial_ctm: Result<Matrix, SceneError>,
    ext_gstates: Option<ContentExtGStateProfile>,
) -> (job: Result<InterpretFormJob, ContentVmFailure>)
    ensures
        match (job, initial_ctm) {
            (Ok(job), Ok(ctm)) => {
                let input = job.run.input->0;
                &&& at_rest(job.run)
                &&& input.snapshot == snapshot
                &&& input.streams@ == seq![OwnedStream { object, ordinal: 0, decoded }]
                &&& input.initial_ctm == ctm
                &&& input.form == Some(frame)
                &&& job.run.images is Some && job.run.images->0.limits
                    == profile.image_profile.content_limits
                &&& job.run.images->0@ == (ImageRuntimeView {
                    forms: profile.spec_child(),
                    ..no_images()
                })
                &&& job.run.fonts is Some && job.run.fonts->0.limits
                    == profile.font_profile.content_limits
                &&& job.run.fonts->0@ == no_fonts()
                &&& run_fresh(
                    job.run,
                    input,
                    (RunLimits {
                        scan: profile.scan_limits,
                        vm: profile.vm_limits,
                        graphics: Some(profile.graphics_limits),
                    }),
                    ext_gstates,
                )
            },
            (Err(failure), Err(error)) => failure == ContentVmFailure::Scene(error),
            _ => false,
        },
{
    let job = match InterpretFormJob::new_graphics_v2_with_images_and_fonts(
        snapshot,
        object,
        decoded,
        frame,
        initial_ctm,
        profile.scan_limits,
        profile.vm_limits,
        profile.graphics_limits,
        profile.image_profile,
        profile.font_profile,
    ) {
        Ok(job) => job,
        Err(error) => {
            return Err(ContentVmFailure::Scene(error));
        },
    };
    let mut run = job.run;
    run.ext_gstates = ext_gstates;
    let job = InterpretFormJob { run };
    match profile.child() {
        None => Ok(job),
        Some(child) => match job.with_forms(child) {
            Ok(job) => Ok(job),
            Err(error) => Err(ContentVmFailure::Vm(error)),
        },
    }
}

} // verus!
