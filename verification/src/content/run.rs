//! The stages of one interpretation, and its terminal outcome.

use vstd::prelude::*;

use crate::bytes::model::ByteSource;
use crate::content::accounting::{larger, no_charges, Accounting, ContentVmStats};
use crate::content::error::{content_failure, ContentError, ContentErrorCode};
use crate::content::ext_gstate::ContentExtGStateProfile;
use crate::content::font_limits::ContentFontLimits;
use crate::content::font_runtime::{
    font_stats_fit, no_fonts, ContentFontStats, FontRuntime, FontRuntimeView,
};
use crate::content::form_plan::{form_starved, ExecutionPlan, FormEnvelope};
use crate::content::graphics_limits::ContentGraphicsLimits;
use crate::content::graphics_model::all_mapped;
use crate::content::guard::{
    is_guard_stop, is_memory_stop, vm_stop, GuardView, RunStop, RuntimeGuard,
};
use crate::content::image_limits::ContentImageLimits;
use crate::content::image_runtime::{
    image_stats_fit, no_images, untouched, ContentImageStats, ImageActivity, ImageRuntime,
    ImageRuntimeView,
};
use crate::content::interpret::{
    owned_bytes, owned_in_order, owned_views, scan_input_content, ContentInput,
};
use crate::content::limits::ContentLimits;
use crate::content::materialize::{uses_executed, Execution, MaterialStage, Materializer};
use crate::content::model::{no_scan_work, ContentOperatorSource, ContentProgram, ContentScanStats};
use crate::content::plan::{action_operator_source, action_source, ExecutionAction, TextAction};
use crate::content::plan_builder::{cost_from, indexed, planned_from, starved_from, PlanBuilder};
use crate::content::planner::{copied, name_views, Answer, Planner, Requirement};
use crate::content::planner_model::{
    corner_bounds, counters, epilogue_actions, form_opened, imbalance, initial_plan, required,
    unsupported, AnswerView, PlanConfig, PlannedImageInvocation, PlannerView, RequirementView,
};
use crate::content::profile::ContentFormProfile;
use crate::content::resources::{
    ceiling_of, registered, unplanned, ResourceBudget, ResourceLimits, ResourceProof, ResourceStats,
    ResourceView,
};
use crate::content::scan_model::{scanned, Input};
use crate::content::scanner::{charged, is_outside_failure, work_of, ContentCancellation};
use crate::content::scene::{identity_matrix, Matrix, ScenePoint};
use crate::content::text_model::{initial_execution, scene_stop};
use crate::content::view::{operator_view, operator_views};
use crate::content::vm_error::{
    vm_failure_of, ContentUnsupported, ContentUnsupportedKind, ContentVmError, ContentVmErrorCode,
    ContentVmFailure, DocumentError, ImageUnsupported, SceneError,
};
use crate::content::vm_limits::ContentVmLimits;

verus! {

/// Stage of one interpretation.
#[derive(Clone, Copy, Debug, PartialEq, Eq, Structural)]
pub enum RunStage {
    /// The content is scanned.
    Scan,
    /// The corners of a form's box are mapped.
    Open,
    /// Operators are planned.
    Plan,
    /// External objects are looked up.
    LookupImages,
    /// Fonts are looked up.
    LookupFonts,
    /// External objects are acquired.
    AcquireImages,
    /// Fonts are acquired.
    AcquireFonts,
    /// The plan is materialized.
    Execute,
    /// There is a terminal outcome.
    Done,
}

/// Pending or terminal state of one interpretation.
#[derive(Clone, Copy, Debug, PartialEq, Eq, Structural)]
pub enum RunState {
    Pending,
    Ready,
    Unsupported(ContentUnsupported),
    Failed(ContentVmFailure),
}

/// Pending or terminal phase of one interpretation.
#[derive(Clone, Copy, Debug, PartialEq, Eq, Structural)]
pub enum ContentVmPhase {
    Pending,
    Ready,
    Unsupported,
    Failed,
}

/// Limits of one interpretation. Graphics limits select the graphics-capable profile.
#[derive(Clone, Copy, Debug, PartialEq, Eq, Structural)]
pub struct RunLimits {
    pub scan: ContentLimits,
    pub vm: ContentVmLimits,
    pub graphics: Option<ContentGraphicsLimits>,
}

/// What planning and text execution counted.
#[derive(Clone, Copy, Debug, PartialEq, Eq, Structural)]
pub struct RunTotals {
    pub image_operators: u64,
    pub font_operators: u64,
    pub text_bytes: u64,
    pub text_adjustments: u64,
    pub glyphs: u64,
    pub outline_segments: u64,
}

/// What the lookup of an external object answered.
#[derive(Clone, Copy, Debug, PartialEq, Eq, Structural)]
pub enum ImageLookup {
    Ready(ResourceProof),
    Unsupported(ImageUnsupported),
    Failed(DocumentError),
}

/// What the lookup of a font answered.
#[derive(Clone, Copy, Debug, PartialEq, Eq, Structural)]
pub enum FontLookup {
    Ready(ResourceProof),
    Unsupported(u32),
    Failed(DocumentError),
}

/// The stage after lookups and acquisitions that have nothing to do.
pub open spec fn stage_from(stage: RunStage, images: bool, fonts: bool) -> RunStage {
    match stage {
        RunStage::LookupImages => if images {
            stage
        } else if fonts {
            RunStage::LookupFonts
        } else {
            RunStage::Execute
        },
        RunStage::LookupFonts => if fonts {
            stage
        } else if images {
            RunStage::AcquireImages
        } else {
            RunStage::Execute
        },
        RunStage::AcquireImages => if images {
            stage
        } else if fonts {
            RunStage::AcquireFonts
        } else {
            RunStage::Execute
        },
        RunStage::AcquireFonts => if fonts {
            stage
        } else {
            RunStage::Execute
        },
        _ => stage,
    }
}

fn skip_stages(stage: RunStage, images: bool, fonts: bool) -> (next: RunStage)
    ensures
        next == stage_from(stage, images, fonts),
{
    match stage {
        RunStage::LookupImages => if images {
            stage
        } else if fonts {
            RunStage::LookupFonts
        } else {
            RunStage::Execute
        },
        RunStage::LookupFonts => if fonts {
            stage
        } else if images {
            RunStage::AcquireImages
        } else {
            RunStage::Execute
        },
        RunStage::AcquireImages => if images {
            stage
        } else if fonts {
            RunStage::AcquireFonts
        } else {
            RunStage::Execute
        },
        RunStage::AcquireFonts => if fonts {
            stage
        } else {
            RunStage::Execute
        },
        _ => stage,
    }
}

/// Whether an interpretation is one that was not begun yet, its runtimes aside.
pub open spec fn run_fresh(
    run: Interpretation,
    input: ContentInput,
    limits: RunLimits,
    ext_gstates: Option<ContentExtGStateProfile>,
) -> bool {
    run == (Interpretation {
        limits,
        stage: RunStage::Scan,
        state: RunState::Pending,
        input: Some(input),
        ext_gstates,
        images: run.images,
        fonts: run.fonts,
        program: None,
        builder: None,
        envelope: None,
        plan: None,
        lookup: 0,
        material: None,
        execution: None,
        scan_stats: no_scan_work(),
        scan_peak_retained: 0,
        accounting: no_charges(),
        retained: 0,
        image_stats: None,
        font_stats: None,
        totals: RunTotals {
            image_operators: 0,
            font_operators: 0,
            text_bytes: 0,
            text_adjustments: 0,
            glyphs: 0,
            outline_segments: 0,
        },
    })
}

/// Whether an interpretation is one that was not begun yet.
pub open spec fn run_starts(
    run: Interpretation,
    input: ContentInput,
    limits: RunLimits,
    images: Option<ContentImageLimits>,
    fonts: Option<ContentFontLimits>,
    ext_gstates: Option<ContentExtGStateProfile>,
) -> bool {
    &&& run_fresh(run, input, limits, ext_gstates)
    &&& run.images is Some <==> images is Some
    &&& images matches Some(limits) ==> run.images->0.limits == limits && run.images->0@
        == no_images()
    &&& run.fonts is Some <==> fonts is Some
    &&& fonts matches Some(limits) ==> run.fonts->0.limits == limits && run.fonts->0@ == no_fonts()
}

/// The terminal state of a stop.
pub open spec fn state_of(stop: RunStop) -> RunState {
    match stop {
        RunStop::Unsupported(outcome) => RunState::Unsupported(outcome),
        RunStop::Failed(failure) => RunState::Failed(failure),
    }
}

/// Whether an interpretation ended with a stop, and let go of everything that it worked on.
pub open spec fn stopped(after: Interpretation, stop: RunStop) -> bool {
    &&& after.stage == RunStage::Done
    &&& after.state == state_of(stop)
    &&& after.input is None
    &&& after.ext_gstates is None
    &&& after.images is None
    &&& after.fonts is None
    &&& after.program is None
    &&& after.builder is None
    &&& after.plan is None
    &&& after.material is None
}

/// What an end with a stop leaves: the work that was counted, and nothing else.
pub open spec fn settled_as(before: Interpretation, after: Interpretation, stop: RunStop) -> bool {
    &&& stopped(after, stop)
    &&& after == (Interpretation {
        stage: RunStage::Done,
        state: state_of(stop),
        input: None,
        ext_gstates: None,
        images: None,
        fonts: None,
        program: None,
        builder: None,
        plan: None,
        material: None,
        image_stats: after.image_stats,
        font_stats: after.font_stats,
        accounting: accounting_of(before),
        totals: totals_of(before),
        ..before
    })
    &&& stats_kept(before, after)
}

/// Whether a stop keeps the work that was counted before.
pub open spec fn work_kept(before: Interpretation, after: Interpretation) -> bool {
    &&& after.scan_stats == before.scan_stats
    &&& after.scan_peak_retained == before.scan_peak_retained
    &&& after.accounting == accounting_of(before)
    &&& after.totals == totals_of(before)
    &&& live_images(before) is Some ==> after.image_stats is Some
    &&& live_fonts(before) is Some ==> after.font_stats is Some
}

/// Whether a stop at the start of materialization keeps the work that was counted before: what its
/// room retained at most is observed.
pub open spec fn start_work_kept(before: Interpretation, after: Interpretation) -> bool {
    &&& after.accounting.peak_retained >= accounting_of(before).peak_retained
    &&& work_kept(
        before,
        Interpretation {
            accounting: Accounting {
                peak_retained: accounting_of(before).peak_retained,
                ..after.accounting
            },
            ..after
        },
    )
}

/// Whether a stop will keep the work that was counted before.
spec fn stop_keeps_work(before: Interpretation, now: Interpretation) -> bool {
    &&& now.scan_stats == before.scan_stats
    &&& now.scan_peak_retained == before.scan_peak_retained
    &&& accounting_of(now) == (Accounting {
        peak_retained: accounting_of(now).peak_retained,
        ..accounting_of(before)
    })
    &&& totals_of(now) == totals_of(before)
    &&& live_images(before) is Some ==> live_images(now) is Some || now.image_stats is Some
    &&& live_fonts(before) is Some ==> live_fonts(now) is Some || now.font_stats is Some
}

/// What is charged so far: by the plan under construction, where there is one, and with what
/// materialization retained at most, where it began.
pub open spec fn accounting_of(run: Interpretation) -> Accounting {
    let charged = match run.builder {
        Some(builder) => builder.planner.accounting,
        None => run.accounting,
    };
    match run.material {
        Some(material) => Accounting {
            peak_retained: larger(charged.peak_retained, material.peak_retained),
            ..charged
        },
        None => charged,
    }
}

/// Whether a runtime of external objects changed in its plan of resources only, which is now
/// `resources`.
pub open spec fn image_resources_set(
    before: ImageRuntime,
    after: Option<ImageRuntime>,
    resources: ResourceView,
) -> bool {
    &&& after is Some
    &&& after->0.limits == before.limits
    &&& after->0@ == (ImageRuntimeView { resources, ..before@ })
}

/// Whether a runtime of fonts changed in its plan of resources only, which is now `resources`.
pub open spec fn font_resources_set(
    before: FontRuntime,
    after: Option<FontRuntime>,
    resources: ResourceView,
) -> bool {
    &&& after is Some
    &&& after->0.limits == before.limits
    &&& after->0@ == (FontRuntimeView { resources, ..before@ })
}

/// Whether a plan that retains `recorded` bytes, and `least` at least, was held against the budget
/// of a plan of resources, which had none recorded.
pub open spec fn plan_held(
    before: ResourceView,
    limits: ResourceLimits,
    recorded: u64,
    least: u64,
) -> bool {
    &&& !before.plan_complete
    &&& before.recorded_plan == 0
    &&& least <= recorded <= ceiling_of(limits, ResourceBudget::PlanRetained)
}

/// One interpretation.
pub struct Interpretation {
    pub limits: RunLimits,
    pub stage: RunStage,
    pub state: RunState,
    pub input: Option<ContentInput>,
    pub ext_gstates: Option<ContentExtGStateProfile>,
    pub images: Option<ImageRuntime>,
    pub fonts: Option<FontRuntime>,
    pub program: Option<ContentProgram>,
    pub builder: Option<PlanBuilder>,
    pub envelope: Option<FormEnvelope>,
    pub plan: Option<ExecutionPlan>,
    pub lookup: usize,
    pub material: Option<Materializer>,
    pub execution: Option<Execution>,
    pub scan_stats: ContentScanStats,
    pub scan_peak_retained: u64,
    pub accounting: Accounting,
    pub retained: u64,
    pub image_stats: Option<ContentImageStats>,
    pub font_stats: Option<ContentFontStats>,
    pub totals: RunTotals,
}

impl Interpretation {
    /// Whether the runtimes that are there are well formed.
    pub open spec fn runtimes_ok(&self) -> bool {
        &&& self.images matches Some(images) ==> images.well_formed()
        &&& self.fonts matches Some(fonts) ==> fonts.well_formed()
    }

    /// The invariant: each stage has what it works on.
    pub open spec fn well_formed(&self) -> bool {
        &&& self.runtimes_ok()
        &&& self.stage == RunStage::Done <==> self.state != RunState::Pending
        &&& self.stage != RunStage::Execute ==> self.material is None
        &&& self.builder is Some ==> self.stage == RunStage::Open || self.stage == RunStage::Plan
        &&& match self.stage {
            RunStage::Scan => self.input is Some,
            RunStage::Open => {
                &&& self.input is Some && self.input->0.form is Some
                &&& self.program is Some && indexed(self.program->0.spec_operators())
                &&& self.program->0.spec_operators().len() > 0
                &&& self.builder is Some && self.builder->0.planner.well_formed()
                &&& self.builder->0.position == 0
                &&& self.envelope is None
            },
            RunStage::Plan => {
                &&& self.program is Some && indexed(self.program->0.spec_operators())
                &&& self.builder is Some && self.builder->0.planner.well_formed()
                &&& self.envelope matches Some(form) ==> form.source.page_operator_ordinal
                    <= u32::MAX
            },
            RunStage::LookupImages => self.plan is Some && self.images is Some,
            RunStage::LookupFonts => self.plan is Some && self.fonts is Some,
            RunStage::AcquireImages => self.plan is Some && self.images is Some,
            RunStage::AcquireFonts => self.plan is Some && self.fonts is Some,
            RunStage::Execute => {
                ||| self.plan is Some && self.material is None
                ||| self.material is Some && self.material->0.well_formed()
            },
            RunStage::Done => true,
        }
    }

    /// Starts one interpretation.
    pub fn new(
        input: ContentInput,
        limits: RunLimits,
        images: Option<ContentImageLimits>,
        fonts: Option<ContentFontLimits>,
        ext_gstates: Option<ContentExtGStateProfile>,
    ) -> (run: Self)
        ensures
            run.well_formed(),
            run_starts(run, input, limits, images, fonts, ext_gstates),
    {
        let images = match images {
            Some(limits) => Some(ImageRuntime::new(limits)),
            None => None,
        };
        let fonts = match fonts {
            Some(limits) => Some(FontRuntime::new(limits)),
            None => None,
        };
        Self {
            limits,
            stage: RunStage::Scan,
            state: RunState::Pending,
            input: Some(input),
            ext_gstates,
            images,
            fonts,
            program: None,
            builder: None,
            envelope: None,
            plan: None,
            lookup: 0,
            material: None,
            execution: None,
            scan_stats: ContentScanStats {
                streams: 0,
                total_decoded_bytes: 0,
                tokens: 0,
                max_token_bytes: 0,
                operands: 0,
                max_operands_per_operator: 0,
                max_nesting_depth: 0,
                operators: 0,
                unknown_operators: 0,
                fuel: 0,
                retained_bytes: 0,
            },
            scan_peak_retained: 0,
            accounting: Accounting::default(),
            retained: 0,
            image_stats: None,
            font_stats: None,
            totals: RunTotals {
                image_operators: 0,
                font_operators: 0,
                text_bytes: 0,
                text_adjustments: 0,
                glyphs: 0,
                outline_segments: 0,
            },
        }
    }

    /// Lets external objects that are no images be forms, under a profile. Without images there
    /// are none.
    pub fn with_forms(self, profile: ContentFormProfile) -> (run: Result<Self, ContentVmError>)
        requires
            self.well_formed(),
        ensures
            match run {
                Ok(run) => {
                    &&& run.well_formed()
                    &&& self.images is Some && untouched(self.images->0@)
                    &&& run.images is Some && run.images->0.limits == self.images->0.limits
                    &&& run.images->0@ == (ImageRuntimeView {
                        forms: Some(profile),
                        ..self.images->0@
                    })
                    &&& run == (Interpretation { images: run.images, ..self })
                },
                Err(error) => {
                    ||| self.images is None && error == vm_failure_of(
                        ContentVmErrorCode::InvalidLimits,
                        None,
                    )
                    ||| self.images is Some && !untouched(self.images->0@) && error == vm_failure_of(
                        ContentVmErrorCode::InternalState,
                        None,
                    )
                },
            },
    {
        let mut run = self;
        match &mut run.images {
            None => {
                return Err(ContentVmError::new(ContentVmErrorCode::InvalidLimits, None));
            },
            Some(images) => match images.enable_forms(profile) {
                Ok(_) => {},
                Err(error) => {
                    return Err(error);
                },
            },
        }
        Ok(run)
    }

    /// Returns the pending or terminal phase.
    pub fn phase(&self) -> (phase: ContentVmPhase)
        ensures
            phase == (match self.state {
                RunState::Pending => ContentVmPhase::Pending,
                RunState::Ready => ContentVmPhase::Ready,
                RunState::Unsupported(_) => ContentVmPhase::Unsupported,
                RunState::Failed(_) => ContentVmPhase::Failed,
            }),
    {
        match self.state {
            RunState::Pending => ContentVmPhase::Pending,
            RunState::Ready => ContentVmPhase::Ready,
            RunState::Unsupported(_) => ContentVmPhase::Unsupported,
            RunState::Failed(_) => ContentVmPhase::Failed,
        }
    }

    /// Returns scanner work.
    pub fn scan_stats(&self) -> (stats: ContentScanStats)
        ensures
            stats == self.scan_stats,
    {
        self.scan_stats
    }

    /// Returns interpreter work.
    pub fn vm_stats(&self) -> (stats: ContentVmStats)
        ensures
            stats.operators == self.accounting.operators,
            stats.fuel == self.accounting.fuel,
            stats.max_graphics_depth == self.accounting.max_graphics_depth,
            stats.max_compatibility_depth == self.accounting.max_compatibility_depth,
            stats.max_marked_depth == self.accounting.max_marked_depth,
            stats.property_uses == self.accounting.property_uses,
            stats.image_uses == self.accounting.image_uses,
            stats.retained_bytes == self.retained,
            stats.peak_retained_bytes == self.accounting.peak_retained,
    {
        self.accounting.snapshot(self.retained)
    }

    /// Returns work and results of external objects: those that are live, or those at the end.
    pub fn image_stats(&self) -> (stats: Option<ContentImageStats>)
        ensures
            match live_images(*self) {
                Some(images) => stats is Some && image_stats_fit(stats->0, images),
                None => stats == self.image_stats,
            },
    {
        if let Some(material) = &self.material {
            if let Some(images) = &material.images {
                return Some(images.stats());
            }
        }
        match &self.images {
            Some(images) => Some(images.stats()),
            None => self.image_stats,
        }
    }

    /// Returns work and results of fonts: those that are live, or those at the end.
    pub fn font_stats(&self) -> (stats: Option<ContentFontStats>)
        ensures
            match live_fonts(*self) {
                Some(fonts) => stats is Some && font_stats_fit(stats->0, fonts),
                None => stats == self.font_stats,
            },
    {
        if let Some(material) = &self.material {
            if let Some(fonts) = &material.fonts {
                return Some(fonts.stats());
            }
        }
        match &self.fonts {
            Some(fonts) => Some(fonts.stats()),
            None => self.font_stats,
        }
    }

    /// Returns what planning and text execution counted: what is live, or what was at the end.
    pub fn totals(&self) -> (totals: RunTotals)
        ensures
            totals == totals_of(*self),
    {
        if let Some(material) = &self.material {
            return plan_totals(
                &material.plan,
                material.text.shown_glyphs,
                material.text.shown_segments,
            );
        }
        if let Some(plan) = &self.plan {
            return plan_totals(plan, 0, 0);
        }
        match &self.builder {
            Some(builder) => planner_totals(&builder.planner),
            None => self.totals,
        }
    }

    /// Ends the interpretation for good, and lets go of everything that it worked on. What ended
    /// first stays.
    pub fn settle(&mut self, stop: RunStop)
        requires
            old(self).state == RunState::Pending || old(self).well_formed(),
        ensures
            final(self).well_formed(),
            final(self).stage == RunStage::Done,
            old(self).state != RunState::Pending ==> *final(self) == *old(self),
            old(self).state == RunState::Pending ==> settled_as(*old(self), *final(self), stop),
    {
        if self.state != RunState::Pending {
            return;
        }
        self.image_stats = self.image_stats();
        self.font_stats = self.font_stats();
        self.totals = self.totals();
        if let Some(builder) = &self.builder {
            self.accounting = builder.planner.accounting;
        }
        if let Some(material) = &self.material {
            self.accounting.observe_retained(material.peak_retained);
        }
        self.state = match stop {
            RunStop::Unsupported(outcome) => RunState::Unsupported(outcome),
            RunStop::Failed(failure) => RunState::Failed(failure),
        };
        self.stage = RunStage::Done;
        self.input = None;
        self.images = None;
        self.fonts = None;
        self.ext_gstates = None;
        self.program = None;
        self.builder = None;
        self.plan = None;
        self.material = None;
    }

    /// Checks the source and the cancellation before a pending interpretation goes on.
    pub fn begin_poll<S: ByteSource, C: ContentCancellation>(
        &mut self,
        guard: &RuntimeGuard<'_, S, C>,
    ) -> (result: Result<(), RunStop>)
        requires
            old(self).well_formed(),
        ensures
            final(self).well_formed(),
            result is Ok ==> *final(self) == *old(self) && (old(self).state == RunState::Pending
                ==> guard@.clear()),
            result matches Err(stop) ==> {
                &&& old(self).state == RunState::Pending
                &&& is_guard_stop(stop, None, guard@)
                &&& settled_as(*old(self), *final(self), stop)
            },
    {
        if self.state != RunState::Pending {
            return Ok(());
        }
        let result = guard.probe(None);
        self.close(result)
    }

    /// Whether two interpretations have the same runtimes and limits.
    pub open spec fn same_setup(&self, other: &Self) -> bool {
        &&& self.limits == other.limits
        &&& self.images is Some <==> other.images is Some
        &&& self.fonts is Some <==> other.fonts is Some
    }

    /// Passes a stage result on; a stop ends the interpretation.
    fn close(&mut self, result: Result<(), RunStop>) -> (closed: Result<(), RunStop>)
        requires
            old(self).well_formed() || (result is Err && old(self).state == RunState::Pending),
        ensures
            closed == result,
            result is Ok ==> *final(self) == *old(self),
            result matches Err(stop) ==> {
                &&& final(self).well_formed()
                &&& old(self).state == RunState::Pending ==> settled_as(
                    *old(self),
                    *final(self),
                    stop,
                )
            },
    {
        if let Err(stop) = result {
            self.settle(stop);
        }
        result
    }

    /// Scans the content, and sets planning up.
    pub fn scan<S: ByteSource, C: ContentCancellation>(
        &mut self,
        guard: &RuntimeGuard<'_, S, C>,
    ) -> (result: Result<(), RunStop>)
        requires
            old(self).well_formed(),
            old(self).stage == RunStage::Scan,
        ensures
            final(self).well_formed(),
            match result {
                Ok(_) => guard@.clear() && scan_reached(*old(self), *final(self)),
                Err(stop) => stopped(*final(self), stop) && scan_refused(*old(self), stop, guard@)
                    && scan_work_kept(*old(self), *final(self), stop),
            },
    {
        let result = self.scan_content(guard);
        self.close(result)
    }

    fn scan_content<S: ByteSource, C: ContentCancellation>(
        &mut self,
        guard: &RuntimeGuard<'_, S, C>,
    ) -> (result: Result<(), RunStop>)
        requires
            old(self).well_formed(),
            old(self).stage == RunStage::Scan,
        ensures
            match result {
                Ok(_) => guard@.clear() && final(self).well_formed() && scan_reached(
                    *old(self),
                    *final(self),
                ),
                Err(stop) => final(self).state == RunState::Pending && scan_refused(
                    *old(self),
                    stop,
                    guard@,
                ) && final(self).builder is None && final(self).material is None && scan_work_kept(
                    *old(self),
                    *final(self),
                    stop,
                ),
            },
    {
        match guard.probe(None) {
            Ok(_) => {},
            Err(stop) => {
                return Err(stop);
            },
        }
        let (bytes, ctm, is_form): (u64, Matrix, bool) = match &self.input {
            Some(input) => (input.decoded_bytes(), input.initial_ctm, input.form.is_some()),
            None => {
                return Err(internal_stop());
            },
        };
        let mut image_limits: Option<ContentImageLimits> = None;
        if let Some(images) = &mut self.images {
            image_limits = Some(images.limits);
            if bytes == u64::MAX {
                let stop = internal_stop();
                assert(cannot_record_scan(*old(self)));
                assert(is_internal_stop(stop));
                return Err(stop);
            }
            match images.record_scan(bytes) {
                Ok(_) => {},
                Err(error) => {
                    return Err(
                        guard.prioritize(None, RunStop::Failed(ContentVmFailure::Vm(error))),
                    );
                },
            }
        }
        let font_limits = match &self.fonts {
            Some(fonts) => Some(fonts.limits),
            None => None,
        };
        let report = match &self.input {
            Some(input) => scan_input_content(input, self.limits.scan, self.limits.vm, guard),
            None => {
                return Err(internal_stop());
            },
        };
        self.scan_stats = report.stats;
        self.scan_peak_retained = report.peak_retained;
        self.accounting.observe_retained(report.observed);
        let program = match report.content {
            Ok(program) => program,
            Err(stop) => {
                return Err(stop);
            },
        };
        let framed = is_form && program.operators().len() > 0;
        let planner = Planner::new(
            self.limits.vm,
            self.limits.graphics,
            image_limits,
            font_limits,
            self.ext_gstates.take(),
            framed,
            self.scan_stats.retained_bytes,
            ctm,
            self.accounting,
        );
        self.builder = Some(PlanBuilder::new(planner));
        self.program = Some(program);
        self.envelope = None;
        self.stage = if framed {
            RunStage::Open
        } else {
            RunStage::Plan
        };
        Ok(())
    }

    /// Returns the corners to map, with the transform to map them through.
    pub fn form_corners(&self) -> (corners: Option<(Matrix, [ScenePoint; 4])>)
        ensures
            match corners {
                Some((matrix, points)) => {
                    &&& self.input is Some && self.input->0.form is Some
                    &&& matrix == self.input->0.initial_ctm
                    &&& points@ == self.input->0.form->0.bbox.spec_corners()
                },
                None => self.input is None || self.input->0.form is None,
            },
    {
        match &self.input {
            Some(input) => match input.form {
                Some(frame) => Some((input.initial_ctm, frame.bbox.corners())),
                None => None,
            },
            None => None,
        }
    }

    /// Opens a form with the mapped corners of its box.
    pub fn open<S: ByteSource, C: ContentCancellation>(
        &mut self,
        mapped: &[Result<ScenePoint, SceneError>; 4],
        guard: &RuntimeGuard<'_, S, C>,
    ) -> (result: Result<(), RunStop>)
        requires
            old(self).well_formed(),
            old(self).stage == RunStage::Open,
        ensures
            final(self).well_formed(),
            match result {
                Ok(_) => open_reached(*old(self), mapped@, *final(self)),
                Err(stop) => stopped(*final(self), stop) && open_refused(
                    *old(self),
                    mapped@,
                    stop,
                    guard@,
                ) && plan_work_kept(*old(self), *final(self)),
            },
    {
        let result = self.open_form(mapped, guard);
        self.close(result)
    }

    fn open_form<S: ByteSource, C: ContentCancellation>(
        &mut self,
        mapped: &[Result<ScenePoint, SceneError>; 4],
        guard: &RuntimeGuard<'_, S, C>,
    ) -> (result: Result<(), RunStop>)
        requires
            old(self).well_formed(),
            old(self).stage == RunStage::Open,
        ensures
            match result {
                Ok(_) => final(self).well_formed() && open_reached(
                    *old(self),
                    mapped@,
                    *final(self),
                ),
                Err(stop) => final(self).state == RunState::Pending && open_refused(
                    *old(self),
                    mapped@,
                    stop,
                    guard@,
                ) && final(self).scan_stats == old(self).scan_stats
                    && final(self).scan_peak_retained == old(self).scan_peak_retained
                    && final(self).builder is Some
                    && old(self).builder->0.planner.accounting.fuel
                    <= final(self).builder->0.planner.accounting.fuel,
            },
    {
        let group = match &self.input {
            Some(input) => match input.form {
                Some(frame) => frame.simple_transparency_group,
                None => false,
            },
            None => false,
        };
        let first = match &self.program {
            Some(program) => program.operators()[0].source,
            None => {
                return Err(internal_stop());
            },
        };
        match &mut self.builder {
            None => {
                return Err(internal_stop());
            },
            Some(builder) => match builder.planner.append_form_prologue(mapped, group, first) {
                Ok(envelope) => {
                    self.envelope = Some(envelope);
                },
                Err(stop) => {
                    let operator = match stop {
                        RunStop::Failed(ContentVmFailure::Scene(_)) => Some(first),
                        _ => None,
                    };
                    let reported = guard.prioritize(operator, stop);
                    return Err(reported);
                },
            },
        }
        self.stage = RunStage::Plan;
        Ok(())
    }

    /// Returns what the operator at hand needs from the layers below.
    pub fn requirement(&self) -> (requirement: Requirement)
        requires
            self.well_formed(),
            self.stage == RunStage::Plan,
        ensures
            ({
                let operators = self.program->0.spec_operators();
                let at = self.builder->0.position;
                requirement@ == (if at < operators.len() {
                    required(
                        self.builder->0.planner@,
                        self.builder->0.planner.config(),
                        operator_view(operators[at as int]),
                    )
                } else {
                    RequirementView::Nothing
                })
            }),
    {
        match (&self.builder, &self.program) {
            (Some(builder), Some(program)) => builder.requirement(program),
            _ => Requirement::Nothing,
        }
    }

    /// Plans the operator at hand with its answer, and every operator after it that needs none.
    /// After the last one, the plan is finished.
    pub fn plan<S: ByteSource, C: ContentCancellation>(
        &mut self,
        answer: &Answer,
        guard: &RuntimeGuard<'_, S, C>,
    ) -> (result: Result<(), RunStop>)
        requires
            old(self).well_formed(),
            old(self).stage == RunStage::Plan,
        ensures
            final(self).well_formed(),
            match result {
                Ok(_) => guard@.clear() && plan_reached(*old(self), answer@, *final(self)),
                Err(stop) => stopped(*final(self), stop) && plan_refused(
                    *old(self),
                    answer@,
                    stop,
                    guard@,
                ) && plan_work_kept(*old(self), *final(self)),
            },
    {
        let result = self.plan_operators(answer, guard);
        self.close(result)
    }

    fn plan_operators<S: ByteSource, C: ContentCancellation>(
        &mut self,
        answer: &Answer,
        guard: &RuntimeGuard<'_, S, C>,
    ) -> (result: Result<(), RunStop>)
        requires
            old(self).well_formed(),
            old(self).stage == RunStage::Plan,
        ensures
            match result {
                Ok(_) => guard@.clear() && final(self).well_formed() && plan_reached(
                    *old(self),
                    answer@,
                    *final(self),
                ),
                Err(stop) => final(self).state == RunState::Pending && plan_refused(
                    *old(self),
                    answer@,
                    stop,
                    guard@,
                ) && final(self).builder is None && plan_work_kept(*old(self), *final(self)),
            },
    {
        let mut builder = match self.builder.take() {
            Some(builder) => builder,
            None => {
                return Err(internal_stop());
            },
        };
        let count: usize = match &self.program {
            None => {
                return Err(internal_stop());
            },
            Some(program) => {
                match builder.build_execution_plan(program, answer, guard) {
                    Ok(_) => {},
                    Err(stop) => {
                        self.accounting = builder.planner.accounting;
                        self.totals = planner_totals(&builder.planner);
                        return Err(stop);
                    },
                }
                program.operators().len()
            },
        };
        if builder.position < count {
            self.builder = Some(builder);
            return Ok(());
        }
        self.accounting = builder.planner.accounting;
        self.totals = planner_totals(&builder.planner);
        let plan = match builder.finish(self.envelope, guard) {
            Ok(plan) => plan,
            Err(stop) => {
                return Err(stop);
            },
        };
        self.accounting = plan.accounting;
        match self.record_plan(&plan, guard) {
            Ok(_) => {},
            Err(stop) => {
                return Err(stop);
            },
        }
        self.program = None;
        self.plan = Some(plan);
        self.enter_lookup(RunStage::LookupImages, guard)
    }

    /// Holds what a plan retains against the image and font budgets.
    fn record_plan<S: ByteSource, C: ContentCancellation>(
        &mut self,
        plan: &ExecutionPlan,
        guard: &RuntimeGuard<'_, S, C>,
    ) -> (result: Result<(), RunStop>)
        requires
            old(self).runtimes_ok(),
        ensures
            final(self).runtimes_ok(),
            *final(self) == (Interpretation {
                images: final(self).images,
                fonts: final(self).fonts,
                ..*old(self)
            }),
            final(self).same_setup(old(self)),
            old(self).images matches Some(images) ==> image_resources_set(
                images,
                final(self).images,
                ResourceView {
                    recorded_plan: final(self).images->0@.resources.recorded_plan,
                    ..images@.resources
                },
            ),
            old(self).fonts matches Some(fonts) ==> font_resources_set(
                fonts,
                final(self).fonts,
                ResourceView {
                    recorded_plan: final(self).fonts->0@.resources.recorded_plan,
                    ..fonts@.resources
                },
            ),
            match result {
                Ok(_) => {
                    &&& old(self).images matches Some(images) ==> plan_held(
                        images@.resources,
                        ResourceLimits::Image(images.limits),
                        final(self).images->0@.resources.recorded_plan,
                        plan.least_image_bytes(),
                    )
                    &&& old(self).fonts matches Some(fonts) ==> plan_held(
                        fonts@.resources,
                        ResourceLimits::Font(fonts.limits),
                        final(self).fonts->0@.resources.recorded_plan,
                        plan.least_font_bytes(),
                    )
                },
                Err(stop) => {
                    ||| old(self).images is Some && is_guard_stop(
                        stop,
                        first_source(plan.image_invocations@),
                        guard@,
                    )
                    ||| old(self).fonts is Some && is_guard_stop(
                        stop,
                        plan.first_font_source,
                        guard@,
                    )
                    ||| (old(self).images is Some || old(self).fonts is Some) && is_memory_stop(
                        stop,
                    )
                    ||| !resources_unplanned(*old(self)) && is_internal_stop(stop)
                },
            },
    {
        if let Some(images) = &mut self.images {
            let source = if plan.image_invocations.len() > 0 {
                Some(plan.image_invocations[0].source)
            } else {
                None
            };
            let recorded = images.resources.record_execution_plan_retained(
                plan.image_plan_retained_bytes(),
                source,
            );
            match recorded {
                Ok(_) => {},
                Err(error) => {
                    let stop = guard.prioritize(
                        source,
                        RunStop::Failed(ContentVmFailure::Vm(error)),
                    );
                    return Err(stop);
                },
            }
        }
        if let Some(fonts) = &mut self.fonts {
            let source = plan.first_font_source;
            let recorded = fonts.resources.record_execution_plan_retained(
                plan.font_plan_retained_bytes(),
                source,
            );
            match recorded {
                Ok(_) => {},
                Err(error) => {
                    let stop = guard.prioritize(
                        source,
                        RunStop::Failed(ContentVmFailure::Vm(error)),
                    );
                    return Err(stop);
                },
            }
        }
        Ok(())
    }

    /// Enters a lookup stage, or the stage after it where there is nothing to look up.
    fn enter_lookup<S: ByteSource, C: ContentCancellation>(
        &mut self,
        stage: RunStage,
        guard: &RuntimeGuard<'_, S, C>,
    ) -> (result: Result<(), RunStop>)
        requires
            old(self).runtimes_ok(),
            old(self).state == RunState::Pending,
            old(self).plan is Some,
            old(self).material is None,
            old(self).builder is None,
            stage == RunStage::LookupImages || stage == RunStage::LookupFonts,
        ensures
            *final(self) == (Interpretation {
                stage: final(self).stage,
                images: final(self).images,
                fonts: final(self).fonts,
                lookup: final(self).lookup,
                ..*old(self)
            }),
            final(self).same_setup(old(self)),
            match result {
                Ok(_) => {
                    let entered = stage_from(
                        stage,
                        old(self).images is Some,
                        old(self).fonts is Some,
                    );
                    &&& final(self).well_formed()
                    &&& final(self).stage == entered
                    &&& final(self).lookup == 0
                    &&& old(self).images matches Some(images) ==> image_resources_set(
                        images,
                        final(self).images,
                        ResourceView {
                            expected_uses: if entered == RunStage::LookupImages {
                                old(self).plan->0.image_invocations@.len() as int
                            } else {
                                images@.resources.expected_uses
                            },
                            ..images@.resources
                        },
                    ) && (entered == RunStage::LookupImages ==> !begun(images@.resources))
                    &&& old(self).fonts matches Some(fonts) ==> font_resources_set(
                        fonts,
                        final(self).fonts,
                        ResourceView {
                            expected_uses: if entered == RunStage::LookupFonts {
                                old(self).plan->0.font_use_count as int
                            } else {
                                fonts@.resources.expected_uses
                            },
                            ..fonts@.resources
                        },
                    ) && (entered == RunStage::LookupFonts ==> !begun(fonts@.resources))
                },
                Err(stop) => {
                    ||| stage == RunStage::LookupImages && old(self).images is Some
                        && is_guard_stop(
                        stop,
                        first_source(old(self).plan->0.image_invocations@),
                        guard@,
                    )
                    ||| old(self).fonts is Some && is_guard_stop(
                        stop,
                        old(self).plan->0.first_font_source,
                        guard@,
                    )
                    ||| (old(self).images is Some || old(self).fonts is Some) && is_memory_stop(
                        stop,
                    )
                    ||| stage == RunStage::LookupImages && old(self).images is Some && begun(
                        old(self).images->0@.resources,
                    ) && is_internal_stop(stop)
                    ||| old(self).fonts is Some && begun(old(self).fonts->0@.resources)
                        && is_internal_stop(stop)
                },
            },
    {
        let entered = skip_stages(stage, self.images.is_some(), self.fonts.is_some());
        let (image_count, image_source, font_count, font_source) = match &self.plan {
            Some(plan) => (
                plan.image_invocations.len(),
                if plan.image_invocations.len() > 0 {
                    Some(plan.image_invocations[0].source)
                } else {
                    None
                },
                plan.font_use_count,
                plan.first_font_source,
            ),
            None => {
                return Err(internal_stop());
            },
        };
        if entered == RunStage::LookupImages {
            if let Some(images) = &mut self.images {
                match images.resources.begin_plan(image_count, image_source) {
                    Ok(_) => {},
                    Err(error) => {
                        let stop = guard.prioritize(
                            image_source,
                            RunStop::Failed(ContentVmFailure::Vm(error)),
                        );
                        return Err(stop);
                    },
                }
            }
        }
        if entered == RunStage::LookupFonts {
            if let Some(fonts) = &mut self.fonts {
                match fonts.resources.begin_plan(font_count, font_source) {
                    Ok(_) => {},
                    Err(error) => {
                        let stop = guard.prioritize(
                            font_source,
                            RunStop::Failed(ContentVmFailure::Vm(error)),
                        );
                        return Err(stop);
                    },
                }
            }
        }
        self.stage = entered;
        self.lookup = 0;
        Ok(())
    }

    /// Returns the name of the external object to look up next.
    pub fn image_name(&self) -> (name: Option<Vec<u8>>)
        ensures
            match name {
                Some(name) => image_at(self.plan, self.lookup as int) is Some && name@ == image_at(
                    self.plan,
                    self.lookup as int,
                )->0,
                None => image_at(self.plan, self.lookup as int) is None,
            },
    {
        match &self.plan {
            Some(plan) => {
                if self.lookup < plan.image_invocations.len() {
                    let place: usize = plan.image_invocations[self.lookup].name;
                    if place < plan.names.len() {
                        assert(name_views(plan.names@)[place as int] == plan.names@[place as int]@);
                        return Some(copied(plan.names[place].as_slice()));
                    }
                }
                None
            },
            None => None,
        }
    }

    /// Registers the external object that a lookup found.
    pub fn image_found<S: ByteSource, C: ContentCancellation>(
        &mut self,
        outcome: ImageLookup,
        guard: &RuntimeGuard<'_, S, C>,
    ) -> (result: Result<(), RunStop>)
        requires
            old(self).well_formed(),
            old(self).stage == RunStage::LookupImages,
            old(self).lookup < old(self).plan->0.image_invocations@.len(),
        ensures
            final(self).well_formed(),
            match result {
                Ok(_) => guard@.clear() && image_registered(*old(self), outcome) == Ok::<ResourceView, RunStop>(
                    final(self).images->0@.resources,
                ) && lookup_passed(*old(self), *final(self), old(self).lookup + 1)
                    && final(self).fonts == old(self).fonts && image_resources_set(
                    old(self).images->0,
                    final(self).images,
                    final(self).images->0@.resources,
                ),
                Err(stop) => stopped(*final(self), stop) && work_kept(
                    *old(self),
                    *final(self),
                ) && (is_image_lookup_stop(outcome, stop, old(self).plan->0.image_invocations@[old(self).lookup as int].source, guard@) || (
                guard@.clear() && match image_registered(*old(self), outcome) {
                    Err(fault) => stop == fault,
                    Ok(_) => is_memory_stop(stop),
                })),
            },
    {
        let result = self.register_image(outcome, guard);
        self.close(result)
    }

    fn register_image<S: ByteSource, C: ContentCancellation>(
        &mut self,
        outcome: ImageLookup,
        guard: &RuntimeGuard<'_, S, C>,
    ) -> (result: Result<(), RunStop>)
        requires
            old(self).well_formed(),
            old(self).stage == RunStage::LookupImages,
            old(self).lookup < old(self).plan->0.image_invocations@.len(),
        ensures
            match result {
                Ok(_) => guard@.clear() && image_registered(*old(self), outcome) == Ok::<ResourceView, RunStop>(
                    final(self).images->0@.resources,
                ) && lookup_passed(*old(self), *final(self), old(self).lookup + 1)
                    && final(self).fonts == old(self).fonts && image_resources_set(
                    old(self).images->0,
                    final(self).images,
                    final(self).images->0@.resources,
                ) && final(self).well_formed(),
                Err(stop) => *final(self) == (Interpretation {
                    images: final(self).images,
                    ..*old(self)
                }) && final(self).same_setup(old(self)) && (is_image_lookup_stop(outcome, stop, old(self).plan->0.image_invocations@[old(self).lookup as int].source, guard@) || (
                guard@.clear() && match image_registered(*old(self), outcome) {
                    Err(fault) => stop == fault,
                    Ok(_) => is_memory_stop(stop),
                })),
            },
    {
        let (invocation, next): (PlannedImageInvocation, usize) = match &self.plan {
            Some(plan) => {
                assert(self.lookup < plan.image_invocations.len());
                (plan.image_invocations[self.lookup], self.lookup + 1)
            },
            None => {
                return Err(internal_stop());
            },
        };
        let source = invocation.source;
        match guard.probe(Some(source)) {
            Ok(_) => {},
            Err(stop) => {
                return Err(stop);
            },
        }
        let images = match &mut self.images {
            Some(images) => images,
            None => {
                return Err(internal_stop());
            },
        };
        match images.resources.admit_lookup(source) {
            Ok(_) => {},
            Err(error) => {
                let stop = guard.prioritize(
                    Some(source),
                    RunStop::Failed(ContentVmFailure::Vm(error)),
                );
                return Err(stop);
            },
        }
        let key = match outcome {
            ImageLookup::Ready(key) => key,
            ImageLookup::Unsupported(reason) => {
                let stop = guard.prioritize(
                    Some(source),
                    RunStop::Unsupported(
                        ContentUnsupported::new(
                            ContentUnsupportedKind::ImageResource(reason),
                            source,
                        ),
                    ),
                );
                return Err(stop);
            },
            ImageLookup::Failed(error) => {
                let stop = guard.prioritize(
                    Some(source),
                    RunStop::Failed(ContentVmFailure::Document(error)),
                );
                return Err(stop);
            },
        };
        match guard.probe(Some(source)) {
            Ok(_) => {},
            Err(stop) => {
                return Err(stop);
            },
        }
        match images.resources.register_proof(
            key,
            invocation.transform,
            source,
            guard.source,
            guard.cancellation,
        ) {
            Ok(_) => {},
            Err(error) => {
                let stop = RunStop::Failed(ContentVmFailure::Vm(error));
                return Err(stop);
            },
        }
        self.lookup = next;
        Ok(())
    }

    /// Ends the lookups of external objects.
    pub fn images_planned<S: ByteSource, C: ContentCancellation>(
        &mut self,
        guard: &RuntimeGuard<'_, S, C>,
    ) -> (result: Result<(), RunStop>)
        requires
            old(self).well_formed(),
            old(self).stage == RunStage::LookupImages,
        ensures
            final(self).well_formed(),
            match result {
                Ok(_) => images_plan_reached(*old(self), *final(self)),
                Err(stop) => stopped(*final(self), stop) && work_kept(
                    *old(self),
                    *final(self),
                ) && images_plan_refused(
                    *old(self),
                    stop,
                    guard@,
                ),
            },
    {
        let result = self.end_image_lookups(guard);
        self.close(result)
    }

    fn end_image_lookups<S: ByteSource, C: ContentCancellation>(
        &mut self,
        guard: &RuntimeGuard<'_, S, C>,
    ) -> (result: Result<(), RunStop>)
        requires
            old(self).well_formed(),
            old(self).stage == RunStage::LookupImages,
        ensures
            match result {
                Ok(_) => final(self).well_formed() && images_plan_reached(
                    *old(self),
                    *final(self),
                ),
                Err(stop) => *final(self) == (Interpretation {
                    stage: final(self).stage,
                    images: final(self).images,
                    fonts: final(self).fonts,
                    lookup: final(self).lookup,
                    ..*old(self)
                }) && final(self).same_setup(old(self)) && images_plan_refused(
                    *old(self),
                    stop,
                    guard@,
                ),
            },
    {
        let source = match &self.plan {
            Some(plan) => if plan.image_invocations.len() > 0 {
                Some(plan.image_invocations[0].source)
            } else {
                None
            },
            None => None,
        };
        if let Some(images) = &mut self.images {
            match images.resources.finish_plan() {
                Ok(_) => {},
                Err(error) => {
                    let stop = guard.prioritize(
                        source,
                        RunStop::Failed(ContentVmFailure::Vm(error)),
                    );
                    return Err(stop);
                },
            }
        }
        self.enter_lookup(RunStage::LookupFonts, guard)
    }

    /// Returns the name of the font to look up next, with the place of its action.
    pub fn font_name(&self) -> (name: Option<(usize, Vec<u8>)>)
        requires
            self.well_formed(),
            self.stage == RunStage::LookupFonts,
        ensures
            ({
                let plan = self.plan->0;
                let at = font_place(plan.actions@, self.lookup as int);
                match name {
                    Some((place, name)) => {
                        &&& place == at && at < plan.actions@.len()
                        &&& font_name_of(plan.actions@[at]) < plan.names@.len()
                        &&& name@ == plan.names@[font_name_of(plan.actions@[at])]@
                    },
                    None => at >= plan.actions@.len() || font_name_of(plan.actions@[at])
                        >= plan.names@.len(),
                }
            }),
    {
        match &self.plan {
            None => None,
            Some(plan) => {
                let mut i: usize = self.lookup;
                while i < plan.actions.len()
                    invariant
                        self.plan is Some,
                        *plan == self.plan->0,
                        font_place(plan.actions@, self.lookup as int) == font_place(
                            plan.actions@,
                            i as int,
                        ),
                        self.lookup <= i,
                    decreases plan.actions@.len() - i,
                {
                    let action = plan.actions[i];
                    if let ExecutionAction::Text(TextAction::SetFont { name, .. }) = action {
                        assert(plan.actions@[i as int] == action);
                        if name < plan.names.len() {
                            return Some((i, copied(plan.names[name].as_slice())));
                        }
                        return None;
                    }
                    i = i + 1;
                }
                None
            },
        }
    }

    /// Registers the font that a lookup found for the action at a place.
    pub fn font_found<S: ByteSource, C: ContentCancellation>(
        &mut self,
        place: usize,
        outcome: FontLookup,
        guard: &RuntimeGuard<'_, S, C>,
    ) -> (result: Result<(), RunStop>)
        requires
            old(self).well_formed(),
            old(self).stage == RunStage::LookupFonts,
            place == font_place(old(self).plan->0.actions@, old(self).lookup as int),
            place < old(self).plan->0.actions@.len(),
        ensures
            final(self).well_formed(),
            match result {
                Ok(_) => guard@.clear() && font_registered(*old(self), place as int, outcome) == Ok::<
                    ResourceView,
                    RunStop,
                >(final(self).fonts->0@.resources) && lookup_passed(
                    *old(self),
                    *final(self),
                    place + 1,
                ) && final(self).images == old(self).images && font_resources_set(
                    old(self).fonts->0,
                    final(self).fonts,
                    final(self).fonts->0@.resources,
                ),
                Err(stop) => stopped(*final(self), stop) && work_kept(
                    *old(self),
                    *final(self),
                ) && (is_font_lookup_stop(outcome, stop, action_source(old(self).plan->0.actions@[place as int]), guard@) || (
                guard@.clear() && match font_registered(*old(self), place as int, outcome) {
                    Err(fault) => stop == fault,
                    Ok(_) => is_memory_stop(stop),
                })),
            },
    {
        let result = self.register_font(place, outcome, guard);
        self.close(result)
    }

    fn register_font<S: ByteSource, C: ContentCancellation>(
        &mut self,
        place: usize,
        outcome: FontLookup,
        guard: &RuntimeGuard<'_, S, C>,
    ) -> (result: Result<(), RunStop>)
        requires
            old(self).well_formed(),
            old(self).stage == RunStage::LookupFonts,
            place < old(self).plan->0.actions@.len(),
        ensures
            match result {
                Ok(_) => guard@.clear() && font_registered(*old(self), place as int, outcome) == Ok::<
                    ResourceView,
                    RunStop,
                >(final(self).fonts->0@.resources) && lookup_passed(
                    *old(self),
                    *final(self),
                    place + 1,
                ) && final(self).images == old(self).images && font_resources_set(
                    old(self).fonts->0,
                    final(self).fonts,
                    final(self).fonts->0@.resources,
                ) && final(self).well_formed(),
                Err(stop) => *final(self) == (Interpretation {
                    fonts: final(self).fonts,
                    ..*old(self)
                }) && final(self).same_setup(old(self)) && (is_font_lookup_stop(outcome, stop, action_source(old(self).plan->0.actions@[place as int]), guard@) || (
                guard@.clear() && match font_registered(*old(self), place as int, outcome) {
                    Err(fault) => stop == fault,
                    Ok(_) => is_memory_stop(stop),
                })),
            },
    {
        let source = match &self.plan {
            Some(plan) => action_operator_source(&plan.actions[place]),
            None => {
                return Err(internal_stop());
            },
        };
        match guard.probe(Some(source)) {
            Ok(_) => {},
            Err(stop) => {
                return Err(stop);
            },
        }
        let fonts = match &mut self.fonts {
            Some(fonts) => fonts,
            None => {
                return Err(internal_stop());
            },
        };
        match fonts.resources.admit_lookup(source) {
            Ok(_) => {},
            Err(error) => {
                let stop = guard.prioritize(
                    Some(source),
                    RunStop::Failed(ContentVmFailure::Vm(error)),
                );
                return Err(stop);
            },
        }
        let key = match outcome {
            FontLookup::Ready(key) => key,
            FontLookup::Unsupported(code) => {
                let stop = guard.prioritize(
                    Some(source),
                    RunStop::Unsupported(
                        ContentUnsupported::new(
                            ContentUnsupportedKind::FontResource(code),
                            source,
                        ),
                    ),
                );
                return Err(stop);
            },
            FontLookup::Failed(error) => {
                let stop = guard.prioritize(
                    Some(source),
                    RunStop::Failed(ContentVmFailure::Document(error)),
                );
                return Err(stop);
            },
        };
        match guard.probe(Some(source)) {
            Ok(_) => {},
            Err(stop) => {
                return Err(stop);
            },
        }
        match fonts.resources.register_proof(
            key,
            Matrix::identity(),
            source,
            guard.source,
            guard.cancellation,
        ) {
            Ok(_) => {},
            Err(error) => {
                let stop = RunStop::Failed(ContentVmFailure::Vm(error));
                return Err(stop);
            },
        }
        if let Some(plan) = &self.plan {
            assert(place < plan.actions.len());
            self.lookup = place + 1;
        }
        Ok(())
    }

    /// Ends the lookups of fonts.
    pub fn fonts_planned<S: ByteSource, C: ContentCancellation>(
        &mut self,
        guard: &RuntimeGuard<'_, S, C>,
    ) -> (result: Result<(), RunStop>)
        requires
            old(self).well_formed(),
            old(self).stage == RunStage::LookupFonts,
        ensures
            final(self).well_formed(),
            match result {
                Ok(_) => fonts_plan_reached(*old(self), *final(self)),
                Err(stop) => stopped(*final(self), stop) && work_kept(
                    *old(self),
                    *final(self),
                ) && fonts_plan_refused(
                    *old(self),
                    stop,
                    guard@,
                ),
            },
    {
        let source = match &self.plan {
            Some(plan) => plan.first_font_source,
            None => None,
        };
        let finished = match &mut self.fonts {
            Some(fonts) => fonts.resources.finish_plan(),
            None => Ok(()),
        };
        match finished {
            Ok(_) => {},
            Err(error) => {
                let stop = guard.prioritize(source, RunStop::Failed(ContentVmFailure::Vm(error)));
                self.settle(stop);
                return Err(stop);
            },
        }
        self.stage = skip_stages(
            RunStage::AcquireImages,
            self.images.is_some(),
            self.fonts.is_some(),
        );
        Ok(())
    }

    /// Leaves the acquisition of external objects, once it is complete.
    pub fn images_acquired(&mut self) -> (left: bool)
        requires
            old(self).well_formed(),
            old(self).stage == RunStage::AcquireImages,
        ensures
            final(self).well_formed(),
            ({
                let images = old(self).images->0@;
                left == (images.resources.plan_complete && images.activity == ImageActivity::Idle
                    && images.resources.acquisition_cursor == images.resources.entries.len()
                    && images.use_forms.len() == images.resources.uses.len())
            }),
            *final(self) == (Interpretation {
                stage: if left {
                    stage_from(
                        RunStage::AcquireFonts,
                        old(self).images is Some,
                        old(self).fonts is Some,
                    )
                } else {
                    old(self).stage
                },
                ..*old(self)
            }),
    {
        let complete = match &self.images {
            Some(images) => images.acquisitions_complete(),
            None => true,
        };
        if complete {
            self.stage = skip_stages(
                RunStage::AcquireFonts,
                self.images.is_some(),
                self.fonts.is_some(),
            );
        }
        complete
    }

    /// Leaves the acquisition of fonts, once it is complete.
    pub fn fonts_acquired(&mut self) -> (left: bool)
        requires
            old(self).well_formed(),
            old(self).stage == RunStage::AcquireFonts,
        ensures
            final(self).well_formed(),
            ({
                let fonts = old(self).fonts->0@;
                left == (fonts.resources.plan_complete && !fonts.active
                    && fonts.resources.acquisition_cursor == fonts.resources.entries.len())
            }),
            *final(self) == (Interpretation {
                stage: if left {
                    RunStage::Execute
                } else {
                    old(self).stage
                },
                ..*old(self)
            }),
    {
        let complete = match &self.fonts {
            Some(fonts) => fonts.acquisitions_complete(),
            None => true,
        };
        if complete {
            self.stage = RunStage::Execute;
        }
        complete
    }

    /// Starts materialization, once everything is acquired.
    pub fn execute<S: ByteSource, C: ContentCancellation>(
        &mut self,
        guard: &RuntimeGuard<'_, S, C>,
    ) -> (result: Result<(), RunStop>)
        requires
            old(self).well_formed(),
            old(self).stage == RunStage::Execute,
            old(self).material is None,
        ensures
            final(self).well_formed(),
            match result {
                Ok(_) => execution_reached(*old(self), *final(self)),
                Err(stop) => stopped(*final(self), stop) && start_work_kept(
                    *old(self),
                    *final(self),
                ) && execution_refused(
                    *old(self),
                    stop,
                    guard@,
                ),
            },
    {
        let result = self.begin_material(guard);
        self.close(result)
    }

    fn begin_material<S: ByteSource, C: ContentCancellation>(
        &mut self,
        guard: &RuntimeGuard<'_, S, C>,
    ) -> (result: Result<(), RunStop>)
        requires
            old(self).well_formed(),
            old(self).stage == RunStage::Execute,
            old(self).material is None,
        ensures
            match result {
                Ok(_) => final(self).well_formed() && execution_reached(
                    *old(self),
                    *final(self),
                ),
                Err(stop) => final(self).state == RunState::Pending && final(self).material is None
                    && accounting_of(*final(self)).peak_retained >= accounting_of(
                    *old(self),
                ).peak_retained && stop_keeps_work(*old(self), *final(self)) && execution_refused(
                    *old(self),
                    stop,
                    guard@,
                ),
            },
    {
        if let Some(images) = &mut self.images {
            match images.resources.begin_execution() {
                Ok(_) => {},
                Err(error) => {
                    let stop = guard.prioritize(
                        None,
                        RunStop::Failed(ContentVmFailure::Vm(error)),
                    );
                    return Err(stop);
                },
            }
        }
        if let Some(fonts) = &mut self.fonts {
            match fonts.resources.begin_execution() {
                Ok(_) => {},
                Err(error) => {
                    let stop = guard.prioritize(
                        None,
                        RunStop::Failed(ContentVmFailure::Vm(error)),
                    );
                    return Err(stop);
                },
            }
        }
        let plan = match self.plan.take() {
            Some(plan) => plan,
            None => {
                return Err(internal_stop());
            },
        };
        let image_stats = self.image_stats();
        let font_stats = self.font_stats();
        let totals = plan_totals(&plan, 0, 0);
        let mut peak: u64 = 0;
        let material = Materializer::new(
            plan,
            self.images.take(),
            self.fonts.take(),
            self.limits.vm,
            &mut peak,
        );
        match material {
            Ok(material) => {
                self.material = Some(material);
                Ok(())
            },
            Err(error) => {
                self.image_stats = image_stats;
                self.font_stats = font_stats;
                self.totals = totals;
                self.accounting.observe_retained(peak);
                let stop = guard.prioritize(None, RunStop::Failed(ContentVmFailure::Vm(error)));
                Err(stop)
            },
        }
    }

    /// Ends the interpretation, given whether the scene could be finished.
    pub fn finish<S: ByteSource, C: ContentCancellation>(
        &mut self,
        finished: Result<(), SceneError>,
        guard: &RuntimeGuard<'_, S, C>,
    ) -> (result: Result<(), RunStop>)
        requires
            old(self).well_formed(),
            old(self).stage == RunStage::Execute,
            old(self).material is Some,
            old(self).material->0.well_formed(),
            old(self).material->0.stage == MaterialStage::Ready,
            old(self).material->0.cursor == old(self).material->0.plan.actions@.len(),
        ensures
            final(self).well_formed(),
            final(self).stage == RunStage::Done,
            match result {
                Ok(_) => {
                    let material = old(self).material->0;
                    let execution = final(self).execution->0;
                    &&& guard@.clear()
                    &&& finished is Ok
                    &&& uses_executed(material)
                    &&& final(self).state == RunState::Ready
                    &&& final(self).execution is Some
                    &&& execution.property_uses == material.plan.property_uses
                    &&& execution.image_uses == material.plan.image_uses
                    &&& execution.form_uses == material.form_uses
                    &&& execution.font_uses == material.font_uses
                    &&& execution.final_ctm == material.plan.final_ctm
                    &&& stats_kept(*old(self), *final(self))
                    &&& *final(self) == (Interpretation {
                        stage: RunStage::Done,
                        state: RunState::Ready,
                        input: None,
                        images: None,
                        fonts: None,
                        program: None,
                        builder: None,
                        plan: None,
                        material: None,
                        execution: final(self).execution,
                        accounting: Accounting {
                            peak_retained: larger(
                                old(self).accounting.peak_retained,
                                material.peak_retained,
                            ),
                            ..old(self).accounting
                        },
                        retained: execution.retained_use_capacity_bytes,
                        image_stats: final(self).image_stats,
                        font_stats: final(self).font_stats,
                        totals: totals_of(*old(self)),
                        ..*old(self)
                    })
                },
                Err(stop) => {
                    &&& stopped(*final(self), stop)
                    &&& stats_kept(*old(self), *final(self))
                    &&& final(self).totals == totals_of(*old(self))
                    &&& final(self).accounting == (Accounting {
                        peak_retained: larger(
                            old(self).accounting.peak_retained,
                            old(self).material->0.peak_retained,
                        ),
                        ..old(self).accounting
                    })
                    &&& {
                        ||| is_guard_stop(stop, None, guard@)
                        ||| guard@.clear() && finished is Err && stop == scene_stop(
                            finished->Err_0,
                        )
                        ||| guard@.clear() && finished is Ok && !uses_executed(old(self).material->0)
                            && is_internal_stop(stop)
                    }
                },
            },
    {
        self.image_stats = self.image_stats();
        self.font_stats = self.font_stats();
        self.totals = self.totals();
        let material = match self.material.take() {
            Some(material) => material,
            None => {
                let stop = internal_stop();
                self.settle(stop);
                return Err(stop);
            },
        };
        self.images = None;
        self.fonts = None;
        self.plan = None;
        self.builder = None;
        self.accounting.observe_retained(material.peak_retained);
        match material.finish(finished, guard) {
            Ok(execution) => {
                self.retained = execution.retained_use_capacity_bytes;
                self.execution = Some(execution);
                self.state = RunState::Ready;
                self.stage = RunStage::Done;
                self.input = None;
                self.program = None;
                Ok(())
            },
            Err(stop) => {
                self.settle(stop);
                Err(stop)
            },
        }
    }
}

/// What a planner counted.
pub open spec fn totals_of_planner(view: PlannerView) -> RunTotals {
    RunTotals {
        image_operators: view.image_operators,
        font_operators: view.font_operators,
        text_bytes: view.text_bytes,
        text_adjustments: view.text_adjustments,
        glyphs: 0,
        outline_segments: 0,
    }
}

fn planner_totals(planner: &Planner) -> (totals: RunTotals)
    ensures
        totals == totals_of_planner(planner@),
{
    RunTotals {
        image_operators: planner.image_operators,
        font_operators: planner.font_operators,
        text_bytes: planner.text_bytes,
        text_adjustments: planner.text_adjustments,
        glyphs: 0,
        outline_segments: 0,
    }
}

/// What a plan counted, with what its text execution did.
pub open spec fn totals_of_plan(plan: ExecutionPlan, glyphs: u64, outline_segments: u64) -> RunTotals {
    RunTotals {
        image_operators: plan.image_operators,
        font_operators: plan.font_operators,
        text_bytes: plan.text_bytes,
        text_adjustments: plan.text_adjustments,
        glyphs,
        outline_segments,
    }
}

fn plan_totals(plan: &ExecutionPlan, glyphs: u64, outline_segments: u64) -> (totals: RunTotals)
    ensures
        totals == totals_of_plan(*plan, glyphs, outline_segments),
{
    RunTotals {
        image_operators: plan.image_operators,
        font_operators: plan.font_operators,
        text_bytes: plan.text_bytes,
        text_adjustments: plan.text_adjustments,
        glyphs,
        outline_segments,
    }
}

/// What is counted so far.
pub open spec fn totals_of(run: Interpretation) -> RunTotals {
    if run.material is Some {
        let text = run.material->0.text;
        totals_of_plan(run.material->0.plan, text.shown_glyphs, text.shown_segments)
    } else if run.plan is Some {
        totals_of_plan(run.plan->0, 0, 0)
    } else if run.builder is Some {
        totals_of_planner(run.builder->0.planner@)
    } else {
        run.totals
    }
}

/// The runtime of external objects, where one is live.
pub open spec fn live_images(run: Interpretation) -> Option<ImageRuntime> {
    if run.material is Some && run.material->0.images is Some {
        run.material->0.images
    } else {
        run.images
    }
}

/// The runtime of fonts, where one is live.
pub open spec fn live_fonts(run: Interpretation) -> Option<FontRuntime> {
    if run.material is Some && run.material->0.fonts is Some {
        run.material->0.fonts
    } else {
        run.fonts
    }
}

/// Whether the statistics at the end are those of the runtimes that were live.
pub open spec fn stats_kept(before: Interpretation, after: Interpretation) -> bool {
    &&& match live_images(before) {
        Some(images) => after.image_stats is Some && image_stats_fit(
            after.image_stats->0,
            images,
        ),
        None => after.image_stats == before.image_stats,
    }
    &&& match live_fonts(before) {
        Some(fonts) => after.font_stats is Some && font_stats_fit(after.font_stats->0, fonts),
        None => after.font_stats == before.font_stats,
    }
}

/// The input of a scan of some content.
pub open spec fn content_of(input: ContentInput, limits: ContentLimits) -> Input {
    Input { streams: owned_views(input.streams@), limits: limits@ }
}

/// What a scan leaves: the program of its content, and planning at its start.
pub open spec fn scan_reached(before: Interpretation, after: Interpretation) -> bool {
    let input = before.input->0;
    let operators = after.program->0.spec_operators();
    let framed = input.form is Some && operators.len() > 0;
    &&& after.same_setup(&before)
    &&& owned_in_order(input.streams@)
    &&& scanned(content_of(input, before.limits.scan)) == Ok::<_, ContentError>(
        (operator_views(operators), work_of(after.scan_stats)),
    )
    &&& after.program is Some
    &&& after.stage == (if framed {
        RunStage::Open
    } else {
        RunStage::Plan
    })
    &&& after.builder is Some
    &&& after.builder->0.position == 0
    &&& after.builder->0.planner@ == (PlannerView {
        charges: counters(before.accounting),
        ..initial_plan(input.initial_ctm)
    })
    &&& after.builder->0.planner.config() == run_config(
        before.limits,
        before.images,
        before.fonts,
        before.ext_gstates,
        framed,
    )
    &&& after.builder->0.planner.program_bytes == after.scan_stats.retained_bytes
    &&& after.builder->0.planner.accounting == after.accounting
    &&& after.scan_stats == after.program->0.spec_stats()
    &&& after.scan_stats.retained_bytes <= after.scan_peak_retained
        <= before.limits.vm@.max_retained_bytes
    &&& before.images matches Some(images) ==> {
        &&& images@.scanned_bytes is None
        &&& after.images is Some
        &&& after.images->0.limits == images.limits
        &&& after.images->0@ == (ImageRuntimeView {
            scanned_bytes: Some(
                owned_bytes(input.streams@, input.streams@.len() as int) as u64,
            ),
            ..images@
        })
    }
    &&& after == (Interpretation {
        stage: after.stage,
        ext_gstates: None,
        images: after.images,
        program: after.program,
        builder: after.builder,
        envelope: None,
        scan_stats: after.scan_stats,
        scan_peak_retained: after.scan_peak_retained,
        accounting: Accounting {
            peak_retained: larger(before.accounting.peak_retained, after.scan_peak_retained),
            ..before.accounting
        },
        ..before
    })
}

/// Whether a stop reports a broken invariant of the interpretation.
pub open spec fn is_internal_stop(stop: RunStop) -> bool {
    exists|source: Option<ContentOperatorSource>|
        stop == vm_stop(#[trigger] vm_failure_of(ContentVmErrorCode::InternalState, source))
}

/// Whether a scan cannot be recorded: one is recorded already, or its bytes do not fit.
pub open spec fn cannot_record_scan(run: Interpretation) -> bool {
    let streams = run.input->0.streams@;
    run.images matches Some(images) && (images@.scanned_bytes is Some || owned_bytes(
        streams,
        streams.len() as int,
    ) >= u64::MAX)
}

/// Whether planning of resources began.
pub open spec fn begun(view: ResourceView) -> bool {
    view.plan_complete || view.uses.len() > 0 || view.entries.len() > 0
}

/// Whether no resource is planned yet.
pub open spec fn resources_unplanned(run: Interpretation) -> bool {
    &&& run.images matches Some(images) ==> unplanned(images@.resources)
    &&& run.fonts matches Some(fonts) ==> unplanned(fonts@.resources)
}

/// Whether the plan of resources can end: every expected use is registered.
pub open spec fn plan_can_end(view: ResourceView) -> bool {
    !view.plan_complete && view.uses.len() == view.expected_uses
}

/// Whether the one execution pass can begin: everything is acquired, and none began yet.
pub open spec fn execution_can_begin(view: ResourceView) -> bool {
    &&& view.plan_complete && view.acquisition_cursor == view.entries.len()
    &&& view.execution_cursor == 0 && view.stats.execution_passes == 0
}

/// Why a scan stops.
pub open spec fn scan_refused(before: Interpretation, stop: RunStop, guard: GuardView) -> bool {
    let input = before.input->0;
    let expected = scanned(content_of(input, before.limits.scan));
    ||| is_guard_stop(stop, None, guard)
    ||| is_memory_stop(stop)
    ||| cannot_record_scan(before) && is_internal_stop(stop)
    ||| stop matches RunStop::Failed(ContentVmFailure::Content(error)) && (if !owned_in_order(
        input.streams@,
    ) {
        error == content_failure(ContentErrorCode::InvalidStreamOrder, None)
    } else {
        is_outside_failure(error, before.limits.scan@, guard.cancelled) || (expected is Err
            && expected->Err_0 == error)
    })
}

/// Whether a failed scan keeps the work that was charged: where the content itself failed, the
/// statistics show the charges that the failure reports, and the peak what was retained.
pub open spec fn scan_work_kept(before: Interpretation, after: Interpretation, stop: RunStop) -> bool {
    let stats = after.scan_stats;
    let limits = before.limits.scan@;
    &&& stats == before.scan_stats || {
        &&& stats.tokens <= limits.max_tokens
        &&& stats.operators <= limits.max_operators
        &&& stats.fuel <= limits.max_fuel
        &&& stats.retained_bytes <= limits.max_retained_bytes
    }
    &&& after.accounting == (Accounting {
        peak_retained: after.accounting.peak_retained,
        ..before.accounting
    })
    &&& stop matches RunStop::Failed(ContentVmFailure::Content(error)) ==> charged(error, stats)
        && stats.retained_bytes <= after.scan_peak_retained && after.accounting.peak_retained
        == larger(before.accounting.peak_retained, after.scan_peak_retained)
}

/// What opening the form makes of its plan.
pub open spec fn form_outcome(
    before: Interpretation,
    mapped: Seq<Result<ScenePoint, SceneError>>,
) -> Result<PlannerView, RunStop> {
    form_opened(
        before.builder->0.planner@,
        before.builder->0.planner.config(),
        mapped,
        before.input->0.form->0.simple_transparency_group,
        before.program->0.spec_operators()[0].source,
    )
}

/// What an opened form leaves: planning after its opening actions.
pub open spec fn open_reached(
    before: Interpretation,
    mapped: Seq<Result<ScenePoint, SceneError>>,
    after: Interpretation,
) -> bool {
    let planner = before.builder->0.planner;
    &&& after == (Interpretation {
        stage: RunStage::Plan,
        builder: after.builder,
        envelope: after.envelope,
        ..before
    })
    &&& after.builder is Some
    &&& after.builder->0.position == 0
    &&& after.builder->0.planner.same_setup(&planner)
    &&& planner.accounting.fuel <= after.builder->0.planner.accounting.fuel
        <= planner.accounting.fuel + 3 * (planner@.actions.len() + 2)
    &&& form_outcome(before, mapped) == Ok::<PlannerView, RunStop>(after.builder->0.planner@)
    &&& after.envelope == Some(
        FormEnvelope {
            source: before.program->0.spec_operators()[0].source,
            bounds: corner_bounds(all_mapped(mapped, 4)->Ok_0),
            simple_transparency_group: before.input->0.form->0.simple_transparency_group,
        },
    )
}

/// Why a form cannot be opened.
pub open spec fn open_refused(
    before: Interpretation,
    mapped: Seq<Result<ScenePoint, SceneError>>,
    stop: RunStop,
    guard: GuardView,
) -> bool {
    let planner = before.builder->0.planner;
    let first = before.program->0.spec_operators()[0].source;
    let unmapped = form_outcome(before, mapped) matches Err(
        RunStop::Failed(ContentVmFailure::Scene(_)),
    );
    ||| !unmapped && is_guard_stop(stop, None, guard)
    ||| (unmapped || form_outcome(before, mapped) is Ok) && is_guard_stop(stop, Some(first), guard)
    ||| match form_outcome(before, mapped) {
        Err(fault) => stop == fault,
        Ok(_) => form_starved(
            stop,
            planner.config(),
            planner.accounting.fuel,
            planner@.actions.len() as int,
        ),
    }
}

/// The actions that close an open form.
pub open spec fn closing_of(envelope: Option<FormEnvelope>) -> Seq<ExecutionAction> {
    match envelope {
        Some(form) => epilogue_actions(form.bounds, form.simple_transparency_group, form.source),
        None => Seq::empty(),
    }
}

/// How far an answer takes planning.
pub open spec fn plan_outcome(before: Interpretation, answer: AnswerView) -> Result<
    (PlannerView, int),
    RunStop,
> {
    planned_from(
        before.builder->0.planner@,
        before.builder->0.planner.config(),
        operator_views(before.program->0.spec_operators()),
        before.builder->0.position as int,
        answer,
    )
}

/// What planning leaves: the plan so far, or the finished one, which is balanced.
pub open spec fn plan_reached(
    before: Interpretation,
    answer: AnswerView,
    after: Interpretation,
) -> bool {
    let (view, at) = plan_outcome(before, answer)->Ok_0;
    let config = before.builder->0.planner.config();
    let fuel = before.builder->0.planner.accounting.fuel;
    let cost = cost_from(
        before.builder->0.planner@,
        config,
        operator_views(before.program->0.spec_operators()),
        before.builder->0.position as int,
        answer,
    );
    &&& plan_outcome(before, answer) is Ok
    &&& if at < before.program->0.spec_operators().len() {
        &&& after == (Interpretation { builder: after.builder, ..before })
        &&& after.builder is Some
        &&& after.builder->0.planner@ == view
        &&& after.builder->0.planner.same_setup(&before.builder->0.planner)
        &&& after.builder->0.position == at
        &&& fuel + cost.0 <= after.builder->0.planner.accounting.fuel <= fuel + cost.1
    } else {
        &&& imbalance(view, config) is None
        &&& after == (Interpretation {
            stage: stage_from(
                RunStage::LookupImages,
                before.images is Some,
                before.fonts is Some,
            ),
            images: after.images,
            fonts: after.fonts,
            program: None,
            builder: None,
            plan: after.plan,
            lookup: 0,
            accounting: after.accounting,
            totals: totals_of_planner(view),
            ..before
        })
        &&& after.same_setup(&before)
        &&& lookups_set_up(before, after)
        &&& after.plan is Some
        &&& after.plan->0.completes(view, closing_of(before.envelope))
        &&& after.accounting == after.plan->0.accounting
        &&& fuel + cost.0 <= after.accounting.fuel <= fuel + cost.1 + (if before.envelope is Some {
            2 * view.actions.len() + 1
        } else {
            0
        })
    }
}

/// Whether a finished plan is held against the budgets of external objects and of fonts, and the
/// first lookups are set up: those of external objects, or those of fonts where there are no
/// others. The runtimes change in nothing else.
pub open spec fn lookups_set_up(before: Interpretation, after: Interpretation) -> bool {
    let plan = after.plan->0;
    &&& before.images matches Some(images) ==> {
        let recorded = after.images->0@.resources.recorded_plan;
        &&& image_resources_set(
            images,
            after.images,
            ResourceView {
                recorded_plan: recorded,
                expected_uses: plan.image_invocations@.len() as int,
                ..images@.resources
            },
        )
        &&& unplanned(images@.resources)
        &&& plan_held(
            images@.resources,
            ResourceLimits::Image(images.limits),
            recorded,
            plan.least_image_bytes(),
        )
    }
    &&& before.fonts matches Some(fonts) ==> {
        let recorded = after.fonts->0@.resources.recorded_plan;
        &&& font_resources_set(
            fonts,
            after.fonts,
            ResourceView {
                recorded_plan: recorded,
                expected_uses: if before.images is None {
                    plan.font_use_count as int
                } else {
                    fonts@.resources.expected_uses
                },
                ..fonts@.resources
            },
        )
        &&& before.images is None ==> unplanned(fonts@.resources)
        &&& plan_held(
            fonts@.resources,
            ResourceLimits::Font(fonts.limits),
            recorded,
            plan.least_font_bytes(),
        )
    }
}

/// Whether planning that stopped keeps the work that was charged before: nothing of it is lost.
pub open spec fn plan_work_kept(before: Interpretation, after: Interpretation) -> bool {
    &&& after.scan_stats == before.scan_stats
    &&& after.scan_peak_retained == before.scan_peak_retained
    &&& before.builder->0.planner.accounting.fuel <= after.accounting.fuel
}

/// Why planning stops. Once the last operator is planned, what is left open stops it; a balanced
/// plan is held against the budgets, and the lookups of resources are set up.
pub open spec fn plan_refused(
    before: Interpretation,
    answer: AnswerView,
    stop: RunStop,
    guard: GuardView,
) -> bool {
    let planner = before.builder->0.planner;
    let outcome = plan_outcome(before, answer);
    let operators = before.program->0.spec_operators();
    ||| exists|k: int|
        before.builder->0.position <= k < operators.len() && is_guard_stop(
            stop,
            Some((#[trigger] operators[k]).source),
            guard,
        )
    ||| outcome == Err::<(PlannerView, int), RunStop>(stop)
    ||| starved_from(
        stop,
        planner@,
        planner.config(),
        operator_views(before.program->0.spec_operators()),
        before.builder->0.position as int,
        answer,
        planner.accounting.fuel as int,
        planner.accounting.fuel as int,
    )
    ||| outcome is Ok && outcome->Ok_0.1 >= before.program->0.spec_operators().len()
        && end_refused(before, outcome->Ok_0.0, stop, guard)
}

/// Why planning stops after its last operator.
pub open spec fn end_refused(
    before: Interpretation,
    view: PlannerView,
    stop: RunStop,
    guard: GuardView,
) -> bool {
    is_guard_stop(stop, None, guard) || match imbalance(view, before.builder->0.planner.config()) {
        Some(fault) => stop == vm_stop(fault),
        None => {
            ||| before.envelope matches Some(form) && is_guard_stop(stop, Some(form.source), guard)
            ||| before.images is Some && is_guard_stop(
                stop,
                first_source(view.planned_images),
                guard,
            )
            ||| before.fonts is Some && is_guard_stop(stop, view.first_font_source, guard)
            ||| exists|planner: Planner|
                planner@ == view && #[trigger] planner.cannot_end(stop, before.envelope is Some)
            ||| (before.images is Some || before.fonts is Some) && is_memory_stop(stop)
            ||| !resources_unplanned(before) && is_internal_stop(stop)
        },
    }
}

/// What the end of the lookups of external objects leaves: their plan is complete, and the lookups
/// of fonts are set up, where there are fonts.
pub open spec fn images_plan_reached(before: Interpretation, after: Interpretation) -> bool {
    let resources = before.images->0@.resources;
    &&& plan_can_end(resources)
    &&& image_resources_set(
        before.images->0,
        after.images,
        ResourceView { plan_complete: true, ..resources },
    )
    &&& before.fonts matches Some(fonts) ==> !begun(fonts@.resources) && font_resources_set(
        fonts,
        after.fonts,
        ResourceView {
            expected_uses: before.plan->0.font_use_count as int,
            ..fonts@.resources
        },
    )
    &&& after == (Interpretation {
        stage: stage_from(RunStage::LookupFonts, true, before.fonts is Some),
        images: after.images,
        fonts: after.fonts,
        lookup: 0,
        ..before
    })
    &&& after.same_setup(&before)
}

/// Why the lookups of external objects cannot end.
pub open spec fn images_plan_refused(
    before: Interpretation,
    stop: RunStop,
    guard: GuardView,
) -> bool {
    ||| is_guard_stop(stop, first_source(before.plan->0.image_invocations@), guard)
    ||| before.fonts is Some && is_guard_stop(stop, before.plan->0.first_font_source, guard)
    ||| plan_can_end(before.images->0@.resources) && is_memory_stop(stop)
    ||| !plan_can_end(before.images->0@.resources) && is_internal_stop(stop)
    ||| before.fonts is Some && !unplanned(before.fonts->0@.resources) && is_internal_stop(stop)
}

/// What the end of the lookups of fonts leaves: their plan is complete.
pub open spec fn fonts_plan_reached(before: Interpretation, after: Interpretation) -> bool {
    let resources = before.fonts->0@.resources;
    &&& plan_can_end(resources)
    &&& font_resources_set(
        before.fonts->0,
        after.fonts,
        ResourceView { plan_complete: true, ..resources },
    )
    &&& after == (Interpretation {
        stage: stage_from(RunStage::AcquireImages, before.images is Some, true),
        fonts: after.fonts,
        ..before
    })
}

/// Why the lookups of fonts cannot end.
pub open spec fn fonts_plan_refused(
    before: Interpretation,
    stop: RunStop,
    guard: GuardView,
) -> bool {
    ||| is_guard_stop(stop, before.plan->0.first_font_source, guard)
    ||| plan_can_end(before.fonts->0@.resources) && is_memory_stop(stop)
    ||| !plan_can_end(before.fonts->0@.resources) && is_internal_stop(stop)
}

/// What the start of materialization leaves: the plan at its first action, with everything that was
/// acquired for it.
pub open spec fn execution_reached(before: Interpretation, after: Interpretation) -> bool {
    let material = after.material->0;
    &&& after == (Interpretation {
        images: None,
        fonts: None,
        plan: None,
        material: after.material,
        ..before
    })
    &&& after.material is Some
    &&& material.plan == before.plan->0
    &&& material.cursor == 0
    &&& material.stage == MaterialStage::Ready
    &&& material.text@ == initial_execution()
    &&& material.text.saved_slots == before.plan->0.accounting.max_graphics_depth
    &&& material.form_uses@.len() == 0
    &&& material.font_uses@.len() == 0
    &&& before.images matches Some(images) ==> execution_can_begin(images@.resources)
        && image_resources_set(
        images,
        material.images,
        execution_begun(images@.resources),
    )
    &&& before.images is None ==> material.images is None
    &&& before.fonts matches Some(fonts) ==> execution_can_begin(fonts@.resources)
        && font_resources_set(fonts, material.fonts, execution_begun(fonts@.resources))
    &&& before.fonts is None ==> material.fonts is None
}

/// Why materialization cannot start.
pub open spec fn execution_refused(
    before: Interpretation,
    stop: RunStop,
    guard: GuardView,
) -> bool {
    let ready = (before.images matches Some(images) ==> execution_can_begin(images@.resources)) && (
    before.fonts matches Some(fonts) ==> execution_can_begin(fonts@.resources));
    ||| is_guard_stop(stop, None, guard)
    ||| ready && is_memory_stop(stop)
    ||| !ready && is_internal_stop(stop)
}

/// The operator of the first external object among planned ones.
pub open spec fn first_source(invocations: Seq<PlannedImageInvocation>) -> Option<
    ContentOperatorSource,
> {
    if invocations.len() > 0 {
        Some(invocations[0].source)
    } else {
        None
    }
}

/// The name of the external object at a place among planned ones.
pub open spec fn image_at(plan: Option<ExecutionPlan>, i: int) -> Option<Seq<u8>> {
    match plan {
        None => None,
        Some(plan) => if i < plan.image_invocations@.len() && plan.image_invocations@[i].name
            < plan.names@.len() {
            Some(plan.names@[plan.image_invocations@[i].name as int]@)
        } else {
            None
        },
    }
}

/// A plan of resources with one more lookup counted.
pub open spec fn looked_up(view: ResourceView, source: ContentOperatorSource) -> Result<
    ResourceView,
    RunStop,
> {
    if view.stats.lookups == u64::MAX {
        Err(vm_stop(vm_failure_of(ContentVmErrorCode::InternalState, Some(source))))
    } else {
        Ok(
            ResourceView {
                stats: ResourceStats { lookups: (view.stats.lookups + 1) as u64, ..view.stats },
                ..view
            },
        )
    }
}

/// What the lookup of an external object makes of the plan of resources.
pub open spec fn image_registered(before: Interpretation, outcome: ImageLookup) -> Result<
    ResourceView,
    RunStop,
> {
    let invocation = before.plan->0.image_invocations@[before.lookup as int];
    match looked_up(before.images->0@.resources, invocation.source) {
        Err(stop) => Err(stop),
        Ok(counted) => match outcome {
            ImageLookup::Unsupported(reason) => Err(
                unsupported(ContentUnsupportedKind::ImageResource(reason), invocation.source),
            ),
            ImageLookup::Failed(error) => Err(RunStop::Failed(ContentVmFailure::Document(error))),
            ImageLookup::Ready(key) => match registered(
                counted,
                ResourceLimits::Image(before.images->0.limits),
                key,
                invocation.transform,
                invocation.source,
            ) {
                Err(error) => Err(vm_stop(error)),
                Ok(view) => Ok(view),
            },
        },
    }
}

/// What the lookup of a font makes of the plan of resources.
pub open spec fn font_registered(before: Interpretation, place: int, outcome: FontLookup) -> Result<
    ResourceView,
    RunStop,
> {
    let source = action_source(before.plan->0.actions@[place]);
    match looked_up(before.fonts->0@.resources, source) {
        Err(stop) => Err(stop),
        Ok(counted) => match outcome {
            FontLookup::Unsupported(code) => Err(
                unsupported(ContentUnsupportedKind::FontResource(code), source),
            ),
            FontLookup::Failed(error) => Err(RunStop::Failed(ContentVmFailure::Document(error))),
            FontLookup::Ready(key) => match registered(
                counted,
                ResourceLimits::Font(before.fonts->0.limits),
                key,
                identity_matrix(),
                source,
            ) {
                Err(error) => Err(vm_stop(error)),
                Ok(view) => Ok(view),
            },
        },
    }
}

/// Whether a stop is one that a guard reports at the lookup of an external object: that of the run,
/// or that of the proof which was found.
pub open spec fn is_image_lookup_stop(
    outcome: ImageLookup,
    stop: RunStop,
    source: ContentOperatorSource,
    guard: GuardView,
) -> bool {
    ||| is_guard_stop(stop, Some(source), guard)
    ||| outcome matches ImageLookup::Ready(key) && is_guard_stop(
        stop,
        Some(source),
        guard.at(key.snapshot),
    )
}

/// Whether a stop is one that a guard reports at the lookup of a font: that of the run, or that of
/// the proof which was found.
pub open spec fn is_font_lookup_stop(
    outcome: FontLookup,
    stop: RunStop,
    source: ContentOperatorSource,
    guard: GuardView,
) -> bool {
    ||| is_guard_stop(stop, Some(source), guard)
    ||| outcome matches FontLookup::Ready(key) && is_guard_stop(
        stop,
        Some(source),
        guard.at(key.snapshot),
    )
}

/// Whether only a lookup was passed, the runtimes aside.
pub open spec fn lookup_passed(before: Interpretation, after: Interpretation, lookup: int) -> bool {
    &&& after == (Interpretation {
        images: after.images,
        fonts: after.fonts,
        lookup: after.lookup,
        ..before
    })
    &&& after.same_setup(&before)
    &&& after.lookup == lookup
}

/// Place of the first font selection from `i` on.
pub open spec fn font_place(actions: Seq<ExecutionAction>, i: int) -> int
    decreases actions.len() - i,
{
    if i >= actions.len() || (actions[i] is Text && actions[i]->Text_0 is SetFont) {
        i
    } else {
        font_place(actions, i + 1)
    }
}

/// The registered name that a font selection uses.
pub open spec fn font_name_of(action: ExecutionAction) -> int {
    action->Text_0->SetFont_name as int
}

/// A plan of resources whose one execution pass has begun.
pub open spec fn execution_begun(view: ResourceView) -> ResourceView {
    ResourceView { stats: ResourceStats { execution_passes: 1, ..view.stats }, ..view }
}

/// The stop of a broken invariant that no operator caused.
fn internal_stop() -> (stop: RunStop)
    ensures
        stop == vm_stop(vm_failure_of(ContentVmErrorCode::InternalState, None)),
{
    RunStop::Failed(
        ContentVmFailure::Vm(ContentVmError::new(ContentVmErrorCode::InternalState, None)),
    )
}

/// The budgets and capabilities that an interpretation plans with.
pub open spec fn run_config(
    limits: RunLimits,
    images: Option<ImageRuntime>,
    fonts: Option<FontRuntime>,
    ext_gstates: Option<ContentExtGStateProfile>,
    framed: bool,
) -> PlanConfig {
    PlanConfig {
        vm: limits.vm@,
        graphics: match limits.graphics {
            Some(limits) => Some(limits@),
            None => None,
        },
        images: match images {
            Some(images) => Some(images.limits@),
            None => None,
        },
        fonts: match fonts {
            Some(fonts) => Some(fonts.limits@),
            None => None,
        },
        ext_gstates: match ext_gstates {
            Some(profile) => Some(profile@),
            None => None,
        },
        in_form: framed,
    }
}

} // verus!
