//! Acquisition of planned fonts.

use vstd::prelude::*;

use crate::bytes::model::{ByteSource, DataTicket, ResumeCheckpoint, SmallRanges};
use crate::content::accounting::larger;
use crate::content::font_limits::{font_preflight, ContentFontLimits};
use crate::content::guard::{
    is_guard_stop, runtime_guard, vm_stop, GuardView, RunStop, RuntimeGuard,
};
use crate::content::planner_model::{refused, unsupported};
use crate::content::resources::{
    counted, resource_preflight, retained_counted, with_poll, with_resource, PlannedResource,
    ResourceBudget, ResourceLimits, ResourcePlan, ResourceProof, ResourceStats, ResourceView,
};
use crate::content::scanner::ContentCancellation;
use crate::content::text::{face_views, FontFace};
use crate::content::text_model::FaceView;
use crate::content::vm_error::{
    vm_error, vm_failure_of, ContentFontLimitKind, ContentUnsupported, ContentUnsupportedKind,
    ContentVmError, ContentVmErrorCode, ContentVmFailure, DocumentError,
};

verus! {

/// A read that an acquisition waits for.
pub struct PendingRead {
    pub ticket: DataTicket,
    pub missing: SmallRanges,
    pub checkpoint: ResumeCheckpoint,
}

/// What a font acquisition job answered.
pub enum FontPoll {
    /// The font is acquired.
    Ready { resource: ResourceProof, retained_bytes: u64, face: FontFace },
    /// Bytes are absent.
    Pending(PendingRead),
    /// The font is outside the profile.
    Unsupported(u32),
    /// The document failed.
    Failed(DocumentError),
}

/// What font acquisition needs next.
#[derive(Clone, Copy, Debug, PartialEq, Eq, Structural)]
pub enum FontStep {
    /// Nothing: every font is acquired.
    Complete,
    /// A job that acquires a font.
    Acquire(ResourceProof),
    /// One call into the job.
    Poll,
}

/// How an acquisition goes on.
pub enum AcquisitionProgress {
    /// With the next step.
    Continue,
    /// Once absent bytes arrived.
    Pending(PendingRead),
}

/// Font acquisition, as a value.
pub struct FontRuntimeView {
    pub resources: ResourceView,
    pub active: bool,
    pub resource_retained: u64,
    pub faces: Seq<FaceView>,
}

/// A runtime with nothing planned.
pub open spec fn no_fonts() -> FontRuntimeView {
    FontRuntimeView {
        resources: crate::content::resources::empty_resources(),
        active: false,
        resource_retained: 0,
        faces: Seq::empty(),
    }
}

/// What font acquisition needs next, each call into a job counted.
pub open spec fn font_next(view: FontRuntimeView, limits: ResourceLimits) -> Result<
    (FontRuntimeView, FontStep),
    RunStop,
> {
    let resources = view.resources;
    if !resources.plan_complete {
        Err(vm_stop(vm_failure_of(ContentVmErrorCode::InternalState, None)))
    } else if resources.acquisition_cursor >= resources.entries.len() {
        Ok((view, FontStep::Complete))
    } else {
        let entry = resources.entries[resources.acquisition_cursor];
        if !view.active {
            Ok((view, FontStep::Acquire(entry.key)))
        } else {
            match resource_preflight(
                limits,
                ResourceBudget::AcquisitionPolls,
                resources.stats.acquisition_polls,
                1,
                Some(entry.source),
            ) {
                Err(error) => Err(vm_stop(error)),
                Ok(_) => Ok(
                    (
                        FontRuntimeView { resources: with_poll(resources), ..view },
                        FontStep::Poll,
                    ),
                ),
            }
        }
    }
}

/// What an acquired font makes of the runtime: its proof must be the planned one, and what it
/// retains must fit.
pub open spec fn font_acquired(
    view: FontRuntimeView,
    limits: ContentFontLimits,
    resource: ResourceProof,
    retained: u64,
    face: FaceView,
) -> Result<FontRuntimeView, RunStop> {
    let entry = view.resources.entries[view.resources.acquisition_cursor];
    if entry.key != resource {
        Err(refused(ContentVmErrorCode::InternalState, entry.source))
    } else {
        match font_preflight(
            limits@,
            ContentFontLimitKind::ResourceRetainedBytes,
            view.resource_retained,
            retained,
            Some(entry.source),
        ) {
            Err(error) => Err(vm_stop(error)),
            Ok(_) => Ok(
                FontRuntimeView {
                    resources: with_resource(
                        view.resources,
                        PlannedResource::Font(view.faces.len() as u64),
                    ),
                    active: false,
                    resource_retained: (view.resource_retained + retained) as u64,
                    faces: view.faces.push(face),
                },
            ),
        }
    }
}

/// Acquisition of planned fonts. Faces stand in order of acquisition.
pub struct FontRuntime {
    pub resources: ResourcePlan,
    pub limits: ContentFontLimits,
    pub active: bool,
    pub resource_retained: u64,
    /// The most that the glyphs of one run retained.
    pub glyph_retained: u64,
    pub faces: Vec<FontFace>,
}

impl View for FontRuntime {
    type V = FontRuntimeView;

    open spec fn view(&self) -> FontRuntimeView {
        FontRuntimeView {
            resources: self.resources@,
            active: self.active,
            resource_retained: self.resource_retained,
            faces: face_views(self.faces@),
        }
    }
}

/// Whether a font is to be acquired.
pub open spec fn font_missing(view: FontRuntimeView) -> bool {
    view.resources.plan_complete && view.resources.acquisition_cursor < view.resources.entries.len()
}

/// Whether a stop is one that the guard of the font to acquire reports.
pub open spec fn is_font_guard_stop(view: FontRuntimeView, stop: RunStop, guard: GuardView) -> bool {
    let entry = view.resources.entries[view.resources.acquisition_cursor];
    font_missing(view) && is_guard_stop(stop, Some(entry.source), guard.at(entry.key.snapshot))
}

/// Whether the guard of the font to acquire, where there is one, may let it go on.
pub open spec fn font_guard_clear(view: FontRuntimeView, guard: GuardView) -> bool {
    let entry = view.resources.entries[view.resources.acquisition_cursor];
    font_missing(view) ==> guard.at(entry.key.snapshot).clear()
}

/// Work and results of the acquisition of fonts.
#[derive(Clone, Copy, Debug, PartialEq, Eq, Structural)]
pub struct ContentFontStats {
    pub work: ResourceStats,
    pub resource_retained_bytes: u64,
    /// The most bytes that the glyphs of one run retained, or were to retain when they were refused.
    pub peak_glyph_retained_bytes: u64,
    pub font_uses: u64,
}

/// Whether statistics are those of a runtime. Other retained bytes are the allocator's to say.
pub open spec fn font_stats_fit(stats: ContentFontStats, runtime: FontRuntime) -> bool {
    let view = runtime@;
    &&& stats.peak_glyph_retained_bytes == runtime.glyph_retained
    &&& counted(stats.work) == view.resources.stats
    &&& runtime.well_formed() ==> retained_counted(stats.work, view.resources)
    &&& stats.resource_retained_bytes == view.resource_retained
    &&& stats.font_uses == view.resources.execution_cursor
}

impl FontRuntime {
    /// Returns work and results so far.
    pub fn stats(&self) -> (stats: ContentFontStats)
        ensures
            font_stats_fit(stats, *self),
    {
        ContentFontStats {
            work: self.resources.stats(),
            resource_retained_bytes: self.resource_retained,
            peak_glyph_retained_bytes: self.glyph_retained,
            font_uses: self.resources.execution_position() as u64,
        }
    }

    /// The invariant: a plan of fonts, under the runtime's own budgets.
    pub open spec fn well_formed(&self) -> bool {
        self.resources.well_formed() && self.resources.spec_limits() == ResourceLimits::Font(
            self.limits,
        )
    }

    /// Starts with nothing planned.
    pub fn new(limits: ContentFontLimits) -> (runtime: Self)
        ensures
            runtime.well_formed(),
            runtime.limits == limits,
            runtime@ == no_fonts(),
            runtime.glyph_retained == 0,
    {
        let runtime = Self {
            resources: ResourcePlan::new(ResourceLimits::Font(limits)),
            limits,
            active: false,
            resource_retained: 0,
            glyph_retained: 0,
            faces: Vec::new(),
        };
        assert(runtime@.faces =~= Seq::empty());
        runtime
    }

    /// Takes note of what the glyphs of a run retain.
    pub fn record_glyph_retained(&mut self, retained: u64)
        ensures
            *final(self) == (FontRuntime {
                glyph_retained: larger(old(self).glyph_retained, retained),
                ..*old(self)
            }),
    {
        if self.glyph_retained < retained {
            self.glyph_retained = retained;
        }
    }

    /// Reports whether every planned font is acquired.
    pub fn acquisitions_complete(&self) -> (complete: bool)
        ensures
            complete == (self@.resources.plan_complete && !self@.active
                && self@.resources.acquisition_cursor == self@.resources.entries.len()),
    {
        !self.active && self.resources.acquisitions_complete()
    }

    /// Returns what font acquisition needs next.
    pub fn poll_acquisitions<S: ByteSource, C: ContentCancellation>(
        &mut self,
        guard: &RuntimeGuard<'_, S, C>,
    ) -> (step: Result<FontStep, RunStop>)
        requires
            old(self).well_formed(),
        ensures
            final(self).well_formed(),
            final(self).limits == old(self).limits,
            ({
                let expected = font_next(old(self)@, ResourceLimits::Font(old(self).limits));
                match step {
                    Ok(step) => {
                        &&& expected == Ok::<(FontRuntimeView, FontStep), RunStop>(
                            (final(self)@, step),
                        )
                        &&& font_guard_clear(old(self)@, guard@)
                    },
                    Err(stop) => {
                        ||| is_font_guard_stop(old(self)@, stop, guard@)
                        ||| font_guard_clear(old(self)@, guard@) && expected == Err::<
                            (FontRuntimeView, FontStep),
                            RunStop,
                        >(stop)
                    },
                }
            }),
            !old(self)@.resources.plan_complete ==> step == Err::<FontStep, RunStop>(
                vm_stop(vm_failure_of(ContentVmErrorCode::InternalState, None)),
            ),
    {
        proof {
            self.resources.well_formed_model();
        }
        if !self.resources.plan_complete() {
            return Err(
                RunStop::Failed(
                    ContentVmFailure::Vm(
                        ContentVmError::new(ContentVmErrorCode::InternalState, None),
                    ),
                ),
            );
        }
        let entry = match self.resources.next_acquisition() {
            Some(entry) => entry,
            None => {
                return Ok(FontStep::Complete);
            },
        };
        match runtime_guard(
            entry.key.snapshot,
            guard.source,
            guard.cancellation,
            Some(entry.source),
        ) {
            Ok(_) => {},
            Err(error) => {
                return Err(RunStop::Failed(ContentVmFailure::Vm(error)));
            },
        }
        if !self.active {
            return Ok(FontStep::Acquire(entry.key));
        }
        match self.resources.admit_acquisition_poll(entry.source) {
            Ok(_) => Ok(FontStep::Poll),
            Err(error) => Err(RunStop::Failed(ContentVmFailure::Vm(error))),
        }
    }

    /// Takes note of whether an acquisition job could be made.
    pub fn acquisition_started(&mut self, result: Result<(), DocumentError>) -> (outcome: Result<
        (),
        RunStop,
    >)
        requires
            old(self).well_formed(),
        ensures
            final(self).well_formed(),
            final(self).limits == old(self).limits,
            match result {
                Ok(_) => outcome is Ok && final(self)@ == (FontRuntimeView {
                    active: true,
                    ..old(self)@
                }),
                Err(error) => outcome == Err::<(), RunStop>(
                    RunStop::Failed(ContentVmFailure::Document(error)),
                ) && final(self)@ == old(self)@,
            },
    {
        match result {
            Ok(_) => {
                self.active = true;
                Ok(())
            },
            Err(error) => Err(RunStop::Failed(ContentVmFailure::Document(error))),
        }
    }

    /// Goes on with what an acquisition job answered.
    pub fn font_polled<S: ByteSource, C: ContentCancellation>(
        &mut self,
        outcome: FontPoll,
        guard: &RuntimeGuard<'_, S, C>,
    ) -> (progress: Result<AcquisitionProgress, RunStop>)
        requires
            old(self).well_formed(),
            old(self)@.resources.acquisition_cursor < old(self)@.resources.entries.len(),
        ensures
            final(self).well_formed(),
            final(self).limits == old(self).limits,
            ({
                let before = old(self)@;
                let entry = before.resources.entries[before.resources.acquisition_cursor];
                let source = entry.source;
                let bound = guard@.at(entry.key.snapshot);
                match progress {
                    Ok(AcquisitionProgress::Pending(read)) => {
                        &&& bound.clear()
                        &&& outcome == FontPoll::Pending(read)
                        &&& final(self)@ == before
                    },
                    Ok(AcquisitionProgress::Continue) => {
                        &&& bound.clear()
                        &&& outcome is Ready
                        &&& font_acquired(
                            before,
                            old(self).limits,
                            outcome->Ready_resource,
                            outcome->Ready_retained_bytes,
                            outcome->Ready_face@,
                        ) == Ok::<FontRuntimeView, RunStop>(final(self)@)
                    },
                    Err(stop) => is_guard_stop(stop, Some(source), bound) || (bound.clear()
                        && match outcome {
                        FontPoll::Pending(_) => false,
                        FontPoll::Unsupported(code) => stop == unsupported(
                            ContentUnsupportedKind::FontResource(code),
                            source,
                        ),
                        FontPoll::Failed(error) => stop == RunStop::Failed(
                            ContentVmFailure::Document(error),
                        ),
                        FontPoll::Ready { resource, retained_bytes, face } => font_acquired(
                            before,
                            old(self).limits,
                            resource,
                            retained_bytes,
                            face@,
                        ) == Err::<FontRuntimeView, RunStop>(stop),
                    }),
                }
            }),
    {
        proof {
            self.resources.well_formed_model();
        }
        let entry = match self.resources.next_acquisition() {
            Some(entry) => entry,
            None => {
                return Ok(AcquisitionProgress::Continue);
            },
        };
        let source = entry.source;
        match runtime_guard(
            entry.key.snapshot,
            guard.source,
            guard.cancellation,
            Some(source),
        ) {
            Ok(_) => {},
            Err(error) => {
                return Err(RunStop::Failed(ContentVmFailure::Vm(error)));
            },
        }
        match outcome {
            FontPoll::Pending(read) => Ok(AcquisitionProgress::Pending(read)),
            FontPoll::Unsupported(code) => Err(
                RunStop::Unsupported(
                    ContentUnsupported::new(ContentUnsupportedKind::FontResource(code), source),
                ),
            ),
            FontPoll::Failed(error) => Err(RunStop::Failed(ContentVmFailure::Document(error))),
            FontPoll::Ready { resource, retained_bytes, face } => {
                if entry.key != resource {
                    return Err(
                        RunStop::Failed(
                            ContentVmFailure::Vm(
                                vm_error(ContentVmErrorCode::InternalState, source),
                            ),
                        ),
                    );
                }
                match self.limits.preflight(
                    ContentFontLimitKind::ResourceRetainedBytes,
                    self.resource_retained,
                    retained_bytes,
                    Some(source),
                ) {
                    Ok(_) => {},
                    Err(error) => {
                        return Err(RunStop::Failed(ContentVmFailure::Vm(error)));
                    },
                }
                let place: u64 = self.faces.len() as u64;
                let installed = self.resources.install(resource, PlannedResource::Font(place));
                self.resource_retained = self.resource_retained + retained_bytes;
                self.active = false;
                self.faces.push(face);
                assert(self@.faces =~= old(self)@.faces.push(face@));
                Ok(AcquisitionProgress::Continue)
            },
        }
    }
}

} // verus!
