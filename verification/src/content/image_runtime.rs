//! Acquisition of planned external objects: images, and forms with their content.

use vstd::prelude::*;

use crate::bytes::model::ByteSource;
use crate::content::font_runtime::{AcquisitionProgress, PendingRead};
use crate::content::guard::{
    is_guard_stop, runtime_guard, vm_stop, GuardView, RunStop, RuntimeGuard,
};
use crate::content::image_limits::{image_preflight, ContentImageLimits};
use crate::content::image_samples::{
    addressable, normalize_image_samples, normalized, resolved_space, scene_color_space,
    AcquiredImage, ImageColorSpace,
};
use crate::content::model::{ContentOperatorSource, ObjectRef};
use crate::content::planner_model::{refused, unsupported};
use crate::content::profile::ContentFormProfile;
use crate::content::resources::{
    counted, empty_resources, resolution, resource_preflight, retained_counted, with_poll,
    with_resource, PlannedResource, ResourceBudget, ResourceLimits, ResourcePlan, ResourceProof,
    ResourceStats, ResourceView,
};
use crate::content::scanner::ContentCancellation;
use crate::content::scene::{GraphicsResourceSource, Matrix};
use crate::content::vm_error::{
    operator_failure, vm_error, vm_failure_of, vm_resource, ContentImageLimit,
    ContentImageLimitKind, ContentUnsupported, ContentUnsupportedKind, ContentVmError,
    ContentVmErrorCode, ContentVmFailure, ContentVmLimitContext, DocumentError, ImageUnsupported,
    SceneError,
};
use crate::memory::try_reserve_exact;

verus! {

/// An image for the scene: eight-bit samples in a device color space.
pub struct SceneImage {
    pub reference: ObjectRef,
    pub revision_startxref: u64,
    pub decode_context: u64,
    pub width: u32,
    pub height: u32,
    pub color_space: ImageColorSpace,
    pub interpolate: bool,
    pub samples: Vec<u8>,
}

/// An image for the scene, as a value.
pub struct SceneImageView {
    pub reference: ObjectRef,
    pub revision_startxref: u64,
    pub decode_context: u64,
    pub width: u32,
    pub height: u32,
    pub color_space: ImageColorSpace,
    pub interpolate: bool,
    pub samples: Seq<u8>,
}

impl View for SceneImage {
    type V = SceneImageView;

    open spec fn view(&self) -> SceneImageView {
        SceneImageView {
            reference: self.reference,
            revision_startxref: self.revision_startxref,
            decode_context: self.decode_context,
            width: self.width,
            height: self.height,
            color_space: self.color_space,
            interpolate: self.interpolate,
            samples: self.samples@,
        }
    }
}

/// The scene image of an acquired one.
pub open spec fn scene_image_of(image: AcquiredImage) -> SceneImageView {
    SceneImageView {
        reference: image.reference,
        revision_startxref: image.resource.revision_startxref,
        decode_context: image.decode_context,
        width: image.width,
        height: image.height,
        color_space: resolved_space(image.color_space),
        interpolate: image.interpolate,
        samples: normalized(image@)->0,
    }
}

/// Where a scene image comes from.
pub open spec fn image_source(image: SceneImageView) -> GraphicsResourceSource {
    GraphicsResourceSource {
        reference: image.reference,
        revision_startxref: image.revision_startxref,
        decode_context: image.decode_context,
    }
}

/// The values of scene images.
pub open spec fn scene_image_views(images: Seq<SceneImage>) -> Seq<SceneImageView> {
    images.map_values(|image: SceneImage| image@)
}

/// What the runtime is at.
#[derive(Clone, Copy, Debug, PartialEq, Eq, Structural)]
pub enum ImageActivity {
    /// Nothing.
    Idle,
    /// An image job.
    Image,
    /// An object that is no image waits for a form job.
    WantForm,
    /// A form job.
    Form,
    /// The scene takes an image of so many bytes.
    Building(u64),
    /// Interpretation of a form.
    Interpreting,
}

/// What an image job answered.
pub enum ImagePoll {
    Ready(AcquiredImage),
    Pending(PendingRead),
    Unsupported(ImageUnsupported),
    Failed(DocumentError),
}

/// What a form job answered. A form is known by the caller's handle.
pub enum FormPoll {
    Ready { resource: ResourceProof, form: u64 },
    Pending(PendingRead),
    Unsupported(u32),
    Failed(DocumentError),
}

/// What the interpretation of a form answered. Its outcome is known by the caller's handle.
pub enum FormInterpretation {
    Ready(u64),
    Pending(PendingRead),
    Unsupported(ContentUnsupported),
    Failed(ContentVmFailure),
}

/// What the acquisition of external objects needs next.
#[derive(Clone, Copy, Debug, PartialEq, Eq, Structural)]
pub enum ImageStep {
    /// Nothing: every object is acquired, and every form interpreted.
    Complete,
    /// A job that acquires an image.
    AcquireImage(ResourceProof),
    /// One call into the image job.
    PollImage,
    /// A job that acquires a form.
    AcquireForm(ResourceProof),
    /// One call into the form job.
    PollForm,
    /// A job that interprets an acquired form for one use.
    Interpret { form: u64, transform: Matrix },
    /// One call into the interpretation.
    PollInterpretation,
}

/// How the acquisition of an image goes on.
pub enum ImageProgress {
    /// With the next step.
    Continue,
    /// Once absent bytes arrived.
    Pending(PendingRead),
    /// Once the scene took the last image.
    Build,
}

/// Acquisition of external objects, as a value.
pub struct ImageRuntimeView {
    pub resources: ResourceView,
    pub forms: Option<ContentFormProfile>,
    pub activity: ImageActivity,
    /// For each use that was looked at, its interpreted form, if it is a form.
    pub use_forms: Seq<Option<u64>>,
    pub decoded_bytes: u64,
    pub images: Seq<SceneImageView>,
    pub executed_images: u64,
    pub scanned_bytes: Option<u64>,
}

/// A runtime with nothing planned.
pub open spec fn no_images() -> ImageRuntimeView {
    ImageRuntimeView {
        resources: empty_resources(),
        forms: None,
        activity: ImageActivity::Idle,
        use_forms: Seq::empty(),
        decoded_bytes: 0,
        images: Seq::empty(),
        executed_images: 0,
        scanned_bytes: None,
    }
}

/// The stop of a broken invariant.
pub open spec fn broken_at(source: ContentOperatorSource) -> RunStop {
    refused(ContentVmErrorCode::InternalState, source)
}

/// Whether nothing is planned yet, and objects that are no images are no forms either.
pub open spec fn untouched(view: ImageRuntimeView) -> bool {
    &&& !view.resources.plan_complete
    &&& view.resources.uses.len() == 0
    &&& view.resources.entries.len() == 0
    &&& view.activity == ImageActivity::Idle
    &&& view.forms is None
}

/// The form of a use, if it is one.
pub open spec fn form_of(resources: ResourceView, i: int) -> Option<u64> {
    match resources.entries[resources.uses[i].entry as int].resource {
        Some(PlannedResource::Form(form)) => Some(form),
        _ => None,
    }
}

/// The runtime with uses that are no forms passed.
pub open spec fn images_passed(view: ImageRuntimeView) -> ImageRuntimeView
    decreases view.resources.uses.len() - view.use_forms.len(),
{
    let i = view.use_forms.len() as int;
    if i >= view.resources.uses.len() || form_of(view.resources, i) is Some {
        view
    } else {
        images_passed(ImageRuntimeView { use_forms: view.use_forms.push(None), ..view })
    }
}

/// What the acquisition of external objects needs next, each call into a job counted.
pub open spec fn image_next(view: ImageRuntimeView, limits: ResourceLimits) -> Result<
    (ImageRuntimeView, ImageStep),
    RunStop,
> {
    let resources = view.resources;
    if !resources.plan_complete {
        Err(vm_stop(vm_failure_of(ContentVmErrorCode::InternalState, None)))
    } else if resources.acquisition_cursor < resources.entries.len() {
        let entry = resources.entries[resources.acquisition_cursor];
        let admitted = resource_preflight(
            limits,
            ResourceBudget::AcquisitionPolls,
            resources.stats.acquisition_polls,
            1,
            Some(entry.source),
        );
        let polled = ImageRuntimeView { resources: with_poll(resources), ..view };
        match view.activity {
            ImageActivity::Idle => Ok((view, ImageStep::AcquireImage(entry.key))),
            ImageActivity::WantForm => Ok((view, ImageStep::AcquireForm(entry.key))),
            ImageActivity::Image => match admitted {
                Err(error) => Err(vm_stop(error)),
                Ok(_) => Ok((polled, ImageStep::PollImage)),
            },
            ImageActivity::Form => match admitted {
                Err(error) => Err(vm_stop(error)),
                Ok(_) => Ok((polled, ImageStep::PollForm)),
            },
            _ => Err(broken_at(entry.source)),
        }
    } else {
        let next = images_passed(view);
        let i = next.use_forms.len() as int;
        if i >= resources.uses.len() {
            Ok((next, ImageStep::Complete))
        } else {
            match view.activity {
                ImageActivity::Idle => Ok(
                    (
                        next,
                        ImageStep::Interpret {
                            form: form_of(resources, i)->0,
                            transform: resources.uses[i].transform,
                        },
                    ),
                ),
                ImageActivity::Interpreting => Ok((next, ImageStep::PollInterpretation)),
                _ => Err(broken_at(resources.uses[i].source)),
            }
        }
    }
}

/// The bytes that an image takes once its samples are bytes.
pub open spec fn decoded_len(image: AcquiredImage) -> int {
    image.width * image.height * image.components
}

/// What an acquired image makes of the runtime: its proof must be the planned one, its samples must
/// fit the budget, and they must be all there.
pub open spec fn image_acquired(
    view: ImageRuntimeView,
    limits: ContentImageLimits,
    image: AcquiredImage,
) -> Result<ImageRuntimeView, RunStop> {
    let entry = view.resources.entries[view.resources.acquisition_cursor];
    let len = decoded_len(image);
    if entry.key != image.resource || image.reported_decoded_bytes != image.decoded@.len() {
        Err(broken_at(entry.source))
    } else if len > u64::MAX {
        Err(broken_at(entry.source))
    } else {
        match image_preflight(
            limits@,
            ContentImageLimitKind::DecodedBytes,
            view.decoded_bytes,
            len as u64,
            Some(entry.source),
        ) {
            Err(error) => Err(vm_stop(error)),
            Ok(_) => if normalized(image@) is None || normalized(image@)->0.len() != len {
                Err(broken_at(entry.source))
            } else {
                Ok(
                    ImageRuntimeView {
                        activity: ImageActivity::Building(len as u64),
                        images: view.images.push(scene_image_of(image)),
                        ..view
                    },
                )
            },
        }
    }
}

/// Whether the machine stops at an image that is the planned one and within the budget: the
/// allocator refused its samples, or its rows cannot be addressed.
pub open spec fn image_starved(
    view: ImageRuntimeView,
    limits: ContentImageLimits,
    image: AcquiredImage,
    stop: RunStop,
) -> bool {
    let entry = view.resources.entries[view.resources.acquisition_cursor];
    &&& entry.key == image.resource
    &&& image.reported_decoded_bytes == image.decoded@.len()
    &&& decoded_len(image) <= u64::MAX
    &&& image_preflight(
        limits@,
        ContentImageLimitKind::DecodedBytes,
        view.decoded_bytes,
        decoded_len(image) as u64,
        Some(entry.source),
    ) is Ok
    &&& {
        ||| stop == vm_stop(
            vm_resource(
                ContentVmLimitContext::Image(
                    ContentImageLimit {
                        kind: ContentImageLimitKind::DecodedAllocation,
                        limit: limits@.max_decoded_bytes,
                        consumed: view.decoded_bytes,
                        attempted: decoded_len(image) as u64,
                    },
                ),
                Some(entry.source),
            ),
        )
        ||| !addressable(image@) && stop == broken_at(entry.source)
    }
}

/// Acquisition of planned external objects. Images stand in order of acquisition.
pub struct ImageRuntime {
    pub resources: ResourcePlan,
    pub limits: ContentImageLimits,
    pub forms: Option<ContentFormProfile>,
    pub activity: ImageActivity,
    pub use_forms: Vec<Option<u64>>,
    pub decoded_bytes: u64,
    pub images: Vec<SceneImage>,
    pub executed_images: u64,
    pub scanned_bytes: Option<u64>,
}

impl View for ImageRuntime {
    type V = ImageRuntimeView;

    open spec fn view(&self) -> ImageRuntimeView {
        ImageRuntimeView {
            resources: self.resources@,
            forms: self.forms,
            activity: self.activity,
            use_forms: self.use_forms@,
            decoded_bytes: self.decoded_bytes,
            images: scene_image_views(self.images@),
            executed_images: self.executed_images,
            scanned_bytes: self.scanned_bytes,
        }
    }
}

/// One external object that an executed use resolves to.
#[derive(Clone, Copy, Debug, PartialEq, Eq, Structural)]
pub enum ResolvedXObject {
    /// An image, by its place among acquired ones.
    Image { resource: ResourceProof, image: u64, resource_source: GraphicsResourceSource },
    /// An interpreted form, by the caller's handle.
    Form { resource: ResourceProof, form: u64 },
}

/// What the next executed use resolves to.
pub open spec fn resolved_object(view: ImageRuntimeView, source: ContentOperatorSource) -> Result<
    ResolvedXObject,
    ContentVmError,
> {
    match resolution(view.resources, source) {
        Err(error) => Err(error),
        Ok((usage, resource)) => match resource {
            PlannedResource::Image(image) => if image < view.images.len() {
                Ok(
                    ResolvedXObject::Image {
                        resource: usage.key,
                        image,
                        resource_source: image_source(view.images[image as int]),
                    },
                )
            } else {
                Err(operator_failure(ContentVmErrorCode::InternalState, source))
            },
            PlannedResource::Form(_) => {
                let i = view.resources.execution_cursor;
                if i < view.use_forms.len() && view.use_forms[i] is Some {
                    Ok(ResolvedXObject::Form { resource: usage.key, form: view.use_forms[i]->0 })
                } else {
                    Err(operator_failure(ContentVmErrorCode::InternalState, source))
                }
            },
            PlannedResource::Font(_) => Err(
                operator_failure(ContentVmErrorCode::InternalState, source),
            ),
        },
    }
}

/// Work and results of the acquisition of external objects.
#[derive(Clone, Copy, Debug, PartialEq, Eq, Structural)]
pub struct ContentImageStats {
    pub scanned_bytes: u64,
    pub work: ResourceStats,
    pub decoded_bytes: u64,
    pub image_uses: u64,
}

/// Whether statistics are those of a runtime. Retained bytes are the allocator's to say.
pub open spec fn image_stats_fit(stats: ContentImageStats, runtime: ImageRuntime) -> bool {
    let view = runtime@;
    &&& stats.scanned_bytes == (match view.scanned_bytes {
        Some(bytes) => bytes,
        None => 0,
    })
    &&& counted(stats.work) == view.resources.stats
    &&& runtime.well_formed() ==> retained_counted(stats.work, view.resources)
    &&& stats.decoded_bytes == view.decoded_bytes
    &&& stats.image_uses == view.executed_images
}

fn broken_stop(source: ContentOperatorSource) -> (stop: RunStop)
    ensures
        stop == broken_at(source),
{
    RunStop::Failed(ContentVmFailure::Vm(vm_error(ContentVmErrorCode::InternalState, source)))
}

impl ImageRuntime {
    /// The invariant: a plan of external objects, under the runtime's own budgets.
    pub open spec fn well_formed(&self) -> bool {
        &&& self.resources.well_formed()
        &&& self.resources.spec_limits() == ResourceLimits::Image(self.limits)
        &&& self.use_forms@.len() <= self.resources@.uses.len()
        &&& self.activity matches ImageActivity::Building(len) ==> self.images@.len() > 0
            && self.decoded_bytes + len <= u64::MAX && self.resources@.acquisition_cursor
            < self.resources@.entries.len()
        &&& self.executed_images <= self.resources@.execution_cursor
    }

    /// Starts with nothing planned.
    pub fn new(limits: ContentImageLimits) -> (runtime: Self)
        ensures
            runtime.well_formed(),
            runtime.limits == limits,
            runtime@ == no_images(),
    {
        let runtime = Self {
            resources: ResourcePlan::new(ResourceLimits::Image(limits)),
            limits,
            forms: None,
            activity: ImageActivity::Idle,
            use_forms: Vec::new(),
            decoded_bytes: 0,
            images: Vec::new(),
            executed_images: 0,
            scanned_bytes: None,
        };
        proof {
            assert(runtime@.images =~= Seq::empty());
            assert(runtime@.use_forms =~= Seq::empty());
        }
        runtime
    }

    /// Returns work and results so far.
    pub fn stats(&self) -> (stats: ContentImageStats)
        ensures
            image_stats_fit(stats, *self),
    {
        ContentImageStats {
            scanned_bytes: match self.scanned_bytes {
                Some(bytes) => bytes,
                None => 0,
            },
            work: self.resources.stats(),
            decoded_bytes: self.decoded_bytes,
            image_uses: self.executed_images,
        }
    }

    /// Lets objects that are no images be forms, under a profile. Only once, and before anything
    /// is planned.
    pub fn enable_forms(&mut self, profile: ContentFormProfile) -> (result: Result<
        (),
        ContentVmError,
    >)
        requires
            old(self).well_formed(),
        ensures
            final(self).well_formed(),
            final(self).limits == old(self).limits,
            ({
                let before = old(self)@;
                let fresh = untouched(before);
                if fresh {
                    result is Ok && final(self)@ == (ImageRuntimeView {
                        forms: Some(profile),
                        ..before
                    })
                } else {
                    result == Err::<(), ContentVmError>(
                        vm_failure_of(ContentVmErrorCode::InternalState, None),
                    ) && final(self)@ == before
                }
            }),
    {
        if self.resources.plan_complete() || self.resources.use_at(0).is_some()
            || self.resources.entry_at(0).is_some() || self.activity != ImageActivity::Idle
            || self.forms.is_some() {
            return Err(ContentVmError::new(ContentVmErrorCode::InternalState, None));
        }
        self.forms = Some(profile);
        Ok(())
    }

    /// Records the one scan of the content.
    pub fn record_scan(&mut self, bytes: u64) -> (result: Result<(), ContentVmError>)
        requires
            old(self).well_formed(),
        ensures
            final(self).well_formed(),
            final(self).limits == old(self).limits,
            if old(self)@.scanned_bytes is None {
                result is Ok && final(self)@ == (ImageRuntimeView {
                    scanned_bytes: Some(bytes),
                    ..old(self)@
                })
            } else {
                result == Err::<(), ContentVmError>(
                    vm_failure_of(ContentVmErrorCode::InternalState, None),
                ) && final(self)@ == old(self)@
            },
    {
        if self.scanned_bytes.is_some() {
            return Err(ContentVmError::new(ContentVmErrorCode::InternalState, None));
        }
        self.scanned_bytes = Some(bytes);
        Ok(())
    }

    /// Reports whether every object is acquired, and every form interpreted.
    pub fn acquisitions_complete(&self) -> (complete: bool)
        ensures
            complete == (self@.resources.plan_complete && self@.activity == ImageActivity::Idle
                && self@.resources.acquisition_cursor == self@.resources.entries.len()
                && self@.use_forms.len() == self@.resources.uses.len()),
    {
        self.activity == ImageActivity::Idle && self.resources.acquisitions_complete()
            && self.resources.use_count() == self.use_forms.len()
    }

    /// Returns what the acquisition of external objects needs next.
    pub fn poll_acquisitions<S: ByteSource, C: ContentCancellation>(
        &mut self,
        guard: &RuntimeGuard<'_, S, C>,
    ) -> (step: Result<ImageStep, RunStop>)
        requires
            old(self).well_formed(),
        ensures
            final(self).well_formed(),
            final(self).limits == old(self).limits,
            ({
                let expected = image_next(old(self)@, ResourceLimits::Image(old(self).limits));
                match step {
                    Ok(step) => {
                        &&& expected == Ok::<(ImageRuntimeView, ImageStep), RunStop>(
                            (final(self)@, step),
                        )
                        &&& image_guards_clear(old(self)@, guard@)
                    },
                    Err(stop) => {
                        ||| is_image_guard_stop(old(self)@, stop, guard@)
                        ||| image_guards_clear(old(self)@, guard@) && expected == Err::<
                            (ImageRuntimeView, ImageStep),
                            RunStop,
                        >(stop)
                    },
                }
            }),
            !old(self)@.resources.plan_complete ==> step == Err::<ImageStep, RunStop>(
                vm_stop(vm_failure_of(ContentVmErrorCode::InternalState, None)),
            ),
            old(self)@.resources.plan_complete && old(self)@.resources.acquisition_cursor == old(
                self,
            )@.resources.entries.len() && old(self)@.use_forms.len() == old(
                self,
            )@.resources.uses.len() ==> step == Ok::<ImageStep, RunStop>(ImageStep::Complete),
    {
        proof {
            self.resources.well_formed_model();
        }
        if !self.resources.plan_complete() {
            return Err(
                RunStop::Failed(
                    ContentVmFailure::Vm(
                        ContentVmError::new(ContentVmErrorCode::InternalState, None),
                    ),
                ),
            );
        }
        if let Some(entry) = self.resources.next_acquisition() {
            match probe_at(entry.key, entry.source, guard) {
                Ok(_) => {},
                Err(stop) => {
                    return Err(stop);
                },
            }
            return match self.activity {
                ImageActivity::Idle => Ok(ImageStep::AcquireImage(entry.key)),
                ImageActivity::WantForm => Ok(ImageStep::AcquireForm(entry.key)),
                ImageActivity::Image => match self.resources.admit_acquisition_poll(
                    entry.source,
                ) {
                    Ok(_) => Ok(ImageStep::PollImage),
                    Err(error) => Err(RunStop::Failed(ContentVmFailure::Vm(error))),
                },
                ImageActivity::Form => match self.resources.admit_acquisition_poll(entry.source) {
                    Ok(_) => Ok(ImageStep::PollForm),
                    Err(error) => Err(RunStop::Failed(ContentVmFailure::Vm(error))),
                },
                _ => Err(broken_stop(entry.source)),
            };
        }
        self.next_form(guard)
    }

    /// Passes uses that are no forms, and returns what the next form needs.
    fn next_form<S: ByteSource, C: ContentCancellation>(
        &mut self,
        guard: &RuntimeGuard<'_, S, C>,
    ) -> (step: Result<ImageStep, RunStop>)
        requires
            old(self).well_formed(),
            old(self)@.resources.plan_complete,
            old(self)@.resources.acquisition_cursor >= old(self)@.resources.entries.len(),
        ensures
            final(self).well_formed(),
            final(self).limits == old(self).limits,
            ({
                let expected = image_next(old(self)@, ResourceLimits::Image(old(self).limits));
                match step {
                    Ok(step) => {
                        &&& expected == Ok::<(ImageRuntimeView, ImageStep), RunStop>(
                            (final(self)@, step),
                        )
                        &&& image_guards_clear(old(self)@, guard@)
                    },
                    Err(stop) => {
                        ||| is_image_guard_stop(old(self)@, stop, guard@)
                        ||| image_guards_clear(old(self)@, guard@) && expected == Err::<
                            (ImageRuntimeView, ImageStep),
                            RunStop,
                        >(stop)
                    },
                }
            }),
            !old(self)@.resources.plan_complete ==> step == Err::<ImageStep, RunStop>(
                vm_stop(vm_failure_of(ContentVmErrorCode::InternalState, None)),
            ),
            old(self)@.resources.plan_complete && old(self)@.resources.acquisition_cursor == old(
                self,
            )@.resources.entries.len() && old(self)@.use_forms.len() == old(
                self,
            )@.resources.uses.len() ==> step == Ok::<ImageStep, RunStop>(ImageStep::Complete),
    {
        proof {
            self.resources.well_formed_model();
        }
        let ghost before = self@;
        loop
            invariant
                self.well_formed(),
                self.limits == old(self).limits,
                before == old(self)@,
                before.resources.plan_complete,
                before.resources.acquisition_cursor >= before.resources.entries.len(),
                crate::content::resources::resources_ok(before.resources),
                self@ == (ImageRuntimeView { use_forms: self.use_forms@, ..before }),
                before.use_forms.len() <= self.use_forms@.len(),
                images_passed(before) == images_passed(self@),
                forall|k: int|
                    before.use_forms.len() <= k < self.use_forms@.len()
                        ==> guard@.at((#[trigger] before.resources.uses[k]).key.snapshot).clear(),
            decreases before.resources.uses.len() - self.use_forms@.len(),
        {
            let i: usize = self.use_forms.len();
            let usage = match self.resources.use_at(i) {
                Some(usage) => usage,
                None => {
                    return Ok(ImageStep::Complete);
                },
            };
            proof {
                passing_only_adds(self@);
            }
            assert(is_passed_use(before, i as int));
            assert(before.resources.uses[i as int] == usage);
            match probe_at(usage.key, usage.source, guard) {
                Ok(_) => {},
                Err(stop) => {
                    return Err(stop);
                },
            }
            let resource = match self.resources.entry_at(usage.entry as usize) {
                Some(entry) => entry.resource,
                None => None,
            };
            if let Some(PlannedResource::Form(form)) = resource {
                return match self.activity {
                    ImageActivity::Idle => Ok(
                        ImageStep::Interpret { form, transform: usage.transform },
                    ),
                    ImageActivity::Interpreting => Ok(ImageStep::PollInterpretation),
                    _ => Err(broken_stop(usage.source)),
                };
            }
            self.use_forms.push(None);
        }
    }

    /// Takes note of whether a job could be made, for an image or for a form.
    pub fn acquisition_started(&mut self, result: Result<(), DocumentError>) -> (outcome: Result<
        (),
        RunStop,
    >)
        requires
            old(self).well_formed(),
            old(self).activity == ImageActivity::Idle || old(self).activity
                == ImageActivity::WantForm,
        ensures
            final(self).well_formed(),
            final(self).limits == old(self).limits,
            match result {
                Ok(_) => outcome is Ok && final(self)@ == (ImageRuntimeView {
                    activity: if old(self).activity == ImageActivity::Idle {
                        ImageActivity::Image
                    } else {
                        ImageActivity::Form
                    },
                    ..old(self)@
                }),
                Err(error) => outcome == Err::<(), RunStop>(
                    RunStop::Failed(ContentVmFailure::Document(error)),
                ) && final(self)@ == old(self)@,
            },
    {
        match result {
            Ok(_) => {
                self.activity = if self.activity == ImageActivity::Idle {
                    ImageActivity::Image
                } else {
                    ImageActivity::Form
                };
                Ok(())
            },
            Err(error) => Err(RunStop::Failed(ContentVmFailure::Document(error))),
        }
    }

    /// Takes note of whether the interpretation of a form could be started.
    pub fn interpretation_started(&mut self, result: Result<(), ContentVmFailure>) -> (outcome: Result<
        (),
        RunStop,
    >)
        requires
            old(self).well_formed(),
        ensures
            final(self).well_formed(),
            final(self).limits == old(self).limits,
            match result {
                Ok(_) => outcome is Ok && final(self)@ == (ImageRuntimeView {
                    activity: ImageActivity::Interpreting,
                    ..old(self)@
                }),
                Err(failure) => outcome == Err::<(), RunStop>(RunStop::Failed(failure)) && final(self)@ == old(self)@,
            },
    {
        match result {
            Ok(_) => {
                self.activity = ImageActivity::Interpreting;
                Ok(())
            },
            Err(failure) => Err(RunStop::Failed(failure)),
        }
    }

    /// Goes on with what an image job answered. An object that is no image is tried as a form
    /// where forms are enabled.
    pub fn image_polled<S: ByteSource, C: ContentCancellation>(
        &mut self,
        outcome: ImagePoll,
        guard: &RuntimeGuard<'_, S, C>,
    ) -> (progress: Result<ImageProgress, RunStop>)
        requires
            old(self).well_formed(),
            old(self)@.resources.acquisition_cursor < old(self)@.resources.entries.len(),
        ensures
            final(self).limits == old(self).limits,
            progress is Ok ==> final(self).well_formed(),
            progress is Ok ==> guard@.at(
                old(self)@.resources.entries[old(self)@.resources.acquisition_cursor].key.snapshot,
            ).clear(),
            ({
                let before = old(self)@;
                let entry = before.resources.entries[before.resources.acquisition_cursor];
                let source = entry.source;
                let bound = guard@.at(entry.key.snapshot);
                let as_form = outcome == ImagePoll::Unsupported(ImageUnsupported::NonImageXObject)
                    && before.forms is Some;
                match progress {
                    Ok(ImageProgress::Pending(read)) => outcome == ImagePoll::Pending(read)
                        && final(self)@ == before,
                    Ok(ImageProgress::Continue) => as_form && final(self)@ == (ImageRuntimeView {
                        activity: ImageActivity::WantForm,
                        ..before
                    }),
                    Ok(ImageProgress::Build) => outcome matches ImagePoll::Ready(image)
                        && image_acquired(before, old(self).limits, image) == Ok::<
                        ImageRuntimeView,
                        RunStop,
                    >(final(self)@),
                    Err(stop) => is_guard_stop(stop, Some(source), bound) || (bound.clear()
                        && match outcome {
                        ImagePoll::Pending(_) => false,
                        ImagePoll::Unsupported(reason) => !as_form && stop == unsupported(
                            ContentUnsupportedKind::ImageResource(reason),
                            source,
                        ),
                        ImagePoll::Failed(error) => stop == RunStop::Failed(
                            ContentVmFailure::Document(error),
                        ),
                        ImagePoll::Ready(image) => image_starved(
                            before,
                            old(self).limits,
                            image,
                            stop,
                        ) || image_acquired(before, old(self).limits, image) == Err::<
                            ImageRuntimeView,
                            RunStop,
                        >(stop),
                    }),
                }
            }),
    {
        proof {
            self.resources.well_formed_model();
        }
        let entry = match self.resources.next_acquisition() {
            Some(entry) => entry,
            None => {
                return Ok(ImageProgress::Continue);
            },
        };
        let source = entry.source;
        match probe_at(entry.key, source, guard) {
            Ok(_) => {},
            Err(stop) => {
                return Err(stop);
            },
        }
        match outcome {
            ImagePoll::Pending(read) => Ok(ImageProgress::Pending(read)),
            ImagePoll::Unsupported(reason) => {
                if reason == ImageUnsupported::NonImageXObject && self.forms.is_some() {
                    self.activity = ImageActivity::WantForm;
                    return Ok(ImageProgress::Continue);
                }
                Err(
                    RunStop::Unsupported(
                        ContentUnsupported::new(
                            ContentUnsupportedKind::ImageResource(reason),
                            source,
                        ),
                    ),
                )
            },
            ImagePoll::Failed(error) => Err(RunStop::Failed(ContentVmFailure::Document(error))),
            ImagePoll::Ready(image) => self.take_image(image, entry.key, source),
        }
    }

    /// Turns the samples of an acquired image into bytes.
    fn take_image(
        &mut self,
        image: AcquiredImage,
        key: ResourceProof,
        source: ContentOperatorSource,
    ) -> (progress: Result<ImageProgress, RunStop>)
        requires
            old(self).well_formed(),
            old(self)@.resources.acquisition_cursor < old(self)@.resources.entries.len(),
            old(self)@.resources.entries[old(self)@.resources.acquisition_cursor].key == key,
            old(self)@.resources.entries[old(self)@.resources.acquisition_cursor].source == source,
        ensures
            final(self).limits == old(self).limits,
            progress is Ok ==> final(self).well_formed(),
            ({
                let expected = image_acquired(old(self)@, old(self).limits, image);
                match progress {
                    Ok(progress) => progress is Build && expected == Ok::<ImageRuntimeView, RunStop>(
                        final(self)@,
                    ),
                    Err(stop) => image_starved(old(self)@, old(self).limits, image, stop)
                        || expected == Err::<ImageRuntimeView, RunStop>(stop),
                }
            }),
    {
        if key != image.resource || image.reported_decoded_bytes != image.decoded.len() as u64 {
            return Err(broken_stop(source));
        }
        let width: u64 = image.width as u64;
        let height: u64 = image.height as u64;
        assert(width * height <= 0xffff_ffff * 0xffff_ffff) by (nonlinear_arith)
            requires
                width <= 0xffff_ffff,
                height <= 0xffff_ffff,
        ;
        assert(decoded_len(image) == (width * height) * (image.components as u64)) by (nonlinear_arith)
            requires
                decoded_len(image) == image.width * image.height * image.components,
                width == image.width,
                height == image.height,
        ;
        let len: u64 = match (width * height).checked_mul(image.components as u64) {
            Some(len) => len,
            None => {
                return Err(broken_stop(source));
            },
        };
        match self.limits.preflight(
            ContentImageLimitKind::DecodedBytes,
            self.decoded_bytes,
            len,
            Some(source),
        ) {
            Ok(_) => {},
            Err(error) => {
                return Err(RunStop::Failed(ContentVmFailure::Vm(error)));
            },
        }
        let _ceiling: u64 = self.limits.max_decoded_bytes();
        let mut samples: Vec<u8> = Vec::new();
        if !try_reserve_exact(&mut samples, len as usize) {
            return Err(
                RunStop::Failed(
                    ContentVmFailure::Vm(
                        ContentVmError::image_resource(
                            ContentImageLimit::new(
                                ContentImageLimitKind::DecodedAllocation,
                                self.limits.max_decoded_bytes(),
                                self.decoded_bytes,
                                len,
                            ),
                            Some(source),
                        ),
                    ),
                ),
            );
        }
        if !normalize_image_samples(&image, &mut samples) {
            return Err(broken_stop(source));
        }
        assert(samples@ =~= normalized(image@)->0);
        if samples.len() as u64 != len {
            return Err(broken_stop(source));
        }
        let scene = SceneImage {
            reference: image.reference,
            revision_startxref: image.resource.revision_startxref,
            decode_context: image.decode_context,
            width: image.width,
            height: image.height,
            color_space: scene_color_space(image.color_space),
            interpolate: image.interpolate,
            samples,
        };
        assert(scene@ == scene_image_of(image));
        self.images.push(scene);
        self.activity = ImageActivity::Building(len);
        assert(self@.images =~= old(self)@.images.push(scene_image_of(image)));
        Ok(ImageProgress::Build)
    }

    /// Installs the last image, once the scene took it.
    pub fn image_built(&mut self, result: Result<(), SceneError>) -> (outcome: Result<(), RunStop>)
        requires
            old(self).well_formed(),
            old(self).activity is Building,
        ensures
            final(self).well_formed(),
            final(self).limits == old(self).limits,
            match result {
                Ok(_) => {
                    &&& outcome is Ok
                    &&& final(self)@ == (ImageRuntimeView {
                        resources: with_resource(
                            old(self)@.resources,
                            PlannedResource::Image((old(self)@.images.len() - 1) as u64),
                        ),
                        activity: ImageActivity::Idle,
                        decoded_bytes: (old(self).decoded_bytes
                            + old(self).activity->Building_0) as u64,
                        ..old(self)@
                    })
                },
                Err(error) => outcome == Err::<(), RunStop>(
                    RunStop::Failed(ContentVmFailure::Scene(error)),
                ) && final(self)@ == old(self)@,
            },
    {
        match result {
            Ok(_) => {},
            Err(error) => {
                return Err(RunStop::Failed(ContentVmFailure::Scene(error)));
            },
        }
        proof {
            self.resources.well_formed_model();
        }
        if let ImageActivity::Building(len) = self.activity {
            if let Some(entry) = self.resources.next_acquisition() {
                let place: u64 = (self.images.len() - 1) as u64;
                let installed = self.resources.install(entry.key, PlannedResource::Image(place));
                self.decoded_bytes = self.decoded_bytes + len;
                self.activity = ImageActivity::Idle;
            }
        }
        Ok(())
    }

    /// Goes on with what a form job answered.
    pub fn form_polled<S: ByteSource, C: ContentCancellation>(
        &mut self,
        outcome: FormPoll,
        guard: &RuntimeGuard<'_, S, C>,
    ) -> (progress: Result<AcquisitionProgress, RunStop>)
        requires
            old(self).well_formed(),
            old(self).activity == ImageActivity::Form,
            old(self)@.resources.acquisition_cursor < old(self)@.resources.entries.len(),
        ensures
            final(self).well_formed(),
            final(self).limits == old(self).limits,
            ({
                let before = old(self)@;
                let entry = before.resources.entries[before.resources.acquisition_cursor];
                let bound = guard@.at(entry.key.snapshot);
                match progress {
                    Ok(AcquisitionProgress::Pending(read)) => outcome == FormPoll::Pending(read)
                        && final(self)@ == before,
                    Ok(AcquisitionProgress::Continue) => outcome matches FormPoll::Ready {
                        resource,
                        form,
                    } && resource == entry.key && final(self)@ == (ImageRuntimeView {
                        resources: with_resource(before.resources, PlannedResource::Form(form)),
                        activity: ImageActivity::Idle,
                        ..before
                    }),
                    Err(stop) => is_guard_stop(stop, Some(entry.source), bound) || (bound.clear()
                        && match outcome {
                        FormPoll::Pending(_) => false,
                        FormPoll::Unsupported(code) => stop == unsupported(
                            ContentUnsupportedKind::FormResource(code),
                            entry.source,
                        ),
                        FormPoll::Failed(error) => stop == RunStop::Failed(
                            ContentVmFailure::Document(error),
                        ),
                        FormPoll::Ready { resource, .. } => resource != entry.key && stop
                            == broken_at(entry.source),
                    }),
                }
            }),
    {
        proof {
            self.resources.well_formed_model();
        }
        let entry = match self.resources.next_acquisition() {
            Some(entry) => entry,
            None => {
                return Ok(AcquisitionProgress::Continue);
            },
        };
        match probe_at(entry.key, entry.source, guard) {
            Ok(_) => {},
            Err(stop) => {
                return Err(stop);
            },
        }
        match outcome {
            FormPoll::Pending(read) => Ok(AcquisitionProgress::Pending(read)),
            FormPoll::Unsupported(code) => Err(
                RunStop::Unsupported(
                    ContentUnsupported::new(
                        ContentUnsupportedKind::FormResource(code),
                        entry.source,
                    ),
                ),
            ),
            FormPoll::Failed(error) => Err(RunStop::Failed(ContentVmFailure::Document(error))),
            FormPoll::Ready { resource, form } => {
                if resource != entry.key {
                    return Err(broken_stop(entry.source));
                }
                let installed = self.resources.install(resource, PlannedResource::Form(form));
                self.activity = ImageActivity::Idle;
                Ok(AcquisitionProgress::Continue)
            },
        }
    }

    /// Goes on with what the interpretation of a form answered.
    pub fn interpretation_polled(&mut self, outcome: FormInterpretation) -> (progress: Result<
        AcquisitionProgress,
        RunStop,
    >)
        requires
            old(self).well_formed(),
            old(self).activity == ImageActivity::Interpreting,
            old(self)@.use_forms.len() < old(self)@.resources.uses.len(),
        ensures
            final(self).well_formed(),
            final(self).limits == old(self).limits,
            match outcome {
                FormInterpretation::Pending(read) => progress == Ok::<AcquisitionProgress, RunStop>(
                    AcquisitionProgress::Pending(read),
                ) && final(self)@ == old(self)@,
                FormInterpretation::Ready(form) => progress == Ok::<AcquisitionProgress, RunStop>(
                    AcquisitionProgress::Continue,
                ) && final(self)@ == (ImageRuntimeView {
                    activity: ImageActivity::Idle,
                    use_forms: old(self)@.use_forms.push(Some(form)),
                    ..old(self)@
                }),
                FormInterpretation::Unsupported(outcome) => progress == Err::<
                    AcquisitionProgress,
                    RunStop,
                >(RunStop::Unsupported(outcome)) && final(self)@ == old(self)@,
                FormInterpretation::Failed(failure) => progress == Err::<
                    AcquisitionProgress,
                    RunStop,
                >(RunStop::Failed(failure)) && final(self)@ == old(self)@,
            },
    {
        match outcome {
            FormInterpretation::Pending(read) => Ok(AcquisitionProgress::Pending(read)),
            FormInterpretation::Unsupported(outcome) => Err(RunStop::Unsupported(outcome)),
            FormInterpretation::Failed(failure) => Err(RunStop::Failed(failure)),
            FormInterpretation::Ready(form) => {
                self.use_forms.push(Some(form));
                self.activity = ImageActivity::Idle;
                Ok(AcquisitionProgress::Continue)
            },
        }
    }

    /// Resolves the next executed use.
    pub fn resolve_planned(&self, source: ContentOperatorSource) -> (resolved: Result<
        ResolvedXObject,
        ContentVmError,
    >)
        requires
            self.well_formed(),
        ensures
            resolved == resolved_object(self@, source),
    {
        proof {
            self.resources.well_formed_model();
        }
        let (usage, resource) = match self.resources.resolve_planned(source) {
            Ok(found) => found,
            Err(error) => {
                return Err(error);
            },
        };
        match resource {
            PlannedResource::Image(image) => {
                if image >= self.images.len() as u64 {
                    return Err(vm_error(ContentVmErrorCode::InternalState, source));
                }
                let scene = &self.images[image as usize];
                assert(self@.images[image as int] == scene@);
                Ok(
                    ResolvedXObject::Image {
                        resource: usage.key,
                        image,
                        resource_source: GraphicsResourceSource {
                            reference: scene.reference,
                            revision_startxref: scene.revision_startxref,
                            decode_context: scene.decode_context,
                        },
                    },
                )
            },
            PlannedResource::Form(_) => {
                let i: usize = self.resources.execution_position();
                if i < self.use_forms.len() {
                    if let Some(form) = self.use_forms[i] {
                        return Ok(ResolvedXObject::Form { resource: usage.key, form });
                    }
                }
                Err(vm_error(ContentVmErrorCode::InternalState, source))
            },
            PlannedResource::Font(_) => Err(vm_error(ContentVmErrorCode::InternalState, source)),
        }
    }

    /// Passes the use that was executed, and counts it where it is an image.
    pub fn record_executed_use(&mut self, source: ContentOperatorSource) -> (result: Result<
        (),
        ContentVmError,
    >)
        requires
            old(self).well_formed(),
        ensures
            final(self).well_formed(),
            final(self).limits == old(self).limits,
            match resolution(old(self)@.resources, source) {
                Ok((_, resource)) => result is Ok && final(self)@ == (ImageRuntimeView {
                    resources: ResourceView {
                        execution_cursor: old(self)@.resources.execution_cursor + 1,
                        ..old(self)@.resources
                    },
                    executed_images: if resource is Image {
                        (old(self)@.executed_images + 1) as u64
                    } else {
                        old(self)@.executed_images
                    },
                    ..old(self)@
                }),
                Err(error) => result == Err::<(), ContentVmError>(error) && final(self)@ == old(self)@,
            },
    {
        proof {
            self.resources.well_formed_model();
        }
        let resource = match self.resources.resolve_planned(source) {
            Ok((_, resource)) => resource,
            Err(error) => {
                return Err(error);
            },
        };
        let _uses: usize = self.resources.use_count();
        match self.resources.record_executed_use(source) {
            Ok(_) => {},
            Err(error) => {
                return Err(error);
            },
        }
        if let PlannedResource::Image(_) = resource {
            self.executed_images = self.executed_images + 1;
        }
        Ok(())
    }

    /// Returns how many uses are forms.
    pub fn form_use_count(&self) -> (count: usize)
        ensures
            count == forms_among(self@.use_forms, self@.use_forms.len() as int),
    {
        let mut count: usize = 0;
        let mut i: usize = 0;
        while i < self.use_forms.len()
            invariant
                i <= self.use_forms@.len(),
                count <= i,
                count == forms_among(self.use_forms@, i as int),
            decreases self.use_forms@.len() - i,
        {
            if self.use_forms[i].is_some() {
                count = count + 1;
            }
            i = i + 1;
        }
        count
    }
}

/// How many of the first `count` uses are forms.
pub open spec fn forms_among(uses: Seq<Option<u64>>, count: int) -> int
    decreases count,
{
    if count <= 0 {
        0
    } else {
        forms_among(uses, count - 1) + (if uses[count - 1] is Some {
            1int
        } else {
            0int
        })
    }
}

proof fn passing_only_adds(view: ImageRuntimeView)
    ensures
        images_passed(view).use_forms.len() >= view.use_forms.len(),
    decreases view.resources.uses.len() - view.use_forms.len(),
{
    let i = view.use_forms.len() as int;
    if i < view.resources.uses.len() && form_of(view.resources, i) is None {
        passing_only_adds(ImageRuntimeView { use_forms: view.use_forms.push(None), ..view });
    }
}

/// Whether the use at a place is one that is passed, or that stands next, where the objects of all
/// uses are there.
pub open spec fn is_passed_use(view: ImageRuntimeView, place: int) -> bool {
    view.use_forms.len() <= place <= images_passed(view).use_forms.len() && place
        < view.resources.uses.len()
}

/// Whether a stop is one that a guard of what is acquired next reports: that of the entry whose
/// object is missing, or that of a use which is passed or stands next.
pub open spec fn is_image_guard_stop(
    view: ImageRuntimeView,
    stop: RunStop,
    guard: GuardView,
) -> bool {
    let cursor = view.resources.acquisition_cursor;
    &&& view.resources.plan_complete
    &&& if cursor < view.resources.entries.len() {
        let entry = view.resources.entries[cursor];
        is_guard_stop(stop, Some(entry.source), guard.at(entry.key.snapshot))
    } else {
        exists|k: int| #[trigger]
            is_passed_use(view, k) && is_guard_stop(
                stop,
                Some(view.resources.uses[k].source),
                guard.at(view.resources.uses[k].key.snapshot),
            )
    }
}

/// Whether every guard of what is acquired next may let it go on.
pub open spec fn image_guards_clear(view: ImageRuntimeView, guard: GuardView) -> bool {
    let cursor = view.resources.acquisition_cursor;
    view.resources.plan_complete ==> if cursor < view.resources.entries.len() {
        guard.at(view.resources.entries[cursor].key.snapshot).clear()
    } else {
        forall|k: int| #[trigger]
            is_passed_use(view, k) ==> guard.at(view.resources.uses[k].key.snapshot).clear()
    }
}

/// Probes the guard of one planned resource.
fn probe_at<S: ByteSource, C: ContentCancellation>(
    key: ResourceProof,
    source: ContentOperatorSource,
    guard: &RuntimeGuard<'_, S, C>,
) -> (result: Result<(), RunStop>)
    ensures
        match result {
            Ok(_) => guard@.at(key.snapshot).clear(),
            Err(stop) => is_guard_stop(stop, Some(source), guard@.at(key.snapshot)),
        },
{
    match runtime_guard(key.snapshot, guard.source, guard.cancellation, Some(source)) {
        Ok(_) => Ok(()),
        Err(error) => {
            let stop = RunStop::Failed(ContentVmFailure::Vm(error));
            Err(stop)
        },
    }
}

} // verus!
