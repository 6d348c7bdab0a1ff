//! Materialization: an execution plan, action by action, onto a scene.

use vstd::prelude::*;

use crate::bytes::model::ByteSource;
use crate::content::accounting::{capacity_bytes, larger, reserve_exact_slots, retained_sum};
use crate::content::font_limits::ContentFontLimits;
use crate::content::font_runtime::{FontRuntime, FontRuntimeView};
use crate::content::form_plan::ExecutionPlan;
use crate::content::guard::{
    is_guard_stop, is_memory_stop, no_guard, vm_stop, GuardView, RunStop, RuntimeGuard,
};
use crate::content::image_limits::ContentImageLimits;
use crate::content::image_runtime::{
    resolved_object, ImageRuntime, ImageRuntimeView, ResolvedXObject,
};
use crate::content::model::ContentOperatorSource;
use crate::content::plan::{
    action_operator_source, action_source, ExecutionAction, TextAction, TextShowItem,
};
use crate::content::planner::{item_views, name_views};
use crate::content::planner_model::{open_states, ResolvedImageUse, ResolvedPropertyUse};
use crate::content::resources::{resolution, PlannedResource, ResourceProof, ResourceView};
use crate::content::scanner::ContentCancellation;
use crate::content::scene::{
    BlendMode, CommandSource, GraphicsResourceSource, Matrix, SceneBounds, SceneScalar, SceneUnit,
};
use crate::content::text::{
    face_views, stage_allocates_nothing, stage_source, starts_run, text_ok, TextExecutor,
    TextSources,
};
use crate::content::text_model::{
    action_begun, boundary, broken, face_source, initial_execution, resumed, scene_stop, TextReply,
    TextScope, TextStep, TextView,
};
use crate::content::vm_error::{
    vm_error, vm_failure_of, ContentVmError, ContentVmErrorCode, ContentVmFailure, SceneError,
};
use crate::content::vm_limits::ContentVmLimits;

verus! {

/// One painted form.
#[derive(Clone, Copy, Debug, PartialEq, Eq, Structural)]
pub struct ResolvedFormUse {
    pub source: ContentOperatorSource,
    pub resource: ResourceProof,
    pub form: u64,
}

/// One selected font.
#[derive(Clone, Copy, Debug, PartialEq, Eq, Structural)]
pub struct ResolvedFontUse {
    pub source: ContentOperatorSource,
    pub resource: ResourceProof,
    pub face: u64,
    pub resource_source: GraphicsResourceSource,
}

/// What materialization waits for.
#[derive(Clone, Copy, Debug, PartialEq, Eq, Structural)]
pub enum MaterialStage {
    /// Nothing: the next action can begin.
    Ready,
    /// The scene, and the external object that it takes.
    Scene(Option<ResolvedXObject>),
    /// Text execution.
    Text,
}

/// What materialization asks for.
#[allow(inconsistent_fields)]
#[derive(Clone, Copy, PartialEq, Eq, Structural)]
pub enum MaterialStep {
    /// Nothing: it can go on.
    Proceed,
    /// One action on the scene, as it stands.
    Action(ExecutionAction),
    /// One image on the scene.
    DrawImage {
        image: u64,
        transform: Matrix,
        alpha: SceneUnit,
        blend_mode: BlendMode,
        bounds: SceneBounds,
        source: CommandSource,
    },
    /// The scene of one form.
    AppendForm(u64),
    /// The glyph run of the text executor.
    DrawGlyphs,
    /// The product of two transforms.
    Product { left: Matrix, right: Matrix },
    /// The product of two scalars.
    Scaled { left: SceneScalar, right: SceneScalar },
    /// The finished scene.
    Finish,
}

/// What the scene layer answered.
#[derive(Clone, Copy, Debug)]
pub enum SceneReply {
    /// The scene took an action, an image or a form.
    Scene(Result<(), SceneError>),
    /// Text execution can go on.
    Text(TextReply),
}

/// Materialization, as a value.
pub struct MaterialView {
    pub cursor: int,
    pub stage: MaterialStage,
    pub text: TextView,
    pub images: Option<ImageRuntimeView>,
    pub fonts: Option<FontRuntimeView>,
    pub image_uses: Seq<ResolvedImageUse>,
    pub form_uses: Seq<ResolvedFormUse>,
    pub font_uses: Seq<ResolvedFontUse>,
}

/// A step of materialization, or why it stops.
pub type MaterialOutcome = Result<(MaterialView, MaterialStep), RunStop>;

/// Materialization past the action at hand.
pub open spec fn passed(view: MaterialView) -> MaterialOutcome {
    Ok(
        (
            MaterialView { cursor: view.cursor + 1, stage: MaterialStage::Ready, ..view },
            MaterialStep::Proceed,
        ),
    )
}

/// What a step of text execution makes of materialization.
pub open spec fn text_stepped(view: MaterialView, text: TextView, step: TextStep) -> MaterialOutcome {
    let next = MaterialView { text, ..view };
    let waiting = MaterialView { stage: MaterialStage::Text, ..next };
    match step {
        TextStep::Done => passed(next),
        TextStep::Draw => Ok((waiting, MaterialStep::DrawGlyphs)),
        TextStep::Product { left, right } => Ok((waiting, MaterialStep::Product { left, right })),
        TextStep::Scaled { left, right } => Ok((waiting, MaterialStep::Scaled { left, right })),
    }
}

/// Executes a text action. A font selection takes the next planned font.
pub open spec fn text_action_begun(
    view: MaterialView,
    names: Seq<Seq<u8>>,
    items: Seq<Seq<TextShowItem>>,
    limits: ContentFontLimits,
    action: TextAction,
) -> MaterialOutcome {
    let source = action.spec_source();
    match view.fonts {
        None => Err(broken(source)),
        Some(fonts) => {
            let scope = TextScope { names, items, faces: fonts.faces, limits: limits@ };
            if action is SetFont {
                match resolution(fonts.resources, source) {
                    Err(error) => Err(vm_stop(error)),
                    Ok((usage, resource)) => match resource {
                        PlannedResource::Font(face) => if face >= fonts.faces.len() {
                            Err(broken(source))
                        } else {
                            let used = MaterialView {
                                fonts: Some(
                                    FontRuntimeView {
                                        resources: ResourceView {
                                            execution_cursor: fonts.resources.execution_cursor + 1,
                                            ..fonts.resources
                                        },
                                        ..fonts
                                    },
                                ),
                                font_uses: view.font_uses.push(
                                    ResolvedFontUse {
                                        source,
                                        resource: usage.key,
                                        face,
                                        resource_source: face_source(fonts.faces[face as int]),
                                    },
                                ),
                                ..view
                            };
                            match action_begun(view.text, scope, action, Some(face as usize)) {
                                Err(stop) => Err(stop),
                                Ok((text, step)) => text_stepped(used, text, step),
                            }
                        },
                        _ => Err(broken(source)),
                    },
                }
            } else {
                match action_begun(view.text, scope, action, None) {
                    Err(stop) => Err(stop),
                    Ok((text, step)) => text_stepped(view, text, step),
                }
            }
        },
    }
}

/// Paints an external object: the next planned one.
pub open spec fn object_begun(view: MaterialView, action: ExecutionAction) -> MaterialOutcome {
    let source = action->DrawImage_source;
    match view.images {
        None => Err(broken(source)),
        Some(images) => match resolved_object(images, source) {
            Err(error) => Err(vm_stop(error)),
            Ok(object) => {
                let waiting = MaterialView { stage: MaterialStage::Scene(Some(object)), ..view };
                match object {
                    ResolvedXObject::Image { image, .. } => Ok(
                        (
                            waiting,
                            MaterialStep::DrawImage {
                                image,
                                transform: action->DrawImage_transform,
                                alpha: action->DrawImage_alpha,
                                blend_mode: action->DrawImage_blend_mode,
                                bounds: action->DrawImage_bounds,
                                source: action->DrawImage_command_source,
                            },
                        ),
                    ),
                    ResolvedXObject::Form { form, .. } => Ok(
                        (waiting, MaterialStep::AppendForm(form)),
                    ),
                }
            },
        },
    }
}

/// Begins the action at hand.
pub open spec fn material_next(
    view: MaterialView,
    actions: Seq<ExecutionAction>,
    names: Seq<Seq<u8>>,
    items: Seq<Seq<TextShowItem>>,
    limits: Option<ContentFontLimits>,
) -> MaterialOutcome {
    if view.cursor >= actions.len() {
        Ok((view, MaterialStep::Finish))
    } else {
        let action = actions[view.cursor];
        let source = action_source(action);
        let waiting = MaterialView { stage: MaterialStage::Scene(None), ..view };
        match action {
            ExecutionAction::Save { .. } => Ok(
                (
                    MaterialView {
                        text: TextView {
                            saved: view.text.saved.push(view.text.parameters),
                            ..view.text
                        },
                        ..waiting
                    },
                    MaterialStep::Action(action),
                ),
            ),
            ExecutionAction::Restore { .. } => if view.text.saved.len() == 0 {
                Err(broken(source))
            } else {
                Ok(
                    (
                        MaterialView {
                            text: TextView {
                                parameters: view.text.saved.last(),
                                saved: view.text.saved.drop_last(),
                                ..view.text
                            },
                            ..waiting
                        },
                        MaterialStep::Action(action),
                    ),
                )
            },
            ExecutionAction::DrawImage { .. } => object_begun(view, action),
            ExecutionAction::Text(action) => if action is Begin || action is End {
                match boundary(view.text, action) {
                    Err(stop) => Err(stop),
                    Ok(text) => passed(MaterialView { text, ..view }),
                }
            } else if limits is None {
                Err(broken(source))
            } else {
                text_action_begun(view, names, items, limits->0, action)
            },
            _ => Ok((waiting, MaterialStep::Action(action))),
        }
    }
}

/// Takes note of an object that the scene took.
pub open spec fn object_taken(
    view: MaterialView,
    object: ResolvedXObject,
    source: ContentOperatorSource,
) -> MaterialView {
    match view.images {
        None => view,
        Some(images) => MaterialView {
            images: Some(
                ImageRuntimeView {
                    resources: ResourceView {
                        execution_cursor: images.resources.execution_cursor + 1,
                        ..images.resources
                    },
                    executed_images: if object is Image {
                        (images.executed_images + 1) as u64
                    } else {
                        images.executed_images
                    },
                    ..images
                },
            ),
            image_uses: match object {
                ResolvedXObject::Image { resource, image, resource_source } => view.image_uses.push(
                    ResolvedImageUse { source, resource, image, resource_source },
                ),
                _ => view.image_uses,
            },
            form_uses: match object {
                ResolvedXObject::Form { resource, form } => view.form_uses.push(
                    ResolvedFormUse { source, resource, form },
                ),
                _ => view.form_uses,
            },
            ..view
        },
    }
}

/// Goes on with a reply of the scene layer. A failure of the scene stops everything.
pub open spec fn material_resumed(
    view: MaterialView,
    actions: Seq<ExecutionAction>,
    names: Seq<Seq<u8>>,
    items: Seq<Seq<TextShowItem>>,
    limits: Option<ContentFontLimits>,
    reply: SceneReply,
) -> MaterialOutcome {
    let source = action_source(actions[view.cursor]);
    match (view.stage, reply) {
        (MaterialStage::Scene(_), SceneReply::Scene(Err(error))) => Err(scene_stop(error)),
        (MaterialStage::Scene(object), SceneReply::Scene(Ok(_))) => match object {
            None => passed(view),
            Some(object) => passed(object_taken(view, object, source)),
        },
        (MaterialStage::Text, SceneReply::Text(reply)) => {
            let scope = TextScope {
                names,
                items,
                faces: view.fonts->0.faces,
                limits: limits->0@,
            };
            match resumed(view.text, scope, reply, source) {
                Err(stop) => Err(stop),
                Ok((text, step)) => text_stepped(view, text, step),
            }
        },
        _ => Err(broken(source)),
    }
}

/// An execution plan on its way onto a scene.
pub struct Materializer {
    pub plan: ExecutionPlan,
    pub cursor: usize,
    pub stage: MaterialStage,
    pub text: TextExecutor,
    pub images: Option<ImageRuntime>,
    pub fonts: Option<FontRuntime>,
    pub form_uses: Vec<ResolvedFormUse>,
    pub font_uses: Vec<ResolvedFontUse>,
    pub peak_retained: u64,
}

/// What one interpretation leaves beside its scene.
pub struct Execution {
    pub property_uses: Vec<ResolvedPropertyUse>,
    pub image_uses: Vec<ResolvedImageUse>,
    pub form_uses: Vec<ResolvedFormUse>,
    pub font_uses: Vec<ResolvedFontUse>,
    pub retained_use_capacity_bytes: u64,
    pub final_ctm: Matrix,
}

impl View for Materializer {
    type V = MaterialView;

    open spec fn view(&self) -> MaterialView {
        MaterialView {
            cursor: self.cursor as int,
            stage: self.stage,
            text: self.text@,
            images: match self.images {
                Some(images) => Some(images@),
                None => None,
            },
            fonts: match self.fonts {
                Some(fonts) => Some(fonts@),
                None => None,
            },
            image_uses: self.plan.image_uses@,
            form_uses: self.form_uses@,
            font_uses: self.font_uses@,
        }
    }
}

fn broken_stop(source: ContentOperatorSource) -> (stop: RunStop)
    ensures
        stop == broken(source),
{
    RunStop::Failed(ContentVmFailure::Vm(vm_error(ContentVmErrorCode::InternalState, source)))
}

/// Whether a result is what the model says, or what a guard or memory decided.
pub open spec fn material_settled(
    result: Result<MaterialStep, RunStop>,
    expected: MaterialOutcome,
    reached: MaterialView,
    source: ContentOperatorSource,
    guard: GuardView,
) -> bool {
    match result {
        Ok(step) => expected == Ok::<(MaterialView, MaterialStep), RunStop>((reached, step)),
        Err(stop) => is_guard_stop(stop, Some(source), guard) || (is_memory_stop(stop) && room_made(
            expected,
        )) || expected == Err::<(MaterialView, MaterialStep), RunStop>(stop),
    }
}

/// Whether memory may decide a step that the model ends in `expected`: a text makes room for its
/// glyphs once everything but the arithmetic of the run is judged.
pub open spec fn room_made(expected: MaterialOutcome) -> bool {
    expected matches Err(stop) ==> stop matches RunStop::Failed(ContentVmFailure::Scene(_))
}

/// Whether a result is what the model says, or what a guard decided.
pub open spec fn material_settled_exactly(
    result: Result<MaterialStep, RunStop>,
    expected: MaterialOutcome,
    reached: MaterialView,
    source: ContentOperatorSource,
    guard: GuardView,
) -> bool {
    match result {
        Ok(step) => expected == Ok::<(MaterialView, MaterialStep), RunStop>((reached, step)),
        Err(stop) => is_guard_stop(stop, Some(source), guard) || expected == Err::<
            (MaterialView, MaterialStep),
            RunStop,
        >(stop),
    }
}

/// Whether beginning an action takes memory: a text makes room for its glyphs.
pub open spec fn begins_a_run(action: ExecutionAction) -> bool {
    action matches ExecutionAction::Text(text) && starts_run(text)
}

/// Whether every planned use was executed.
pub open spec fn uses_executed(material: Materializer) -> bool {
    &&& material.images matches Some(images) ==> images@.resources.execution_cursor
        == images@.resources.uses.len()
    &&& material.fonts matches Some(fonts) ==> fonts@.resources.execution_cursor
        == fonts@.resources.uses.len()
}

impl Materializer {
    /// The font budgets, where there are fonts.
    pub open spec fn font_limits(&self) -> Option<ContentFontLimits> {
        match self.fonts {
            Some(fonts) => Some(fonts.limits),
            None => None,
        }
    }

    /// The image budgets, where there are external objects.
    pub open spec fn image_limits(&self) -> Option<ContentImageLimits> {
        match self.images {
            Some(images) => Some(images.limits),
            None => None,
        }
    }

    /// What text is executed against.
    pub open spec fn scope(&self) -> TextScope {
        TextScope {
            names: name_views(self.plan.names@),
            items: item_views(self.plan.items@),
            faces: face_views(self.fonts->0.faces@),
            limits: self.fonts->0.limits@,
        }
    }

    /// The invariant: runtimes are well formed, and what is waited for belongs to the action at
    /// hand.
    pub open spec fn well_formed(&self) -> bool {
        &&& self.images matches Some(images) ==> images.well_formed()
        &&& self.fonts matches Some(fonts) ==> fonts.well_formed()
        &&& self.peak_observed()
        &&& self.cursor <= self.plan.actions@.len()
        &&& self.stage != MaterialStage::Ready ==> self.cursor < self.plan.actions@.len()
        &&& self.stage == MaterialStage::Text ==> {
            &&& self.fonts is Some
            &&& text_ok(self.text@, self.scope())
            &&& stage_source(
                self.text@.stage,
                action_source(self.plan.actions@[self.cursor as int]),
            )
        }
        &&& self.stage matches MaterialStage::Scene(Some(object)) ==> {
            &&& self.images is Some
            &&& resolved_object(
                self.images->0@,
                action_source(self.plan.actions@[self.cursor as int]),
            ) == Ok::<ResolvedXObject, ContentVmError>(object)
        }
    }

    /// Whether what text retained at most is taken note of.
    pub open spec fn peak_observed(&self) -> bool {
        &&& self.peak_retained >= retained_sum(
            self.text.base_retained + self.text.peak_glyph_retained,
        )
        &&& self.fonts matches Some(fonts) ==> fonts.glyph_retained
            >= self.text.peak_glyph_retained
    }

    /// Whether two materializations have one plan, the images that it painted so far aside, and the
    /// same budgets and room.
    pub open spec fn same_plan(&self, other: &Self) -> bool {
        &&& self.plan == (ExecutionPlan { image_uses: self.plan.image_uses, ..other.plan })
        &&& self.text.same_room(&other.text)
        &&& self.image_limits() == other.image_limits()
        &&& self.font_limits() == other.font_limits()
    }

    /// Starts with the first action. Room for uses and saved text parameters is made up front.
    pub fn new(
        plan: ExecutionPlan,
        images: Option<ImageRuntime>,
        fonts: Option<FontRuntime>,
        limits: ContentVmLimits,
        peak_retained: &mut u64,
    ) -> (materializer: Result<Self, ContentVmError>)
        requires
            images matches Some(runtime) ==> runtime.well_formed(),
            fonts matches Some(runtime) ==> runtime.well_formed(),
        ensures
            *final(peak_retained) >= *old(peak_retained),
            match materializer {
                Ok(value) => {
                    &&& value.well_formed()
                    &&& value.peak_retained == *final(peak_retained)
                    &&& value.text.peak_glyph_retained == 0
                    &&& value.plan == plan
                    &&& value.images == images
                    &&& value.fonts == fonts
                    &&& value.cursor == 0
                    &&& value.stage == MaterialStage::Ready
                    &&& value.text@ == initial_execution()
                    &&& value.text.saved_slots == plan.accounting.max_graphics_depth
                    &&& value.form_uses@.len() == 0
                    &&& value.font_uses@.len() == 0
                },
                Err(error) => error.is_memory_failure(),
            },
    {
        let live: u64 = plan.vm_retained_bytes();
        let expected_forms: usize = match &images {
            Some(runtime) => runtime.form_use_count(),
            None => 0,
        };
        let mut form_uses: Vec<ResolvedFormUse> = Vec::new();
        let form_bytes: u64 = match reserve_exact_slots(
            &mut form_uses,
            expected_forms,
            live,
            limits,
            None,
            peak_retained,
        ) {
            Ok(bytes) => bytes,
            Err(error) => {
                return Err(error);
            },
        };
        let before_fonts: u64 = live.saturating_add(form_bytes);
        let mut font_uses: Vec<ResolvedFontUse> = Vec::new();
        let font_bytes: u64 = match reserve_exact_slots(
            &mut font_uses,
            plan.font_use_count,
            before_fonts,
            limits,
            None,
            peak_retained,
        ) {
            Ok(bytes) => bytes,
            Err(error) => {
                return Err(error);
            },
        };
        let text = match TextExecutor::new(
            plan.accounting.max_graphics_depth as usize,
            limits,
            before_fonts.saturating_add(font_bytes),
            peak_retained,
        ) {
            Ok(text) => text,
            Err(error) => {
                return Err(error);
            },
        };
        let reached: u64 = text.peak_retained_bytes();
        if *peak_retained < reached {
            *peak_retained = reached;
        }
        Ok(
            Self {
                plan,
                cursor: 0,
                stage: MaterialStage::Ready,
                text,
                images,
                fonts,
                form_uses,
                font_uses,
                peak_retained: *peak_retained,
            },
        )
    }

    /// Takes note of what text retains.
    fn observe_text(&mut self)
        ensures
            final(self).peak_observed(),
            final(self).peak_retained >= old(self).peak_retained,
            *final(self) == (Self {
                peak_retained: final(self).peak_retained,
                fonts: final(self).fonts,
                ..*old(self)
            }),
            old(self).fonts is None ==> final(self).fonts is None,
            old(self).fonts matches Some(fonts) ==> final(self).fonts == Some(
                (FontRuntime {
                    glyph_retained: larger(fonts.glyph_retained, old(self).text.peak_glyph_retained),
                    ..fonts
                }),
            ),
    {
        let reached: u64 = self.text.peak_retained_bytes();
        if self.peak_retained < reached {
            self.peak_retained = reached;
        }
        if let Some(fonts) = &mut self.fonts {
            fonts.record_glyph_retained(self.text.peak_glyph_retained);
        }
    }

    /// Takes note of a step of text execution.
    fn text_step(&mut self, step: TextStep) -> (next: MaterialStep)
        requires
            old(self).images matches Some(images) ==> images.well_formed(),
            old(self).fonts is Some && old(self).fonts->0.well_formed(),
            old(self).peak_observed(),
            old(self).cursor < old(self).plan.actions@.len(),
            text_ok(old(self).text@, old(self).scope()),
            stage_source(
                old(self).text@.stage,
                action_source(old(self).plan.actions@[old(self).cursor as int]),
            ),
        ensures
            final(self).well_formed(),
            final(self).same_plan(old(self)),
            final(self).peak_retained == old(self).peak_retained,
            text_stepped(old(self)@, old(self)@.text, step) == Ok::<
                (MaterialView, MaterialStep),
                RunStop,
            >((final(self)@, next)),
    {
        match step {
            TextStep::Done => {
                assert(self.cursor < self.plan.actions.len());
                self.stage = MaterialStage::Ready;
                self.cursor = self.cursor + 1;
                MaterialStep::Proceed
            },
            TextStep::Draw => {
                self.stage = MaterialStage::Text;
                MaterialStep::DrawGlyphs
            },
            TextStep::Product { left, right } => {
                self.stage = MaterialStage::Text;
                MaterialStep::Product { left, right }
            },
            TextStep::Scaled { left, right } => {
                self.stage = MaterialStage::Text;
                MaterialStep::Scaled { left, right }
            },
        }
    }

    /// Executes a text action that is no boundary.
    fn begin_text<S: ByteSource, C: ContentCancellation>(
        &mut self,
        action: TextAction,
        guard: &RuntimeGuard<'_, S, C>,
    ) -> (result: Result<MaterialStep, RunStop>)
        requires
            old(self).well_formed(),
            old(self).cursor < old(self).plan.actions@.len(),
            old(self).plan.actions@[old(self).cursor as int] == ExecutionAction::Text(action),
            old(self).stage == MaterialStage::Ready,
        ensures
            ({
                let expected = if old(self).fonts is None {
                    Err(broken(action.spec_source()))
                } else {
                    text_action_begun(
                        old(self)@,
                        name_views(old(self).plan.names@),
                        item_views(old(self).plan.items@),
                        old(self).fonts->0.limits,
                        action,
                    )
                };
                &&& material_settled(result, expected, final(self)@, action.spec_source(), guard@)
                &&& !starts_run(action) ==> material_settled_exactly(
                    result,
                    expected,
                    final(self)@,
                    action.spec_source(),
                    guard@,
                )
            }),
            result is Ok ==> final(self).well_formed() && final(self).same_plan(old(self)),
            final(self).peak_observed(),
            final(self).peak_retained >= old(self).peak_retained,
    {
        let source = action.source();
        let mut face: Option<usize> = None;
        match &mut self.fonts {
            None => {
                return Err(broken_stop(source));
            },
            Some(fonts) => {
                if let TextAction::SetFont { .. } = action {
                    proof {
                        fonts.resources.well_formed_model();
                    }
                    match fonts.resources.resolve_planned(source) {
                        Err(error) => {
                            return Err(RunStop::Failed(ContentVmFailure::Vm(error)));
                        },
                        Ok((usage, resource)) => match resource {
                            PlannedResource::Font(place) => {
                                if place >= fonts.faces.len() as u64 {
                                    return Err(broken_stop(source));
                                }
                                assert(face_views(fonts.faces@)[place as int]
                                    == fonts.faces@[place as int]@);
                                let resource_source =
                                    fonts.faces[place as usize].resource_source();
                                match fonts.resources.record_executed_use(source) {
                                    Ok(_) => {},
                                    Err(error) => {
                                        return Err(
                                            RunStop::Failed(ContentVmFailure::Vm(error)),
                                        );
                                    },
                                }
                                self.font_uses.push(
                                    ResolvedFontUse {
                                        source,
                                        resource: usage.key,
                                        face: place,
                                        resource_source,
                                    },
                                );
                                face = Some(place as usize);
                            },
                            _ => {
                                return Err(broken_stop(source));
                            },
                        },
                    }
                }
            },
        }
        let result = match &self.fonts {
            None => Err(broken_stop(source)),
            Some(fonts) => {
                let sources = TextSources {
                    names: &self.plan.names,
                    items: &self.plan.items,
                    faces: &fonts.faces,
                    limits: fonts.limits,
                };
                self.text.execute(action, face, &sources, guard)
            },
        };
        self.observe_text();
        match result {
            Ok(step) => {
                if step == TextStep::Done {
                    match guard.probe(Some(source)) {
                        Ok(_) => {},
                        Err(stop) => {
                            return Err(stop);
                        },
                    }
                }
                Ok(self.text_step(step))
            },
            Err(stop) => Err(stop),
        }
    }

    /// Begins the action at hand.
    #[verifier::rlimit(30)]
    pub fn next<S: ByteSource, C: ContentCancellation>(
        &mut self,
        guard: &RuntimeGuard<'_, S, C>,
    ) -> (result: Result<MaterialStep, RunStop>)
        requires
            old(self).well_formed(),
            old(self).stage == MaterialStage::Ready,
        ensures
            old(self).cursor == old(self).plan.actions@.len() ==> result == Ok::<
                MaterialStep,
                RunStop,
            >(MaterialStep::Finish) && *final(self) == *old(self),
            old(self).cursor < old(self).plan.actions@.len() ==> {
                let action = old(self).plan.actions@[old(self).cursor as int];
                let expected = material_next(
                    old(self)@,
                    old(self).plan.actions@,
                    name_views(old(self).plan.names@),
                    item_views(old(self).plan.items@),
                    old(self).font_limits(),
                );
                if begins_a_run(action) {
                    material_settled(result, expected, final(self)@, action_source(action), guard@)
                } else if action is Save && old(self).text@.saved.len() >= old(
                    self,
                ).text.saved_slots {
                    result matches Err(stop) && (is_guard_stop(
                        stop,
                        Some(action_source(action)),
                        guard@,
                    )
                        || stop == broken(action_source(action)))
                } else {
                    material_settled_exactly(
                        result,
                        expected,
                        final(self)@,
                        action_source(action),
                        guard@,
                    )
                }
            },
            result is Ok ==> final(self).well_formed() && final(self).same_plan(old(self)),
            old(self).cursor < old(self).plan.actions@.len() ==> guard@.clear() || (result matches Err(
                stop,
            ) && is_guard_stop(
                stop,
                Some(action_source(old(self).plan.actions@[old(self).cursor as int])),
                guard@,
            )),
            final(self).peak_observed(),
            final(self).peak_retained >= old(self).peak_retained,
    {
        if self.cursor >= self.plan.actions.len() {
            return Ok(MaterialStep::Finish);
        }
        let action = self.plan.actions[self.cursor];
        let source = action_operator_source(&action);
        match guard.probe(Some(source)) {
            Ok(_) => {},
            Err(stop) => {
                return Err(stop);
            },
        }
        let result = match action {
            ExecutionAction::Save { .. } => match self.text.save_parameters(source) {
                Ok(_) => {
                    self.stage = MaterialStage::Scene(None);
                    Ok(MaterialStep::Action(action))
                },
                Err(error) => Err(RunStop::Failed(ContentVmFailure::Vm(error))),
            },
            ExecutionAction::Restore { .. } => match self.text.restore_parameters(source) {
                Ok(_) => {
                    self.stage = MaterialStage::Scene(None);
                    Ok(MaterialStep::Action(action))
                },
                Err(error) => Err(RunStop::Failed(ContentVmFailure::Vm(error))),
            },
            ExecutionAction::DrawImage {
                source: operator,
                command_source,
                transform,
                alpha,
                blend_mode,
                bounds,
            } => match &self.images {
                None => Err(broken_stop(source)),
                Some(images) => match images.resolve_planned(operator) {
                    Err(error) => Err(RunStop::Failed(ContentVmFailure::Vm(error))),
                    Ok(object) => {
                        self.stage = MaterialStage::Scene(Some(object));
                        match object {
                            ResolvedXObject::Image { image, .. } => Ok(
                                MaterialStep::DrawImage {
                                    image,
                                    transform,
                                    alpha,
                                    blend_mode,
                                    bounds,
                                    source: command_source,
                                },
                            ),
                            ResolvedXObject::Form { form, .. } => Ok(
                                MaterialStep::AppendForm(form),
                            ),
                        }
                    },
                },
            },
            ExecutionAction::Text(text) => match text {
                TextAction::Begin { .. } | TextAction::End { .. } => {
                    match self.text.execute_boundary(text) {
                        Ok(_) => {
                            self.cursor = self.cursor + 1;
                            Ok(MaterialStep::Proceed)
                        },
                        Err(stop) => Err(stop),
                    }
                },
                _ => self.begin_text(text, guard),
            },
            _ => {
                self.stage = MaterialStage::Scene(None);
                Ok(MaterialStep::Action(action))
            },
        };
        match result {
            Ok(step) => Ok(step),
            Err(stop) => Err(guard.prioritize(Some(source), stop)),
        }
    }

    /// Goes on with a reply of the scene layer.
    #[verifier::rlimit(30)]
    pub fn resume<S: ByteSource, C: ContentCancellation>(
        &mut self,
        reply: SceneReply,
        guard: &RuntimeGuard<'_, S, C>,
    ) -> (result: Result<MaterialStep, RunStop>)
        requires
            old(self).well_formed(),
            old(self).stage != MaterialStage::Ready,
        ensures
            material_settled(
                result,
                material_resumed(
                    old(self)@,
                    old(self).plan.actions@,
                    name_views(old(self).plan.names@),
                    item_views(old(self).plan.items@),
                    old(self).font_limits(),
                    reply,
                ),
                final(self)@,
                action_source(old(self).plan.actions@[old(self).cursor as int]),
                guard@,
            ),
            old(self).stage != MaterialStage::Text || stage_allocates_nothing(old(self).text@.stage)
                ==> material_settled_exactly(
                result,
                material_resumed(
                    old(self)@,
                    old(self).plan.actions@,
                    name_views(old(self).plan.names@),
                    item_views(old(self).plan.items@),
                    old(self).font_limits(),
                    reply,
                ),
                final(self)@,
                action_source(old(self).plan.actions@[old(self).cursor as int]),
                guard@,
            ),
            result is Ok ==> final(self).well_formed() && final(self).same_plan(old(self)),
            ({
                let expected = material_resumed(
                    old(self)@,
                    old(self).plan.actions@,
                    name_views(old(self).plan.names@),
                    item_views(old(self).plan.items@),
                    old(self).font_limits(),
                    reply,
                );
                expected matches Ok((_, step)) ==> (old(self).stage != MaterialStage::Text || (
                stage_allocates_nothing(old(self).text@.stage) && step != MaterialStep::Proceed)
                    ==> result is Ok)
            }),
            result matches Err(stop) ==> guard@.clear() || is_guard_stop(
                stop,
                Some(action_source(old(self).plan.actions@[old(self).cursor as int])),
                guard@,
            ),
            final(self).peak_observed(),
            final(self).peak_retained >= old(self).peak_retained,
    {
        let action = self.plan.actions[self.cursor];
        let source = action_operator_source(&action);
        let result = match (self.stage, reply) {
            (MaterialStage::Scene(_), SceneReply::Scene(Err(error))) => Err(
                RunStop::Failed(ContentVmFailure::Scene(error)),
            ),
            (MaterialStage::Scene(object), SceneReply::Scene(Ok(_))) => {
                match object {
                    None => {
                        assert(self.cursor < self.plan.actions.len());
                        self.stage = MaterialStage::Ready;
                        self.cursor = self.cursor + 1;
                        Ok(MaterialStep::Proceed)
                    },
                    Some(object) => self.take_object(object, source),
                }
            },
            (MaterialStage::Text, SceneReply::Text(reply)) => {
                let resumed_text = match &self.fonts {
                    None => Err(broken_stop(source)),
                    Some(fonts) => {
                        let sources = TextSources {
                            names: &self.plan.names,
                            items: &self.plan.items,
                            faces: &fonts.faces,
                            limits: fonts.limits,
                        };
                        self.text.resume(reply, source, &sources, guard)
                    },
                };
                self.observe_text();
                match resumed_text {
                    Ok(step) => {
                        if step == TextStep::Done {
                            match guard.probe(Some(source)) {
                                Ok(_) => {},
                                Err(stop) => {
                                    return Err(stop);
                                },
                            }
                        }
                        Ok(self.text_step(step))
                    },
                    Err(stop) => Err(stop),
                }
            },
            _ => Err(broken_stop(source)),
        };
        match result {
            Ok(step) => Ok(step),
            Err(stop) => Err(guard.prioritize(Some(source), stop)),
        }
    }

    /// Takes note of an object that the scene took.
    fn take_object(&mut self, object: ResolvedXObject, source: ContentOperatorSource) -> (result: Result<
        MaterialStep,
        RunStop,
    >)
        requires
            old(self).well_formed(),
            old(self).stage == MaterialStage::Scene(Some(object)),
            source == action_source(old(self).plan.actions@[old(self).cursor as int]),
        ensures
            material_settled_exactly(
                result,
                passed(object_taken(old(self)@, object, source)),
                final(self)@,
                source,
                no_guard(),
            ),
            result is Ok ==> final(self).well_formed() && final(self).same_plan(old(self)),
            final(self).peak_observed(),
            final(self).peak_retained >= old(self).peak_retained,
    {
        match object {
            ResolvedXObject::Image { resource, image, resource_source } => {
                self.plan.image_uses.push(
                    ResolvedImageUse { source, resource, image, resource_source },
                );
            },
            ResolvedXObject::Form { resource, form } => {
                self.form_uses.push(ResolvedFormUse { source, resource, form });
            },
        }
        match &mut self.images {
            None => {
                return Err(broken_stop(source));
            },
            Some(images) => match images.record_executed_use(source) {
                Ok(_) => {},
                Err(error) => {
                    return Err(RunStop::Failed(ContentVmFailure::Vm(error)));
                },
            },
        }
        assert(self.cursor < self.plan.actions.len());
        self.stage = MaterialStage::Ready;
        self.cursor = self.cursor + 1;
        Ok(MaterialStep::Proceed)
    }

    /// Ends materialization, given whether the scene could be finished. Every planned use must be
    /// executed.
    pub fn finish<S: ByteSource, C: ContentCancellation>(
        self,
        finished: Result<(), SceneError>,
        guard: &RuntimeGuard<'_, S, C>,
    ) -> (execution: Result<Execution, RunStop>)
        requires
            self.well_formed(),
            self.stage == MaterialStage::Ready,
            self.cursor == self.plan.actions@.len(),
        ensures
            ({
                let complete = uses_executed(self);
                match execution {
                    Ok(value) => {
                        &&& guard@.clear()
                        &&& finished is Ok
                        &&& complete
                        &&& value.property_uses == self.plan.property_uses
                        &&& value.image_uses == self.plan.image_uses
                        &&& value.form_uses == self.form_uses
                        &&& value.font_uses == self.font_uses
                        &&& value.final_ctm == self.plan.final_ctm
                    },
                    Err(stop) => {
                        ||| is_guard_stop(stop, None, guard@)
                        ||| guard@.clear() && finished is Err && stop == scene_stop(
                            finished->Err_0,
                        )
                        ||| guard@.clear() && finished is Ok && !complete && stop == vm_stop(
                            vm_failure_of(ContentVmErrorCode::InternalState, None),
                        )
                    },
                }
            }),
    {
        match finished {
            Ok(_) => {},
            Err(error) => {
                return Err(
                    guard.prioritize(None, RunStop::Failed(ContentVmFailure::Scene(error))),
                );
            },
        }
        match guard.probe(None) {
            Ok(_) => {},
            Err(stop) => {
                return Err(stop);
            },
        }
        if let Some(images) = &self.images {
            match images.resources.finish_execution() {
                Ok(_) => {},
                Err(error) => {
                    return Err(
                        guard.prioritize(None, RunStop::Failed(ContentVmFailure::Vm(error))),
                    );
                },
            }
        }
        if let Some(fonts) = &self.fonts {
            match fonts.resources.finish_execution() {
                Ok(_) => {},
                Err(error) => {
                    return Err(
                        guard.prioritize(None, RunStop::Failed(ContentVmFailure::Vm(error))),
                    );
                },
            }
        }
        let properties: u64 = capacity_bytes(&self.plan.property_uses);
        let images: u64 = capacity_bytes(&self.plan.image_uses);
        let forms: u64 = capacity_bytes(&self.form_uses);
        let fonts: u64 = capacity_bytes(&self.font_uses);
        Ok(
            Execution {
                property_uses: self.plan.property_uses,
                image_uses: self.plan.image_uses,
                form_uses: self.form_uses,
                font_uses: self.font_uses,
                retained_use_capacity_bytes: properties.saturating_add(images).saturating_add(
                    forms,
                ).saturating_add(fonts),
                final_ctm: self.plan.final_ctm,
            },
        )
    }
}

/// The invariant of saved text parameters: as many are saved as the actions so far leave graphics
/// states open. An action that waits for the scene counts.
pub open spec fn saved_ok(view: MaterialView, actions: Seq<ExecutionAction>) -> bool {
    let count = if view.stage is Scene {
        view.cursor + 1
    } else {
        view.cursor
    };
    view.text.saved.len() == open_states(actions, count)
}

/// Beginning an action keeps saved text parameters in step with the plan.
pub proof fn beginning_keeps_saved_text(
    view: MaterialView,
    actions: Seq<ExecutionAction>,
    names: Seq<Seq<u8>>,
    items: Seq<Seq<TextShowItem>>,
    limits: Option<ContentFontLimits>,
)
    requires
        view.stage == MaterialStage::Ready,
        0 <= view.cursor,
        saved_ok(view, actions),
    ensures
        material_next(view, actions, names, items, limits) matches Ok((next, _)) ==> saved_ok(
            next,
            actions,
        ),
{
}

/// Going on keeps saved text parameters in step with the plan.
pub proof fn resuming_keeps_saved_text(
    view: MaterialView,
    actions: Seq<ExecutionAction>,
    names: Seq<Seq<u8>>,
    items: Seq<Seq<TextShowItem>>,
    limits: Option<ContentFontLimits>,
    reply: SceneReply,
)
    requires
        0 <= view.cursor < actions.len(),
        view.stage == MaterialStage::Text ==> actions[view.cursor] is Text,
        saved_ok(view, actions),
    ensures
        material_resumed(view, actions, names, items, limits, reply) matches Ok((next, _))
            ==> saved_ok(next, actions),
{
}

} // verus!
