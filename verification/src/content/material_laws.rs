//! Laws of resources and of materialization.

use vstd::prelude::*;

use crate::content::font_limits::ContentFontLimits;
use crate::content::materialize::{
    material_next, material_resumed, MaterialStage, MaterialStep, MaterialView, SceneReply,
};
use crate::content::model::ContentOperatorSource;
use crate::content::plan::{ExecutionAction, TextShowItem};
use crate::content::resources::{
    registered, resolution, resources_ok, with_resource, PlannedResource, ResourceLimits,
    ResourceProof, ResourceView,
};
use crate::content::run::{font_place, stage_from, RunStage};
use crate::content::scene::Matrix;
use crate::content::text_model::{TextReply, TextStep};

verus! {

/// A registered use keeps its operator, its proof and its transform, after the uses before it; none
/// of those changes.
pub proof fn uses_keep_what_they_were_registered_with(
    view: ResourceView,
    limits: ResourceLimits,
    key: ResourceProof,
    transform: Matrix,
    source: ContentOperatorSource,
)
    ensures
        registered(view, limits, key, transform, source) matches Ok(after) ==> {
            &&& after.uses.len() == view.uses.len() + 1
            &&& after.uses.drop_last() == view.uses
            &&& after.uses.last().source == source
            &&& after.uses.last().key == key
            &&& after.uses.last().transform == transform
            &&& after.entries.len() >= view.entries.len()
            &&& after.entries.take(view.entries.len() as int) == view.entries
            &&& after.entries.len() > view.entries.len() ==> after.entries.last().key == key
                && after.entries.last().source == source && after.entries.last().resource is None
            &&& after.acquisition_cursor == view.acquisition_cursor
            &&& after.execution_cursor == view.execution_cursor
        },
{
    if let Ok(after) = registered(view, limits, key, transform, source) {
        assert(after.uses.drop_last() =~= view.uses);
        assert(after.entries.take(view.entries.len() as int) =~= view.entries);
    }
}

/// An acquired object belongs to the entry at hand, and to no other; the next one is acquired then.
pub proof fn acquired_objects_belong_to_their_entry(
    view: ResourceView,
    resource: PlannedResource,
    i: int,
)
    requires
        0 <= view.acquisition_cursor < view.entries.len(),
        0 <= i < view.entries.len(),
    ensures
        ({
            let after = with_resource(view, resource);
            &&& after.acquisition_cursor == view.acquisition_cursor + 1
            &&& after.entries.len() == view.entries.len()
            &&& after.entries[i].key == view.entries[i].key
            &&& after.entries[i].resource == if i == view.acquisition_cursor {
                Some(resource)
            } else {
                view.entries[i].resource
            }
            &&& after.uses == view.uses
        }),
{
}

/// Uses are executed in the order in which they were registered: the one at hand resolves to the
/// object of its own proof, and only for the operator that it was registered for.
pub proof fn uses_resolve_in_order(view: ResourceView, source: ContentOperatorSource)
    requires
        resources_ok(view),
        0 <= view.execution_cursor,
    ensures
        resolution(view, source) matches Ok((usage, resource)) ==> {
            &&& view.execution_cursor < view.uses.len()
            &&& usage == view.uses[view.execution_cursor]
            &&& usage.source == source
            &&& exists|i: int|
                0 <= i < view.entries.len() && (#[trigger] view.entries[i]).key == usage.key
                    && view.entries[i].resource == Some(resource)
        },
{
    if let Ok((usage, resource)) = resolution(view, source) {
        let i = usage.entry as int;
        assert(view.uses[view.execution_cursor] == usage);
        assert(view.entries[i].key == usage.key);
    }
}

/// Everything but text and external objects is handed to the scene as it was planned, in order:
/// the action at hand, and once the scene took it the one after.
pub proof fn actions_reach_the_scene_in_order(
    view: MaterialView,
    actions: Seq<ExecutionAction>,
    names: Seq<Seq<u8>>,
    items: Seq<Seq<TextShowItem>>,
    limits: Option<ContentFontLimits>,
)
    requires
        0 <= view.cursor < actions.len(),
        view.stage == MaterialStage::Ready,
        !(actions[view.cursor] is Text),
        !(actions[view.cursor] is DrawImage),
    ensures
        !(actions[view.cursor] is Restore) ==> material_next(view, actions, names, items, limits)
            is Ok,
        material_next(view, actions, names, items, limits) matches Ok((waiting, step)) ==> {
            &&& step == MaterialStep::Action(actions[view.cursor])
            &&& waiting.cursor == view.cursor
            &&& material_resumed(
                waiting,
                actions,
                names,
                items,
                limits,
                SceneReply::Scene(Ok(())),
            ) matches Ok((next, done)) && {
                &&& done == MaterialStep::Proceed
                &&& next.cursor == view.cursor + 1
                &&& next.stage == MaterialStage::Ready
                &&& next.image_uses == view.image_uses
                &&& next.form_uses == view.form_uses
                &&& next.font_uses == view.font_uses
                &&& next.images == view.images
                &&& next.fonts == view.fonts
            }
        },
{
}

/// Saving and restoring the graphics state saves and restores the text parameters: whatever was set
/// in between is undone. Nothing else of text changes.
pub proof fn restoring_restores_text_parameters(
    view: MaterialView,
    between: MaterialView,
    actions: Seq<ExecutionAction>,
    names: Seq<Seq<u8>>,
    items: Seq<Seq<TextShowItem>>,
    limits: Option<ContentFontLimits>,
)
    requires
        0 <= view.cursor < actions.len(),
        0 <= between.cursor < actions.len(),
        actions[view.cursor] is Save,
        actions[between.cursor] is Restore,
    ensures
        material_next(view, actions, names, items, limits) matches Ok((saved, _)) && {
            &&& saved.text.parameters == view.text.parameters
            &&& between.text.saved == saved.text.saved ==> (material_next(
                between,
                actions,
                names,
                items,
                limits,
            ) matches Ok((restored, _)) && {
                &&& restored.text.parameters == view.text.parameters
                &&& restored.text.saved == view.text.saved
                &&& restored.text.text_matrix == between.text.text_matrix
                &&& restored.text.line_matrix == between.text.line_matrix
            })
        },
{
    let saved = material_next(view, actions, names, items, limits)->Ok_0.0;
    assert(view.text.saved.push(view.text.parameters).drop_last() =~= view.text.saved);
}

/// An external object is the one that its use resolves to: an image is drawn as its action says, and
/// a form is appended. Once the scene took it, its use counts as executed.
pub proof fn objects_are_drawn_as_planned(
    view: MaterialView,
    actions: Seq<ExecutionAction>,
    names: Seq<Seq<u8>>,
    items: Seq<Seq<TextShowItem>>,
    limits: Option<ContentFontLimits>,
)
    requires
        0 <= view.cursor < actions.len(),
        actions[view.cursor] is DrawImage,
        view.images matches Some(images) ==> images.executed_images < u64::MAX,
    ensures
        material_next(view, actions, names, items, limits) matches Ok((waiting, step)) ==> {
            let action = actions[view.cursor];
            let source = action->DrawImage_source;
            &&& view.images matches Some(images) && (resolution(images.resources, source) matches Ok(
                (usage, resource),
            ) && {
                &&& match step {
                    MaterialStep::DrawImage {
                        image,
                        transform,
                        alpha,
                        blend_mode,
                        bounds,
                        source: command,
                    } => {
                        &&& resource == PlannedResource::Image(image)
                        &&& transform == action->DrawImage_transform
                        &&& alpha == action->DrawImage_alpha
                        &&& blend_mode == action->DrawImage_blend_mode
                        &&& bounds == action->DrawImage_bounds
                        &&& command == action->DrawImage_command_source
                    },
                    MaterialStep::AppendForm(form) => {
                        &&& resource is Form
                        &&& images.use_forms[images.resources.execution_cursor] == Some(form)
                    },
                    _ => false,
                }
                &&& material_resumed(
                    waiting,
                    actions,
                    names,
                    items,
                    limits,
                    SceneReply::Scene(Ok(())),
                ) matches Ok((next, _)) && {
                    &&& next.cursor == view.cursor + 1
                    &&& next.images matches Some(after) && after.resources.execution_cursor
                        == images.resources.execution_cursor + 1 && after.executed_images
                        == images.executed_images + (if step is DrawImage {
                        1int
                    } else {
                        0
                    })
                    &&& step is DrawImage ==> next.image_uses.len() == view.image_uses.len() + 1
                        && next.image_uses.last().resource == usage.key
                        && next.image_uses.last().image == step->DrawImage_image
                        && next.form_uses == view.form_uses
                    &&& step is AppendForm ==> next.form_uses.len() == view.form_uses.len() + 1
                        && next.form_uses.last().resource == usage.key
                        && next.form_uses.last().form == step->AppendForm_0 && next.image_uses
                        == view.image_uses
                }
            })
        },
{
}

/// What text asks of the scene layer is asked as it is, and the action is passed once text is done.
pub proof fn text_asks_as_it_is(
    view: MaterialView,
    actions: Seq<ExecutionAction>,
    names: Seq<Seq<u8>>,
    items: Seq<Seq<TextShowItem>>,
    limits: Option<ContentFontLimits>,
    reply: TextReply,
)
    requires
        view.stage == MaterialStage::Text,
        limits is Some,
        view.fonts is Some,
    ensures
        ({
            let scope = crate::content::text_model::TextScope {
                names,
                items,
                faces: view.fonts->0.faces,
                limits: limits->0@,
            };
            let source = crate::content::plan::action_source(actions[view.cursor]);
            crate::content::text_model::resumed(view.text, scope, reply, source) matches Ok(
                (text, ask),
            ) ==> (material_resumed(
                view,
                actions,
                names,
                items,
                limits,
                SceneReply::Text(reply),
            ) matches Ok((next, step)) && {
                &&& next.text == text
                &&& match ask {
                    TextStep::Product { left, right } => step == (MaterialStep::Product {
                        left,
                        right,
                    }) && next.cursor == view.cursor,
                    TextStep::Scaled { left, right } => step == (MaterialStep::Scaled {
                        left,
                        right,
                    }) && next.cursor == view.cursor,
                    TextStep::Draw => step == MaterialStep::DrawGlyphs && next.cursor
                        == view.cursor,
                    TextStep::Done => step == MaterialStep::Proceed && next.cursor == view.cursor
                        + 1,
                }
            })
        }),
{
}

/// How far a stage is.
pub open spec fn stage_rank(stage: RunStage) -> int {
    match stage {
        RunStage::Scan => 0,
        RunStage::Open => 1,
        RunStage::Plan => 2,
        RunStage::LookupImages => 3,
        RunStage::LookupFonts => 4,
        RunStage::AcquireImages => 5,
        RunStage::AcquireFonts => 6,
        RunStage::Execute => 7,
        RunStage::Done => 8,
    }
}

/// Lookups come before acquisitions, objects before fonts, and execution last: a stage that has
/// something to do is never passed over, and one that has nothing to do is.
pub proof fn stages_come_in_order(stage: RunStage, images: bool, fonts: bool, other: RunStage)
    requires
        3 <= stage_rank(stage) <= 7,
    ensures
        ({
            let reached = stage_from(stage, images, fonts);
            let busy = |some: RunStage|
                match some {
                    RunStage::LookupImages | RunStage::AcquireImages => images,
                    RunStage::LookupFonts | RunStage::AcquireFonts => fonts,
                    _ => true,
                };
            &&& stage_rank(stage) <= stage_rank(reached) <= 7
            &&& busy(reached)
            &&& stage_rank(stage) <= stage_rank(other) < stage_rank(reached) ==> !busy(other)
        }),
{
}

/// The font to look up next is that of the first selection that is left.
pub proof fn fonts_are_looked_up_in_order(actions: Seq<ExecutionAction>, i: int)
    requires
        0 <= i <= actions.len(),
    ensures
        ({
            let place = font_place(actions, i);
            &&& i <= place <= actions.len()
            &&& forall|k: int|
                i <= k < place ==> !(#[trigger] actions[k] is Text && actions[k]->Text_0 is SetFont)
            &&& place < actions.len() ==> actions[place] is Text && actions[place]->Text_0 is SetFont
        }),
    decreases actions.len() - i,
{
    if i < actions.len() && !(actions[i] is Text && actions[i]->Text_0 is SetFont) {
        fonts_are_looked_up_in_order(actions, i + 1);
    }
}

} // verus!
