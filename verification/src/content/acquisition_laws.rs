//! Laws of the acquisition of external objects and fonts, and of what content starts with.

use vstd::prelude::*;

use crate::content::font_limits::ContentFontLimits;
use crate::content::font_runtime::{font_acquired, font_next, FontRuntimeView, FontStep};
use crate::content::geometry::{carried_x, carried_y};
use crate::content::guard::RunStop;
use crate::content::image_limits::ContentImageLimits;
use crate::content::image_runtime::{
    form_of, image_acquired, image_next, images_passed, ImageActivity, ImageRuntimeView, ImageStep,
};
use crate::content::image_samples::{normalized, AcquiredImage};
use crate::content::material_laws::uses_keep_what_they_were_registered_with;
use crate::content::model::ContentOperatorSource;
use crate::content::plan::action_source;
use crate::content::planner_model::initial_plan;
use crate::content::resources::{
    entry_index, registered, resources_ok, PlannedEntry, PlannedResource, ResourceLimits,
    ResourceProof, ResourceView,
};
use crate::content::run::{
    font_registered, image_registered, looked_up, FontLookup, ImageLookup, Interpretation,
};
use crate::content::scene::{identity_matrix, BlendMode, DeviceColor, LineCap, LineJoin, Matrix};
use crate::content::text_model::{initial_execution, FaceView};
use crate::content::vm_error::ContentVmFailure;

verus! {

/// An external object that was found is registered where it was invoked: behind the earlier uses,
/// under its own proof, with the operator and the transform of its invocation. One that was not
/// found is not.
pub proof fn found_objects_are_registered_as_invoked(before: Interpretation, outcome: ImageLookup)
    ensures
        image_registered(before, outcome) matches Ok(after) ==> {
            let invocation = before.plan->0.image_invocations@[before.lookup as int];
            let resources = before.images->0@.resources;
            &&& outcome matches ImageLookup::Ready(key) && after.uses.last().key == key
            &&& after.uses.len() == resources.uses.len() + 1
            &&& after.uses.drop_last() == resources.uses
            &&& after.uses.last().source == invocation.source
            &&& after.uses.last().transform == invocation.transform
        },
        outcome is Failed && before.images->0@.resources.stats.lookups < u64::MAX ==> image_registered(before, outcome) == Err::<ResourceView, RunStop>(
            RunStop::Failed(ContentVmFailure::Document(outcome->Failed_0)),
        ),
{
    let invocation = before.plan->0.image_invocations@[before.lookup as int];
    if let Ok(counted) = looked_up(before.images->0@.resources, invocation.source) {
        if let ImageLookup::Ready(key) = outcome {
            uses_keep_what_they_were_registered_with(
                counted,
                ResourceLimits::Image(before.images->0.limits),
                key,
                invocation.transform,
                invocation.source,
            );
        }
    }
}

/// A font that was found is registered where it was selected: behind the earlier uses, under its own
/// proof, with the operator of its selection. One that was not found is not.
pub proof fn found_fonts_are_registered_as_selected(
    before: Interpretation,
    place: int,
    outcome: FontLookup,
)
    ensures
        font_registered(before, place, outcome) matches Ok(after) ==> {
            let resources = before.fonts->0@.resources;
            &&& outcome matches FontLookup::Ready(key) && after.uses.last().key == key
            &&& after.uses.len() == resources.uses.len() + 1
            &&& after.uses.drop_last() == resources.uses
            &&& after.uses.last().source == action_source(before.plan->0.actions@[place])
        },
        outcome is Failed && before.fonts->0@.resources.stats.lookups < u64::MAX ==> font_registered(before, place, outcome) == Err::<ResourceView, RunStop>(
            RunStop::Failed(ContentVmFailure::Document(outcome->Failed_0)),
        ),
{
    let source = action_source(before.plan->0.actions@[place]);
    if let Ok(counted) = looked_up(before.fonts->0@.resources, source) {
        if let FontLookup::Ready(key) = outcome {
            uses_keep_what_they_were_registered_with(
                counted,
                ResourceLimits::Font(before.fonts->0.limits),
                key,
                identity_matrix(),
                source,
            );
        }
    }
}

proof fn entries_are_found(entries: Seq<PlannedEntry>, key: ResourceProof, i: int)
    requires
        0 <= i <= entries.len(),
    ensures
        ({
            let found = entry_index(entries, key, i);
            &&& i <= found <= entries.len()
            &&& found < entries.len() ==> entries[found].key == key
            &&& forall|k: int| i <= k < found ==> (#[trigger] entries[k]).key != key
        }),
    decreases entries.len() - i,
{
    if i < entries.len() && entries[i].key != key {
        entries_are_found(entries, key, i + 1);
    }
}

/// Uses of one object share its entry: a use whose proof has an entry refers to it and counts a hit,
/// and any other one gets the next entry. Each entry that is looked at counts a probe, up to the one
/// that is found.
pub proof fn uses_of_one_object_share_their_entry(
    view: ResourceView,
    limits: ResourceLimits,
    key: ResourceProof,
    transform: Matrix,
    source: ContentOperatorSource,
)
    ensures
        registered(view, limits, key, transform, source) matches Ok(after) ==> {
            let place = after.uses.last().entry as int;
            let hit = exists|k: int|
                0 <= k < view.entries.len() && (#[trigger] view.entries[k]).key == key;
            &&& after.entries.len() == view.entries.len() + (if hit {
                0int
            } else {
                1int
            })
            &&& 0 <= place < after.entries.len() && after.entries[place].key == key
            &&& forall|k: int| 0 <= k < place ==> (#[trigger] view.entries[k]).key != key
            &&& after.stats.cache_hits == view.stats.cache_hits + (if hit {
                1int
            } else {
                0int
            })
            &&& after.stats.cache_probes == view.stats.cache_probes + place + (if hit {
                1int
            } else {
                0int
            })
        },
{
    entries_are_found(view.entries, key, 0);
    if let Ok(after) = registered(view, limits, key, transform, source) {
        let found = entry_index(view.entries, key, 0);
        if found < view.entries.len() {
            assert(view.entries[found].key == key);
        } else {
            assert(after.entries[found].key == key);
        }
    }
}

/// Fonts are acquired one after the other: the first that is missing is asked for, its job is called
/// until it answers, each call counted, and acquisition is complete exactly where none is missing.
pub proof fn fonts_are_acquired_in_order(view: FontRuntimeView, limits: ResourceLimits)
    requires
        resources_ok(view.resources),
        view.resources.plan_complete,
    ensures
        font_next(view, limits) matches Ok((next, step)) ==> {
            &&& step is Complete <==> forall|i: int|
                0 <= i < view.resources.entries.len() ==> (
                #[trigger] view.resources.entries[i]).resource is Some
            &&& step matches FontStep::Acquire(key) ==> next == view && !view.active && exists|i: int|
                {
                    &&& 0 <= i < view.resources.entries.len()
                    &&& (#[trigger] view.resources.entries[i]).key == key
                    &&& view.resources.entries[i].resource is None
                    &&& forall|j: int|
                        0 <= j < i ==> (#[trigger] view.resources.entries[j]).resource is Some
                }
            &&& step is Poll ==> view.active && next.resources.stats.acquisition_polls
                == view.resources.stats.acquisition_polls + 1
            &&& next.resources.entries == view.resources.entries
            &&& next.resources.uses == view.resources.uses
            &&& next.faces == view.faces
            &&& next.resource_retained == view.resource_retained
        },
        !view.active ==> font_next(view, limits) is Ok,
{
    let entries = view.resources.entries;
    let cursor = view.resources.acquisition_cursor;
    if cursor < entries.len() {
        assert(entries[cursor].resource is None);
    }
}

/// An acquired font is the face of the entry that asked for it, and of no other: it stands behind
/// the faces before it, and what it retains is added. It is taken exactly where its proof is that of
/// the entry and what all fonts retain stays within its budget.
pub proof fn acquired_fonts_are_the_faces_of_their_entries(
    view: FontRuntimeView,
    limits: ContentFontLimits,
    resource: ResourceProof,
    retained: u64,
    face: FaceView,
    i: int,
)
    requires
        0 <= view.resources.acquisition_cursor < view.resources.entries.len(),
        0 <= i < view.resources.entries.len(),
        view.faces.len() <= u64::MAX,
    ensures
        ({
            let cursor = view.resources.acquisition_cursor;
            let entries = view.resources.entries;
            &&& font_acquired(view, limits, resource, retained, face) is Ok <==> entries[cursor].key
                == resource && view.resource_retained + retained
                <= limits@.max_resource_retained_bytes
            &&& font_acquired(view, limits, resource, retained, face) matches Ok(after) ==> {
                &&& after.faces.len() == view.faces.len() + 1
                &&& after.faces.last() == face
                &&& after.faces.drop_last() == view.faces
                &&& after.resource_retained == view.resource_retained + retained
                &&& !after.active
                &&& after.resources.acquisition_cursor == cursor + 1
                &&& after.resources.uses == view.resources.uses
                &&& after.resources.entries.len() == entries.len()
                &&& after.resources.entries[cursor].key == resource
                &&& after.resources.entries[cursor].resource matches Some(PlannedResource::Font(k))
                    && after.faces[k as int] == face
                &&& i != cursor ==> after.resources.entries[i] == entries[i]
            }
        }),
{
    if let Ok(after) = font_acquired(view, limits, resource, retained, face) {
        assert(after.faces.drop_last() =~= view.faces);
    }
}

/// An acquired image is taken exactly where its proof is that of the entry at hand, the length that
/// it reports is the one it has, its samples are all there, and they stay within the budget. It then
/// stands behind the images before it.
pub proof fn complete_images_are_taken(
    view: ImageRuntimeView,
    limits: ContentImageLimits,
    image: AcquiredImage,
)
    ensures
        ({
            let len = image.width * image.height * image.components;
            let entry = view.resources.entries[view.resources.acquisition_cursor];
            &&& image_acquired(view, limits, image) is Ok <==> {
                &&& entry.key == image.resource
                &&& image.reported_decoded_bytes == image.decoded@.len()
                &&& view.decoded_bytes + len <= limits@.max_decoded_bytes
                &&& normalized(image@) matches Some(samples) && samples.len() == len
            }
            &&& image_acquired(view, limits, image) matches Ok(after) ==> {
                &&& after.images.len() == view.images.len() + 1
                &&& after.images.drop_last() == view.images
                &&& after.activity == ImageActivity::Building(len as u64)
                &&& after.resources == view.resources
                &&& after.use_forms == view.use_forms
            }
        }),
{
    let len = image.width * image.height * image.components;
    assert(len >= 0) by (nonlinear_arith)
        requires
            len == image.width * image.height * image.components,
            image.width >= 0,
            image.height >= 0,
            image.components >= 0,
    ;
    if let Ok(after) = image_acquired(view, limits, image) {
        assert(after.images.drop_last() =~= view.images);
    }
}

pub(crate) proof fn passing_stops_at_the_first_form(view: ImageRuntimeView)
    requires
        view.use_forms.len() <= view.resources.uses.len(),
    ensures
        ({
            let next = images_passed(view);
            let n = next.use_forms.len() as int;
            &&& view.use_forms.len() <= n <= view.resources.uses.len()
            &&& next == (ImageRuntimeView { use_forms: next.use_forms, ..view })
            &&& forall|k: int|
                0 <= k < view.use_forms.len() ==> #[trigger] next.use_forms[k] == view.use_forms[k]
            &&& forall|k: int|
                view.use_forms.len() <= k < n ==> (#[trigger] next.use_forms[k]) is None && form_of(
                    view.resources,
                    k,
                ) is None
            &&& n < view.resources.uses.len() ==> form_of(view.resources, n) is Some
        }),
    decreases view.resources.uses.len() - view.use_forms.len(),
{
    let i = view.use_forms.len() as int;
    if i < view.resources.uses.len() && form_of(view.resources, i) is None {
        let more = ImageRuntimeView { use_forms: view.use_forms.push(None), ..view };
        passing_stops_at_the_first_form(more);
        let next = images_passed(view);
        assert(next == images_passed(more));
        assert forall|k: int| 0 <= k < i implies #[trigger] next.use_forms[k]
            == view.use_forms[k] by {
            assert(next.use_forms[k] == more.use_forms[k]);
        }
        assert(next.use_forms[i] == more.use_forms[i]);
    }
}

/// Once every object is there, forms are interpreted use by use: the next one is the first use from
/// where uses were looked at on whose object is a form, and it is interpreted under the transform of
/// that use. Uses before it that are no forms are passed as such, and those looked at before stay.
pub proof fn forms_are_interpreted_use_by_use(view: ImageRuntimeView, limits: ResourceLimits)
    requires
        view.resources.plan_complete,
        view.resources.acquisition_cursor >= view.resources.entries.len(),
        view.use_forms.len() <= view.resources.uses.len(),
        view.activity == ImageActivity::Idle,
    ensures
        image_next(view, limits) matches Ok((next, step)) && {
            let uses = view.resources.uses;
            let entries = view.resources.entries;
            let n = next.use_forms.len() as int;
            &&& next.resources == view.resources && next.images == view.images
            &&& next.activity == view.activity
            &&& view.use_forms.len() <= n <= uses.len()
            &&& forall|k: int|
                0 <= k < view.use_forms.len() ==> #[trigger] next.use_forms[k] == view.use_forms[k]
            &&& forall|k: int|
                view.use_forms.len() <= k < n ==> (#[trigger] next.use_forms[k]) is None && !(
                entries[uses[k].entry as int].resource matches Some(PlannedResource::Form(_)))
            &&& n == uses.len() ==> step is Complete
            &&& n < uses.len() ==> (step matches ImageStep::Interpret { form, transform }
                && transform == uses[n].transform && entries[uses[n].entry as int].resource == Some(
                PlannedResource::Form(form),
            ))
        },
{
    passing_stops_at_the_first_form(view);
    let next = images_passed(view);
    assert forall|k: int| view.use_forms.len() <= k < next.use_forms.len() implies (
    #[trigger] next.use_forms[k]) is None && !(view.resources.entries[view.resources.uses[k].entry as
    int].resource matches Some(PlannedResource::Form(_))) by {
        assert(form_of(view.resources, k) is None);
    }
}

/// While an object is missing, the first that is missing is acquired: as an image first, and as a
/// form where it is none. Each call into its job is counted, and nothing else changes.
pub proof fn objects_are_acquired_in_order(view: ImageRuntimeView, limits: ResourceLimits)
    requires
        resources_ok(view.resources),
        view.resources.plan_complete,
        view.resources.acquisition_cursor < view.resources.entries.len(),
    ensures
        image_next(view, limits) matches Ok((next, step)) ==> {
            let entry = view.resources.entries[view.resources.acquisition_cursor];
            &&& entry.resource is None
            &&& forall|j: int|
                0 <= j < view.resources.acquisition_cursor ==> (
                #[trigger] view.resources.entries[j]).resource is Some
            &&& step is AcquireImage <==> view.activity is Idle
            &&& step is AcquireForm <==> view.activity is WantForm
            &&& step is PollImage <==> view.activity is Image
            &&& step is PollForm <==> view.activity is Form
            &&& step matches ImageStep::AcquireImage(key) ==> key == entry.key && next == view
            &&& step matches ImageStep::AcquireForm(key) ==> key == entry.key && next == view
            &&& step is PollImage || step is PollForm ==> next.resources.stats.acquisition_polls
                == view.resources.stats.acquisition_polls + 1
            &&& next.resources.entries == view.resources.entries
            &&& next.resources.uses == view.resources.uses
            &&& next.use_forms == view.use_forms && next.images == view.images
            &&& next.activity == view.activity
        },
{
    let entries = view.resources.entries;
    assert(entries[view.resources.acquisition_cursor].resource is None);
}

/// Content starts under the transform that it is given, with opaque black paints, solid lines of unit
/// width with butt caps and mitered joins, and without a path, a clip or a saved state.
pub proof fn content_starts_plain(ctm: Matrix)
    ensures
        ({
            let plan = initial_plan(ctm);
            let state = plan.graphics.current;
            &&& plan.ctm == ctm && state.ctm == ctm
            &&& state.stroking == state.nonstroking
            &&& state.stroking.color matches DeviceColor::Gray(level) && level.value == 0
            &&& state.stroking.alpha.value == u16::MAX
            &&& state.stroking.blend_mode == BlendMode::Normal
            &&& state.line_width.scaled == 1_000_000_000
            &&& state.miter_limit.scaled == 10 * state.line_width.scaled
            &&& state.line_cap == LineCap::Butt && state.line_join == LineJoin::Miter
            &&& state.clip_depth == 0
            &&& plan.graphics.dashes[state.dash as int].array.len() == 0
            &&& plan.graphics.dashes[state.dash as int].phase.scaled == 0
            &&& plan.graphics.path.len() == 0 && plan.graphics.current_point is None
            &&& plan.graphics.pending_clip is None
            &&& plan.graphics.saved.len() == 0 && plan.stack.len() == 0
            &&& plan.actions.len() == 0 && !plan.text_active && !plan.font_selected
            &&& plan.compatibility_depth == 0 && plan.marked_depth == 0
        }),
{
}

/// Text starts where it is: a point stays in its place under the text and the line transform, and no
/// parameter moves or scales it.
pub proof fn text_starts_in_place(x: int, y: int)
    ensures
        ({
            let text = initial_execution();
            let p = text.parameters;
            &&& carried_x(text.text_matrix, x, y) == x * 1_000_000_000
            &&& carried_y(text.text_matrix, x, y) == y * 1_000_000_000
            &&& carried_x(text.line_matrix, x, y) == x * 1_000_000_000
            &&& carried_y(text.line_matrix, x, y) == y * 1_000_000_000
            &&& x * p.horizontal_scaling.scaled == x * 1_000_000_000
            &&& x + p.character_spacing.scaled + p.word_spacing.scaled == x
            &&& y + p.rise.scaled == y && y + p.leading.scaled == y
            &&& p.font is None && p.font_size.scaled == 0 && p.render_mode == 0
            &&& !text.active && text.saved.len() == 0 && text.glyphs.len() == 0
        }),
{
}

} // verus!
