//! Laws of what interpretation asks for.

use vstd::prelude::*;

use crate::content::acquisition_laws::passing_stops_at_the_first_form;
use crate::content::ext_gstate::ContentExtGStateProfile;
use crate::content::font_runtime::{font_next, FontRuntime, FontRuntimeView};
use crate::content::image_runtime::{image_next, ImageRuntime, ImageRuntimeView};
use crate::content::interpret::ContentInput;
use crate::content::job::{font_step_fits, image_step_fits, phase_of, request_fits, JobRequest};
use crate::content::limits::ContentLimits;
use crate::content::material_laws::fonts_are_looked_up_in_order;
use crate::content::resources::ResourceLimits;
use crate::content::run::{
    content_of, run_config, totals_of, ContentVmPhase, Interpretation, RunLimits,
};

verus! {

/// A phase tells which outcome is asked about: where a request is the outcome, it is the one of the
/// phase, with all that the state says.
pub proof fn phases_tell_their_outcome(run: Interpretation, request: JobRequest)
    requires
        request_fits(run, request),
    ensures
        request is Ready ==> phase_of(run.state) == ContentVmPhase::Ready,
        request is Unsupported ==> phase_of(run.state) == ContentVmPhase::Unsupported,
        request is Failed ==> phase_of(run.state) == ContentVmPhase::Failed,
        request matches JobRequest::Unsupported(outcome) ==> run.state->Unsupported_0 == outcome,
        request matches JobRequest::Failed(failure) ==> run.state->Failed_0 == failure,
        phase_of(run.state) == ContentVmPhase::Pending <==> run.state is Pending,
{
}

/// A lookup asks for the name that content used: an external object by that of its invocation, and a
/// font by that of the first selection that was not looked up yet.
pub proof fn lookups_ask_for_the_names_in_use(run: Interpretation, request: JobRequest)
    requires
        request_fits(run, request),
    ensures
        request matches JobRequest::LookupImage(name) ==> {
            let plan = run.plan->0;
            let invocation = plan.image_invocations@[run.lookup as int];
            &&& run.lookup < plan.image_invocations@.len()
            &&& plan.names@[invocation.name as int]@ == name@
        },
        request matches JobRequest::LookupFont { place, name } ==> {
            let plan = run.plan->0;
            let action = plan.actions@[place as int];
            &&& run.lookup <= place < plan.actions@.len()
            &&& action is Text && action->Text_0 is SetFont
            &&& forall|k: int|
                run.lookup <= k < place ==> !(#[trigger] plan.actions@[k] is Text
                    && plan.actions@[k]->Text_0 is SetFont)
            &&& plan.names@[action->Text_0->SetFont_name as int]@ == name@
        },
{
    if request is LookupFont && run.lookup <= run.plan->0.actions@.len() {
        fonts_are_looked_up_in_order(run.plan->0.actions@, run.lookup as int);
    }
}

/// The step that acquisition takes next is one that it needs where it then stands, unless it is
/// complete.
pub proof fn acquisition_asks_for_what_it_needs(
    images: ImageRuntimeView,
    fonts: FontRuntimeView,
    limits: ResourceLimits,
)
    requires
        images.use_forms.len() <= images.resources.uses.len(),
    ensures
        image_next(images, limits) matches Ok((next, step)) ==> step is Complete || image_step_fits(
            next,
            step,
        ),
        font_next(fonts, limits) matches Ok((next, step)) ==> step is Complete || font_step_fits(
            next,
            step,
        ),
{
    passing_stops_at_the_first_form(images);
}

/// Content is scanned stream by stream as it is given, under the limits that it is given.
pub proof fn content_is_scanned_as_given(input: ContentInput, limits: ContentLimits, i: int)
    requires
        0 <= i < input.streams@.len(),
    ensures
        content_of(input, limits).limits == limits@,
        content_of(input, limits).streams.len() == input.streams@.len(),
        content_of(input, limits).streams[i].bytes == input.streams@[i].decoded@,
        content_of(input, limits).streams[i].object == input.streams@[i].object,
        content_of(input, limits).streams[i].ordinal == input.streams@[i].ordinal,
{
}

/// Content is planned with the budgets and capabilities that it is given, and with no other: fonts,
/// external objects and external states exactly where they are there.
pub proof fn content_is_planned_with_what_is_given(
    limits: RunLimits,
    images: Option<ImageRuntime>,
    fonts: Option<FontRuntime>,
    ext_gstates: Option<ContentExtGStateProfile>,
    framed: bool,
)
    ensures
        ({
            let config = run_config(limits, images, fonts, ext_gstates, framed);
            &&& config.vm == limits.vm@
            &&& config.in_form == framed
            &&& config.graphics is Some <==> limits.graphics is Some
            &&& config.graphics is Some ==> config.graphics->0 == limits.graphics->0@
            &&& config.images is Some <==> images is Some
            &&& config.images is Some ==> config.images->0 == images->0.limits@
            &&& config.fonts is Some <==> fonts is Some
            &&& config.fonts is Some ==> config.fonts->0 == fonts->0.limits@
            &&& config.ext_gstates is Some <==> ext_gstates is Some
            &&& config.ext_gstates is Some ==> config.ext_gstates->0 == ext_gstates->0@
        }),
{
}

/// The totals of a run are what was counted where it stands: by the planner while it plans, by the
/// plan once there is one, and with the shown glyphs and segments once text is executed.
pub proof fn totals_are_what_was_counted(run: Interpretation)
    ensures
        ({
            let totals = totals_of(run);
            let planning = run.material is None && run.plan is None && run.builder is Some;
            let waiting = run.material is None && run.plan is Some;
            let planner = run.builder->0.planner@;
            let plan = if run.material is Some {
                run.material->0.plan
            } else {
                run.plan->0
            };
            &&& planning ==> {
                &&& totals.image_operators == planner.image_operators
                &&& totals.font_operators == planner.font_operators
                &&& totals.text_bytes == planner.text_bytes
                &&& totals.text_adjustments == planner.text_adjustments
            }
            &&& waiting || run.material is Some ==> {
                &&& totals.image_operators == plan.image_operators
                &&& totals.font_operators == plan.font_operators
                &&& totals.text_bytes == plan.text_bytes
                &&& totals.text_adjustments == plan.text_adjustments
            }
            &&& planning || waiting ==> totals.glyphs == 0 && totals.outline_segments == 0
            &&& run.material is Some ==> totals.glyphs == run.material->0.text.shown_glyphs
                && totals.outline_segments == run.material->0.text.shown_segments
        }),
{
}

} // verus!
