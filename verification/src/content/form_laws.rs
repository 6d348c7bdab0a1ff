//! Laws of form content.

use vstd::prelude::*;

use crate::content::form_plan::FormBox;
use crate::content::graphics_model::all_mapped;
use crate::content::model::ContentOperatorSource;
use crate::content::plan::ExecutionAction;
use crate::content::planner_model::{
    corner_bounds, epilogue_actions, form_opened, PlanConfig, PlannerView,
};
use crate::content::scene::{
    identity_matrix, BlendMode, FillRule, PathSegment, SceneBounds, ScenePoint,
};
use crate::content::vm_error::SceneError;

verus! {

/// The corners of a box go around it from the lower left: two neighbors share a side.
pub proof fn corners_go_around_their_box(form: FormBox)
    ensures
        ({
            let corners = form.spec_corners();
            &&& corners.len() == 4
            &&& corners[0].x == form.left && corners[0].y == form.bottom
            &&& corners[1].x == form.right && corners[1].y == corners[0].y
            &&& corners[2].x == corners[1].x && corners[2].y == form.top
            &&& corners[3].x == corners[0].x && corners[3].y == corners[2].y
        }),
{
}

/// The bounds of four corners are the least: each side touches a corner.
pub proof fn bounds_touch_their_corners(corners: Seq<ScenePoint>)
    requires
        corners.len() == 4,
    ensures
        corner_bounds(corners) matches SceneBounds::Finite { minimum, maximum } && {
            &&& exists|i: int| 0 <= i < 4 && (#[trigger] corners[i]).x == minimum.x
            &&& exists|i: int| 0 <= i < 4 && (#[trigger] corners[i]).y == minimum.y
            &&& exists|i: int| 0 <= i < 4 && (#[trigger] corners[i]).x == maximum.x
            &&& exists|i: int| 0 <= i < 4 && (#[trigger] corners[i]).y == maximum.y
            &&& forall|i: int|
                0 <= i < 4 ==> minimum.x.scaled <= (#[trigger] corners[i]).x.scaled
                    <= maximum.x.scaled && minimum.y.scaled <= corners[i].y.scaled
                    <= maximum.y.scaled
        },
{
    let i = 0int;
    assert(corners[0] == corners[i]);
    assert(corners[1] == corners[i + 1]);
    assert(corners[2] == corners[i + 2]);
    assert(corners[3] == corners[i + 3]);
}

/// A form opens wherever a state may be saved: with a saved state, which is clipped to the closed
/// path through its mapped corners, and with a group where it is one. Graphics state and transform
/// stay. It closes in reverse.
pub proof fn forms_are_framed_by_their_box(
    view: PlannerView,
    config: PlanConfig,
    corners: Seq<ScenePoint>,
    group: bool,
    source: ContentOperatorSource,
)
    requires
        corners.len() == 4,
        view.graphics.paths.len() <= usize::MAX,
    ensures
        form_opened(
            view,
            config,
            corners.map_values(|corner: ScenePoint| Ok::<ScenePoint, SceneError>(corner)),
            group,
            source,
        ) is Ok <==> config.vm.max_graphics_state_depth > 0,
        form_opened(
            view,
            config,
            corners.map_values(|corner: ScenePoint| Ok::<ScenePoint, SceneError>(corner)),
            group,
            source,
        ) matches Ok(next) ==> {
            let first = view.actions.len() as int;
            let bounds = corner_bounds(corners);
            &&& next.actions.len() == first + (if group {
                3int
            } else {
                2
            })
            &&& next.actions.take(first) == view.actions
            &&& next.actions[first] matches ExecutionAction::Save { bounds: held, .. } && held
                == bounds
            &&& next.actions[first + 1] matches ExecutionAction::Clip {
                path,
                rule,
                transform,
                bounds: held,
                ..
            } && path == view.graphics.paths.len() && rule == FillRule::Nonzero && transform
                == identity_matrix() && held == bounds
            &&& group ==> (next.actions[first + 2] matches ExecutionAction::BeginGroup {
                alpha,
                blend_mode,
                ..
            } && alpha.value == 65_535 && blend_mode == BlendMode::Normal)
            &&& next.graphics.paths.len() == view.graphics.paths.len() + 1
            &&& next.graphics.paths.last() == seq![
                PathSegment::MoveTo(corners[0]),
                PathSegment::LineTo(corners[1]),
                PathSegment::LineTo(corners[2]),
                PathSegment::LineTo(corners[3]),
                PathSegment::ClosePath,
            ]
            &&& next.graphics.current == view.graphics.current
            &&& next.ctm == view.ctm
        },
        ({
            let bounds = corner_bounds(corners);
            let closing = epilogue_actions(bounds, group, source);
            &&& closing.len() == (if group {
                2int
            } else {
                1
            })
            &&& group ==> closing[0] is EndGroup
            &&& closing.last() matches ExecutionAction::Restore { bounds: held, .. } && held == bounds
        }),
{
    let mapped = corners.map_values(|corner: ScenePoint| Ok::<ScenePoint, SceneError>(corner));
    reveal_with_fuel(all_mapped, 5);
    assert(mapped[0] == Ok::<ScenePoint, SceneError>(corners[0]));
    assert(mapped[1] == Ok::<ScenePoint, SceneError>(corners[1]));
    assert(mapped[2] == Ok::<ScenePoint, SceneError>(corners[2]));
    assert(mapped[3] == Ok::<ScenePoint, SceneError>(corners[3]));
    assert(all_mapped(mapped, 4)->Ok_0 =~= corners);
    if let Ok(next) = form_opened(view, config, mapped, group, source) {
        assert(next.actions.take(view.actions.len() as int) =~= view.actions);
    }
}

} // verus!
