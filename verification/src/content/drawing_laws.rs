//! Laws of path construction and painting.

use vstd::prelude::*;

use crate::content::graphics_limits::ContentGraphicsLimitConfig;
use crate::content::graphics_model::{
    all_mapped, graphics_outcome, is_state_operator, paint_of, point_count, GraphicsState,
    GraphicsView, PendingClip,
};
use crate::content::model::ContentOperatorSource;
use crate::content::operands::{converted, operand_number, structure_fault, OperandsView};
use crate::content::operator::OperatorKind;
use crate::content::plan::{ExecutionAction, LineStyle};
use crate::content::planner_model::{
    dash_outcome, general_outcome, known_outcome, planned, required, text_outcome, AnswerView,
    PlanConfig, PlannerView, RequirementView,
};
use crate::content::scene::{identity_matrix, FillRule, PathSegment, ScenePoint};
use crate::content::state_laws::{
    has_numbers, numbers_are_those_of_the_operands, operand_value, well_operated,
};
use crate::content::view::OperatorView;
use crate::content::vm_error::SceneError;

verus! {

/// Whether a point has the coordinates that two operands denote.
pub open spec fn is_operand_point(point: ScenePoint, operator: OperatorView, i: int) -> bool {
    point.x.scaled == operand_value(operator, i) && point.y.scaled == operand_value(
        operator,
        i + 1,
    )
}

/// Path operators map their operands, in pairs and in order, through the current transform.
pub proof fn paths_map_their_operands(
    view: PlannerView,
    config: PlanConfig,
    operator: OperatorView,
    kind: OperatorKind,
)
    requires
        !view.awaiting,
        well_operated(operator, kind),
        has_numbers(operator, operator.operands.len() as int),
        kind == OperatorKind::MoveTo || kind == OperatorKind::LineTo || kind
            == OperatorKind::CubicCurveTo || kind == OperatorKind::CubicCurveToReplicateInitial
            || kind == OperatorKind::CubicCurveToReplicateFinal,
    ensures
        required(view, config, operator) matches RequirementView::Points(matrix, points) && {
            &&& matrix == view.graphics.current.ctm
            &&& 2 * points.len() == operator.operands.len()
            &&& forall|i: int|
                0 <= i < points.len() ==> is_operand_point(#[trigger] points[i], operator, 2 * i)
        },
        kind == OperatorKind::MoveTo || kind == OperatorKind::LineTo ==> operator.operands.len()
            == 2,
        kind == OperatorKind::CubicCurveTo ==> operator.operands.len() == 6,
        kind == OperatorKind::CubicCurveToReplicateInitial || kind
            == OperatorKind::CubicCurveToReplicateFinal ==> operator.operands.len() == 4,
{
    numbers_are_those_of_the_operands(
        operator.operands,
        operator.operands.len() as int,
        operator.source,
    );
    assert forall|i: int| 0 <= i < operator.operands.len() implies operand_number(
        #[trigger] operator.operands[i],
        operator.source,
    ) is Ok by {}
}

/// A rectangle maps its four corners, around from the one that its first operands give: a width to
/// the right, a height up, and back.
pub proof fn rectangles_map_their_corners(
    view: PlannerView,
    config: PlanConfig,
    operator: OperatorView,
)
    requires
        !view.awaiting,
        well_operated(operator, OperatorKind::Rectangle),
        has_numbers(operator, 4),
    ensures
        ({
            let x = operand_value(operator, 0) + operand_value(operator, 2);
            let y = operand_value(operator, 1) + operand_value(operator, 3);
            i64::MIN <= x <= i64::MAX && i64::MIN <= y <= i64::MAX <==> required(
                view,
                config,
                operator,
            ) is Points
        }),
        required(view, config, operator) matches RequirementView::Points(matrix, points) ==> {
            let width = operand_value(operator, 2);
            let height = operand_value(operator, 3);
            &&& matrix == view.graphics.current.ctm
            &&& points.len() == 4
            &&& is_operand_point(points[0], operator, 0)
            &&& points[1].x.scaled - points[0].x.scaled == width
            &&& points[1].y == points[0].y
            &&& points[2].x == points[1].x
            &&& points[2].y.scaled - points[1].y.scaled == height
            &&& points[3].x == points[0].x
            &&& points[3].y == points[2].y
        },
{
    numbers_are_those_of_the_operands(operator.operands, 4, operator.source);
    assert(operand_number(operator.operands[0], operator.source) is Ok);
    assert(operand_number(operator.operands[1], operator.source) is Ok);
    assert(operand_number(operator.operands[2], operator.source) is Ok);
    assert(operand_number(operator.operands[3], operator.source) is Ok);
}

/// The answers that points were mapped to.
pub open spec fn answered(points: Seq<ScenePoint>) -> AnswerView {
    AnswerView::Points(points.map_values(|point: ScenePoint| Ok::<ScenePoint, SceneError>(point)))
}

/// What a path is before a segment is added: a closed subpath is begun again at its start.
pub open spec fn begun_path(view: GraphicsView) -> Seq<PathSegment> {
    if view.subpath_start is None {
        view.path.push(PathSegment::MoveTo(view.current_point->0))
    } else {
        view.path
    }
}

proof fn all_points_map(points: Seq<ScenePoint>, count: int)
    requires
        0 <= count <= points.len(),
    ensures
        all_mapped(answered(points)->Points_0, count) == Ok::<Seq<ScenePoint>, SceneError>(
            points.take(count),
        ),
    decreases count,
{
    if count > 0 {
        all_points_map(points, count - 1);
        assert(points.take(count) =~= points.take(count - 1).push(points[count - 1]));
    } else {
        assert(points.take(0) =~= Seq::empty());
    }
}

/// Whether an operator is one of the graphics machine: of paths, paints, clips, lines or colors.
pub open spec fn is_machine_operator(kind: OperatorKind) -> bool {
    point_count(kind) > 0 || kind == OperatorKind::ClosePath || paint_of(kind) is Some || kind
        == OperatorKind::ClipNonzero || kind == OperatorKind::ClipEvenOdd || is_state_operator(kind)
}

/// Planning an operator of the graphics machine runs the machine, and appends what it publishes.
pub(crate) proof fn planning_runs_the_machine(
    view: PlannerView,
    config: PlanConfig,
    operator: OperatorView,
    kind: OperatorKind,
    answer: AnswerView,
)
    requires
        !view.awaiting,
        operator.known == Some(kind),
        is_machine_operator(kind),
    ensures
        planned(view, config, operator, answer) matches Ok(next) ==> {
            let mapped = match answer {
                AnswerView::Points(points) => points,
                _ => Seq::empty(),
            };
            let outcome = graphics_outcome(
                view.graphics,
                kind,
                converted(kind, operator.operands, operator.source)->Ok_0,
                mapped,
                config.graphics->0,
                operator.source,
            );
            &&& config.graphics is Some
            &&& structure_fault(kind, operator.operands, operator.source) is None
            &&& converted(kind, operator.operands, operator.source) is Ok
            &&& mapped.len() == point_count(kind)
            &&& outcome is Ok
            &&& next == (PlannerView {
                graphics: outcome->Ok_0.0,
                actions: view.actions + outcome->Ok_0.1,
                image_operators: next.image_operators,
                font_operators: next.font_operators,
                charges: next.charges,
                ..view
            })
        },
{
    reveal(known_outcome);
    reveal(general_outcome);
}

/// Path operators add their segments at the end of the path, with their points as they were mapped,
/// and change nothing else but the current point, which is where the last segment ends. The first
/// control point of `v` is the current point; the second one of `y` is the end.
pub proof fn paths_grow_by_their_segments(
    view: PlannerView,
    config: PlanConfig,
    operator: OperatorView,
    kind: OperatorKind,
    points: Seq<ScenePoint>,
)
    requires
        !view.awaiting,
        operator.known == Some(kind),
        point_count(kind) > 0,
    ensures
        planned(view, config, operator, answered(points)) matches Ok(next) ==> {
            let before = view.graphics;
            let after = next.graphics;
            &&& next.actions == view.actions
            &&& after == (GraphicsView {
                path: after.path,
                current_point: after.current_point,
                subpath_start: after.subpath_start,
                ..before
            })
            &&& match kind {
                OperatorKind::MoveTo => {
                    &&& after.path == before.path.push(PathSegment::MoveTo(points[0]))
                    &&& after.current_point == Some(points[0])
                    &&& after.subpath_start == Some(points[0])
                },
                OperatorKind::Rectangle => {
                    &&& after.path == before.path + seq![
                        PathSegment::MoveTo(points[0]),
                        PathSegment::LineTo(points[1]),
                        PathSegment::LineTo(points[2]),
                        PathSegment::LineTo(points[3]),
                        PathSegment::ClosePath,
                    ]
                    &&& after.current_point == Some(points[0])
                    &&& after.subpath_start is None
                },
                _ => {
                    &&& before.current_point is Some
                    &&& after.path.len() > 0
                    &&& after.path.drop_last() == begun_path(before)
                    &&& after.current_point == Some(points.last())
                    &&& after.subpath_start == Some(
                        if before.subpath_start is Some {
                            before.subpath_start->0
                        } else {
                            before.current_point->0
                        },
                    )
                    &&& kind == OperatorKind::LineTo ==> after.path.last() == PathSegment::LineTo(
                        points[0],
                    )
                    &&& kind == OperatorKind::CubicCurveTo ==> after.path.last()
                        == (PathSegment::CubicTo {
                        control_1: points[0],
                        control_2: points[1],
                        end: points[2],
                    })
                    &&& kind == OperatorKind::CubicCurveToReplicateInitial ==> after.path.last()
                        == (PathSegment::CubicTo {
                        control_1: before.current_point->0,
                        control_2: points[0],
                        end: points[1],
                    })
                    &&& kind == OperatorKind::CubicCurveToReplicateFinal ==> after.path.last()
                        == (PathSegment::CubicTo {
                        control_1: points[0],
                        control_2: points[1],
                        end: points[1],
                    })
                },
            }
        },
{
    reveal(known_outcome);
    reveal(general_outcome);
    reveal(graphics_outcome);
    if let Ok(next) = planned(view, config, operator, answered(points)) {
        all_points_map(points, points.len() as int);
        assert(points.take(points.len() as int) =~= points);
        let before = view.graphics;
        let after = next.graphics;
        assert(next.actions =~= view.actions);
        if kind == OperatorKind::Rectangle {
            assert(after.path =~= before.path + seq![
                PathSegment::MoveTo(points[0]),
                PathSegment::LineTo(points[1]),
                PathSegment::LineTo(points[2]),
                PathSegment::LineTo(points[3]),
                PathSegment::ClosePath,
            ]);
        } else if kind != OperatorKind::MoveTo {
            assert(after.path.drop_last() =~= begun_path(before));
        }
    }
}

/// Closing a path ends the open subpath where it started, and does nothing where none is open.
pub proof fn closing_returns_to_the_start(
    view: PlannerView,
    config: PlanConfig,
    operator: OperatorView,
    answer: AnswerView,
)
    requires
        !view.awaiting,
        operator.known == Some(OperatorKind::ClosePath),
    ensures
        planned(view, config, operator, answer) matches Ok(next) ==> {
            &&& next.actions == view.actions
            &&& match view.graphics.subpath_start {
                None => next.graphics == view.graphics,
                Some(start) => next.graphics == (GraphicsView {
                    path: view.graphics.path.push(PathSegment::ClosePath),
                    current_point: Some(start),
                    subpath_start: None,
                    ..view.graphics
                }),
            }
        },
{
    reveal(known_outcome);
    reveal(general_outcome);
    reveal(graphics_outcome);
    if let Ok(next) = planned(view, config, operator, answer) {
        assert(next.actions =~= view.actions);
    }
}

/// Whether an operator fills the path.
pub open spec fn fills(kind: OperatorKind) -> bool {
    match kind {
        OperatorKind::FillNonzero
        | OperatorKind::FillNonzeroLegacy
        | OperatorKind::FillEvenOdd
        | OperatorKind::FillStrokeNonzero
        | OperatorKind::FillStrokeEvenOdd
        | OperatorKind::CloseFillStrokeNonzero
        | OperatorKind::CloseFillStrokeEvenOdd => true,
        _ => false,
    }
}

/// Whether an operator strokes the path.
pub open spec fn strokes_path(kind: OperatorKind) -> bool {
    match kind {
        OperatorKind::StrokePath
        | OperatorKind::CloseAndStrokePath
        | OperatorKind::FillStrokeNonzero
        | OperatorKind::FillStrokeEvenOdd
        | OperatorKind::CloseFillStrokeNonzero
        | OperatorKind::CloseFillStrokeEvenOdd => true,
        _ => false,
    }
}

/// Whether an operator closes the open subpath before it paints.
pub open spec fn closes_path(kind: OperatorKind) -> bool {
    match kind {
        OperatorKind::CloseAndStrokePath
        | OperatorKind::CloseFillStrokeNonzero
        | OperatorKind::CloseFillStrokeEvenOdd => true,
        _ => false,
    }
}

/// Whether an operator fills by the even-odd rule.
pub open spec fn fills_even_odd(kind: OperatorKind) -> bool {
    match kind {
        OperatorKind::FillEvenOdd
        | OperatorKind::FillStrokeEvenOdd
        | OperatorKind::CloseFillStrokeEvenOdd => true,
        _ => false,
    }
}

/// Whether a line style is that of a graphics state.
pub open spec fn is_style_of(style: LineStyle, state: GraphicsState) -> bool {
    &&& style.width == state.line_width
    &&& style.cap == state.line_cap
    &&& style.join == state.line_join
    &&& style.miter_limit == state.miter_limit
    &&& style.dash == state.dash
    &&& style.ctm == state.ctm
}

/// Whether an action paints the path at a place as an operator says: filled with the paint for
/// areas, stroked with the paint for lines and the line style.
pub open spec fn paints_as(
    action: ExecutionAction,
    kind: OperatorKind,
    place: int,
    state: GraphicsState,
) -> bool {
    let winding = if fills_even_odd(kind) {
        FillRule::EvenOdd
    } else {
        FillRule::Nonzero
    };
    match action {
        ExecutionAction::Fill { path, rule, paint, transform, .. } => {
            &&& fills(kind) && !strokes_path(kind)
            &&& path == place
            &&& rule == winding
            &&& paint == state.nonstroking
            &&& transform == identity_matrix()
        },
        ExecutionAction::Stroke { path, paint, style, transform, .. } => {
            &&& strokes_path(kind) && !fills(kind)
            &&& path == place
            &&& paint == state.stroking
            &&& is_style_of(style, state)
            &&& transform == identity_matrix()
        },
        ExecutionAction::FillStroke { path, rule, fill, stroke, style, transform, .. } => {
            &&& fills(kind) && strokes_path(kind)
            &&& path == place
            &&& rule == winding
            &&& fill == state.nonstroking
            &&& stroke == state.stroking
            &&& is_style_of(style, state)
            &&& transform == identity_matrix()
        },
        _ => false,
    }
}

/// Painting a path publishes it, closed first where the operator says so, and adds one action that
/// paints it; a clip that waits comes after, on the same path. The path is gone then, and the
/// graphics state stays but for its clip.
pub proof fn painting_paints_the_path(
    view: PlannerView,
    config: PlanConfig,
    operator: OperatorView,
    kind: OperatorKind,
    answer: AnswerView,
)
    requires
        !view.awaiting,
        operator.known == Some(kind),
        fills(kind) || strokes_path(kind) || kind == OperatorKind::EndPath,
        view.graphics.paths.len() <= usize::MAX,
    ensures
        planned(view, config, operator, answer) matches Ok(next) ==> {
            let before = view.graphics;
            let after = next.graphics;
            let painted = fills(kind) || strokes_path(kind);
            let clipped = before.pending_clip is Some;
            let shape = if closes_path(kind) && before.subpath_start is Some {
                before.path.push(PathSegment::ClosePath)
            } else {
                before.path
            };
            let first = view.actions.len() as int;
            &&& next.actions.len() == first + (if painted {
                1int
            } else {
                0
            }) + (if clipped {
                1int
            } else {
                0
            })
            &&& next.actions.take(first) == view.actions
            &&& painted ==> paints_as(
                next.actions[first],
                kind,
                before.paths.len() as int,
                before.current,
            )
            &&& clipped ==> (next.actions.last() matches ExecutionAction::Clip {
                path,
                rule,
                transform,
                ..
            } && path == before.paths.len() && rule == before.pending_clip->0.rule && transform
                == identity_matrix())
            &&& painted || clipped ==> after.paths == before.paths.push(shape)
            &&& !painted && !clipped ==> after.paths == before.paths
            &&& after.path.len() == 0
            &&& after.current_point is None
            &&& after.subpath_start is None
            &&& after.pending_clip is None
            &&& after.saved == before.saved
            &&& after.current == (GraphicsState {
                clip_depth: after.current.clip_depth,
                ..before.current
            })
            &&& after.current.clip_depth == before.current.clip_depth + (if clipped {
                1int
            } else {
                0
            })
        },
{
    planning_runs_the_machine(view, config, operator, kind, answer);
    if let Ok(next) = planned(view, config, operator, answer) {
        machine_paints_the_path(
            view.graphics,
            kind,
            converted(kind, operator.operands, operator.source)->Ok_0,
            match answer {
                AnswerView::Points(points) => points,
                _ => Seq::empty(),
            },
            config.graphics->0,
            operator.source,
        );
        assert(next.actions.take(view.actions.len() as int) =~= view.actions);
    }
}

proof fn machine_paints_the_path(
    before: GraphicsView,
    kind: OperatorKind,
    operands: OperandsView,
    mapped: Seq<Result<ScenePoint, SceneError>>,
    limits: ContentGraphicsLimitConfig,
    source: ContentOperatorSource,
)
    requires
        fills(kind) || strokes_path(kind) || kind == OperatorKind::EndPath,
        before.paths.len() <= usize::MAX,
    ensures
        graphics_outcome(before, kind, operands, mapped, limits, source) matches Ok(
            (after, actions),
        ) ==> {
            let painted = fills(kind) || strokes_path(kind);
            let clipped = before.pending_clip is Some;
            let shape = if closes_path(kind) && before.subpath_start is Some {
                before.path.push(PathSegment::ClosePath)
            } else {
                before.path
            };
            &&& actions.len() == (if painted {
                1int
            } else {
                0
            }) + (if clipped {
                1int
            } else {
                0
            })
            &&& painted ==> paints_as(actions[0], kind, before.paths.len() as int, before.current)
            &&& clipped ==> (actions.last() matches ExecutionAction::Clip {
                path,
                rule,
                transform,
                ..
            } && path == before.paths.len() && rule == before.pending_clip->0.rule && transform
                == identity_matrix())
            &&& painted || clipped ==> after.paths == before.paths.push(shape)
            &&& !painted && !clipped ==> after.paths == before.paths
            &&& after.path.len() == 0
            &&& after.current_point is None
            &&& after.subpath_start is None
            &&& after.pending_clip is None
            &&& after.saved == before.saved
            &&& after.current == (GraphicsState {
                clip_depth: after.current.clip_depth,
                ..before.current
            })
            &&& after.current.clip_depth == before.current.clip_depth + (if clipped {
                1int
            } else {
                0
            })
        },
{
    reveal(graphics_outcome);
}

/// A clipping operator leaves the path and everything else as it is: the next painting operator
/// clips, by the even-odd rule where the operator says so.
pub proof fn clips_wait_for_the_next_paint(
    view: PlannerView,
    config: PlanConfig,
    operator: OperatorView,
    kind: OperatorKind,
    answer: AnswerView,
)
    requires
        !view.awaiting,
        operator.known == Some(kind),
        kind == OperatorKind::ClipNonzero || kind == OperatorKind::ClipEvenOdd,
    ensures
        planned(view, config, operator, answer) matches Ok(next) ==> {
            &&& next.actions == view.actions
            &&& next.graphics == (GraphicsView {
                pending_clip: Some(
                    PendingClip {
                        rule: if kind == OperatorKind::ClipEvenOdd {
                            FillRule::EvenOdd
                        } else {
                            FillRule::Nonzero
                        },
                        source: operator.source,
                    },
                ),
                ..view.graphics
            })
        },
{
    planning_runs_the_machine(view, config, operator, kind, answer);
    reveal(graphics_outcome);
    if let Ok(next) = planned(view, config, operator, answer) {
        assert(next.actions =~= view.actions);
    }
}

/// Where the last subpath of the first `count` segments starts.
pub open spec fn start_of(path: Seq<PathSegment>, count: int) -> Option<ScenePoint>
    decreases count,
{
    if count <= 0 {
        None
    } else {
        match path[count - 1] {
            PathSegment::MoveTo(point) => Some(point),
            _ => start_of(path, count - 1),
        }
    }
}

/// Where the pen is after a path: at the end of its last segment, or at the start of the subpath
/// that was closed.
pub open spec fn pen_of(path: Seq<PathSegment>) -> Option<ScenePoint> {
    if path.len() == 0 {
        None
    } else {
        match path.last() {
            PathSegment::MoveTo(point) => Some(point),
            PathSegment::LineTo(point) => Some(point),
            PathSegment::CubicTo { end, .. } => Some(end),
            PathSegment::ClosePath => start_of(path, path.len() as int),
        }
    }
}

/// Whether the current point is where the path leaves the pen, and the open subpath the last one of
/// the path.
pub open spec fn pen_is_down(view: GraphicsView) -> bool {
    &&& view.current_point == pen_of(view.path)
    &&& view.subpath_start == if view.path.len() == 0 || view.path.last() is ClosePath {
        None
    } else {
        start_of(view.path, view.path.len() as int)
    }
    &&& view.path.len() > 0 ==> start_of(view.path, view.path.len() as int) is Some
}

proof fn starts_are_those_of_a_prefix(left: Seq<PathSegment>, right: Seq<PathSegment>, count: int)
    requires
        count <= left.len(),
        count <= right.len(),
        forall|i: int| 0 <= i < count ==> left[i] == right[i],
    ensures
        start_of(left, count) == start_of(right, count),
    decreases count,
{
    if count > 0 {
        starts_are_those_of_a_prefix(left, right, count - 1);
    }
}

proof fn the_machine_keeps_the_pen(
    view: GraphicsView,
    kind: OperatorKind,
    operands: OperandsView,
    mapped: Seq<Result<ScenePoint, SceneError>>,
    limits: ContentGraphicsLimitConfig,
    source: ContentOperatorSource,
)
    requires
        pen_is_down(view),
    ensures
        graphics_outcome(view, kind, operands, mapped, limits, source) matches Ok((after, _))
            ==> pen_is_down(after),
{
    reveal(graphics_outcome);
    if let Ok((after, _)) = graphics_outcome(view, kind, operands, mapped, limits, source) {
        let old = view.path;
        let new = after.path;
        if new.len() > old.len() {
            starts_are_those_of_a_prefix(old, new, old.len() as int);
            reveal_with_fuel(start_of, 6);
        }
    }
}

proof fn other_operators_leave_the_path(
    view: PlannerView,
    config: PlanConfig,
    operator: OperatorView,
    answer: AnswerView,
)
    requires
        !view.awaiting,
        operator.known matches Some(kind) ==> !is_machine_operator(kind),
    ensures
        planned(view, config, operator, answer) matches Ok(next) ==> {
            &&& next.graphics.path == view.graphics.path
            &&& next.graphics.current_point == view.graphics.current_point
            &&& next.graphics.subpath_start == view.graphics.subpath_start
        },
{
    reveal(known_outcome);
    reveal(general_outcome);
    reveal(text_outcome);
    reveal(dash_outcome);
    if let Some(kind) = operator.known {
        if kind != OperatorKind::SetLineDash && !crate::content::planner_model::is_text(kind) {
            reveal(graphics_outcome);
        }
    }
}

/// The current point is always where the path leaves the pen: at the end of the last segment, or
/// where the subpath that was closed began. No other operator moves it.
pub proof fn the_current_point_is_where_the_pen_is(
    view: PlannerView,
    config: PlanConfig,
    operator: OperatorView,
    answer: AnswerView,
)
    requires
        !view.awaiting,
        pen_is_down(view.graphics),
    ensures
        planned(view, config, operator, answer) matches Ok(next) ==> pen_is_down(next.graphics),
{
    if operator.known is Some && is_machine_operator(operator.known->0) {
        let kind = operator.known->0;
        planning_runs_the_machine(view, config, operator, kind, answer);
        the_machine_keeps_the_pen(
            view.graphics,
            kind,
            converted(kind, operator.operands, operator.source)->Ok_0,
            match answer {
                AnswerView::Points(points) => points,
                _ => Seq::empty(),
            },
            config.graphics->0,
            operator.source,
        );
    } else {
        other_operators_leave_the_path(view, config, operator, answer);
    }
}

} // verus!
