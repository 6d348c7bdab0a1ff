//! What graphics operators do to the graphics state and to the plan.

use vstd::prelude::*;

use crate::content::graphics_limits::{graphics_preflight, ContentGraphicsLimitConfig};
use crate::content::model::ContentOperatorSource;
use crate::content::number::ContentNumber;
use crate::content::operands::OperandsView;
use crate::content::operator::OperatorKind;
use crate::content::plan::{ExecutionAction, LineStyle};
use crate::content::scene::{
    command_source_of, identity_matrix, scalar_of, BlendMode, DeviceColor, FillRule, LineCap,
    LineJoin, Matrix, Paint, PathSegment, SceneBounds, ScenePoint, SceneScalar, SceneUnit,
};
use crate::content::vm_error::{
    operator_failure, ContentGraphicsLimitKind, ContentVmError, ContentVmErrorCode, SceneError,
};

verus! {

/// Saved and restored part of the machine. The dash is a place in its registry.
#[derive(Clone, Copy, Debug, PartialEq, Eq, Structural)]
pub struct GraphicsState {
    pub ctm: Matrix,
    pub line_width: SceneScalar,
    pub line_cap: LineCap,
    pub line_join: LineJoin,
    pub miter_limit: SceneScalar,
    pub dash: usize,
    pub stroking: Paint,
    pub nonstroking: Paint,
    pub clip_depth: u32,
}

/// Clip that the next painting operator publishes.
#[derive(Clone, Copy, Debug, PartialEq, Eq, Structural)]
pub struct PendingClip {
    pub rule: FillRule,
    pub source: ContentOperatorSource,
}

/// How a path is painted.
#[derive(Clone, Copy, Debug, PartialEq, Eq, Structural)]
pub enum PaintOperation {
    Nothing,
    Stroke,
    Fill(FillRule),
    FillStroke(FillRule),
}

/// A registered dash, and whether an action uses it.
pub struct DashView {
    pub array: Seq<SceneScalar>,
    pub phase: SceneScalar,
    pub published: bool,
}

/// The graphics machine.
pub struct GraphicsView {
    pub current: GraphicsState,
    pub saved: Seq<GraphicsState>,
    pub path: Seq<PathSegment>,
    pub current_point: Option<ScenePoint>,
    pub subpath_start: Option<ScenePoint>,
    pub pending_clip: Option<PendingClip>,
    pub dashes: Seq<DashView>,
    pub paths: Seq<Seq<PathSegment>>,
}

/// Why a graphics operator failed.
pub enum GraphicsFault {
    Vm(ContentVmError),
    Scene(SceneError),
}

/// The state that content starts in: black paints, unit lines, no dash.
pub open spec fn initial_state() -> GraphicsState {
    let black = Paint {
        color: DeviceColor::Gray(SceneUnit { value: 0 }),
        alpha: SceneUnit { value: 65535 },
        blend_mode: BlendMode::Normal,
    };
    GraphicsState {
        ctm: identity_matrix(),
        line_width: SceneScalar { scaled: 1_000_000_000 },
        line_cap: LineCap::Butt,
        line_join: LineJoin::Miter,
        miter_limit: SceneScalar { scaled: 10_000_000_000 },
        dash: 0,
        stroking: black,
        nonstroking: black,
        clip_depth: 0,
    }
}

/// The machine that content starts with.
pub open spec fn initial_graphics() -> GraphicsView {
    GraphicsView {
        current: initial_state(),
        saved: Seq::empty(),
        path: Seq::empty(),
        current_point: None,
        subpath_start: None,
        pending_clip: None,
        dashes: seq![
            DashView { array: Seq::empty(), phase: SceneScalar { scaled: 0 }, published: false },
        ],
        paths: Seq::empty(),
    }
}

/// The scene scalar of a content number.
pub open spec fn scalar_value(number: ContentNumber) -> SceneScalar {
    SceneScalar { scaled: number.scaled }
}

/// The scene point of two content numbers.
pub open spec fn point_value(x: ContentNumber, y: ContentNumber) -> ScenePoint {
    ScenePoint { x: scalar_value(x), y: scalar_value(y) }
}

/// The nearest of 65535 steps to a number clamped to the unit interval, halves upwards.
pub open spec fn unit_value(number: ContentNumber) -> SceneUnit {
    let clamped = if number.scaled < 0 {
        0
    } else if number.scaled > 1_000_000_000 {
        1_000_000_000
    } else {
        number.scaled as int
    };
    SceneUnit { value: ((clamped * 65535 + 500_000_000) / 1_000_000_000) as u16 }
}

/// The state after an external graphics state was applied.
pub open spec fn with_ext_gstate(
    state: GraphicsState,
    stroking_alpha: Option<SceneUnit>,
    nonstroking_alpha: Option<SceneUnit>,
    blend_mode: Option<BlendMode>,
) -> GraphicsState {
    let mode_of = |paint: Paint|
        if blend_mode is Some {
            blend_mode->0
        } else {
            paint.blend_mode
        };
    GraphicsState {
        stroking: Paint {
            color: state.stroking.color,
            alpha: if stroking_alpha is Some {
                stroking_alpha->0
            } else {
                state.stroking.alpha
            },
            blend_mode: mode_of(state.stroking),
        },
        nonstroking: Paint {
            color: state.nonstroking.color,
            alpha: if nonstroking_alpha is Some {
                nonstroking_alpha->0
            } else {
                state.nonstroking.alpha
            },
            blend_mode: mode_of(state.nonstroking),
        },
        ..state
    }
}

/// The user-space points that an operator maps through the current transform, in order.
pub open spec fn points_of(kind: OperatorKind, numbers: Seq<ContentNumber>) -> Result<
    Seq<ScenePoint>,
    SceneError,
> {
    match kind {
        OperatorKind::MoveTo | OperatorKind::LineTo => Ok(
            seq![point_value(numbers[0], numbers[1])],
        ),
        OperatorKind::CubicCurveTo => Ok(
            seq![
                point_value(numbers[0], numbers[1]),
                point_value(numbers[2], numbers[3]),
                point_value(numbers[4], numbers[5]),
            ],
        ),
        OperatorKind::CubicCurveToReplicateInitial | OperatorKind::CubicCurveToReplicateFinal => Ok(
            seq![point_value(numbers[0], numbers[1]), point_value(numbers[2], numbers[3])],
        ),
        OperatorKind::Rectangle => {
            let x = scalar_value(numbers[0]);
            let y = scalar_value(numbers[1]);
            match scalar_of(x.scaled + numbers[2].scaled) {
                Err(error) => Err(error),
                Ok(x2) => match scalar_of(y.scaled + numbers[3].scaled) {
                    Err(error) => Err(error),
                    Ok(y2) => Ok(
                        seq![
                            ScenePoint { x, y },
                            ScenePoint { x: x2, y },
                            ScenePoint { x: x2, y: y2 },
                            ScenePoint { x, y: y2 },
                        ],
                    ),
                },
            }
        },
        _ => Ok(Seq::empty()),
    }
}

/// How many points an operator maps.
pub open spec fn point_count(kind: OperatorKind) -> int {
    match kind {
        OperatorKind::MoveTo | OperatorKind::LineTo => 1,
        OperatorKind::CubicCurveTo => 3,
        OperatorKind::CubicCurveToReplicateInitial | OperatorKind::CubicCurveToReplicateFinal => 2,
        OperatorKind::Rectangle => 4,
        _ => 0,
    }
}

/// The mapped points, or the first failure among them.
pub open spec fn all_mapped(mapped: Seq<Result<ScenePoint, SceneError>>, count: int) -> Result<
    Seq<ScenePoint>,
    SceneError,
>
    decreases count,
{
    if count <= 0 {
        Ok(Seq::empty())
    } else {
        match all_mapped(mapped, count - 1) {
            Err(error) => Err(error),
            Ok(front) => match mapped[count - 1] {
                Err(error) => Err(error),
                Ok(point) => Ok(front.push(point)),
            },
        }
    }
}

/// Admits segments against the path budget.
pub open spec fn segments_admitted(
    view: GraphicsView,
    count: int,
    limits: ContentGraphicsLimitConfig,
    source: ContentOperatorSource,
) -> Result<(), ContentVmError> {
    graphics_preflight(
        limits,
        ContentGraphicsLimitKind::PathSegments,
        view.path.len() as u64,
        count as u64,
        Some(source),
    )
}

/// Starts a subpath.
pub open spec fn moved_to(view: GraphicsView, point: ScenePoint) -> GraphicsView {
    GraphicsView {
        path: view.path.push(PathSegment::MoveTo(point)),
        current_point: Some(point),
        subpath_start: Some(point),
        ..view
    }
}

/// Appends a segment that ends at `end`; a closed subpath is reopened at its start.
pub open spec fn appended(view: GraphicsView, segment: PathSegment, end: ScenePoint) -> GraphicsView {
    let current = view.current_point->0;
    if view.subpath_start is None {
        GraphicsView {
            path: view.path.push(PathSegment::MoveTo(current)).push(segment),
            current_point: Some(end),
            subpath_start: Some(current),
            ..view
        }
    } else {
        GraphicsView {
            path: view.path.push(segment),
            current_point: Some(end),
            ..view
        }
    }
}

/// How many segments an append takes.
pub open spec fn append_count(view: GraphicsView) -> int {
    if view.subpath_start is None {
        2
    } else {
        1
    }
}

/// Closes the open subpath, if there is one.
pub open spec fn closed(view: GraphicsView) -> GraphicsView {
    match view.subpath_start {
        None => view,
        Some(start) => GraphicsView {
            path: view.path.push(PathSegment::ClosePath),
            current_point: Some(start),
            subpath_start: None,
            ..view
        },
    }
}

/// Appends a rectangle by its corners.
pub open spec fn rectangle_added(view: GraphicsView, corners: Seq<ScenePoint>) -> GraphicsView {
    GraphicsView {
        path: view.path.push(PathSegment::MoveTo(corners[0])).push(
            PathSegment::LineTo(corners[1]),
        ).push(PathSegment::LineTo(corners[2])).push(PathSegment::LineTo(corners[3])).push(
            PathSegment::ClosePath,
        ),
        current_point: Some(corners[0]),
        subpath_start: None,
        ..view
    }
}

/// Whether a painting operation strokes.
pub open spec fn strokes(operation: PaintOperation) -> bool {
    operation is Stroke || operation is FillStroke
}

/// The line style that a stroke captures.
pub open spec fn style_of(state: GraphicsState) -> LineStyle {
    LineStyle {
        width: state.line_width,
        cap: state.line_cap,
        join: state.line_join,
        miter_limit: state.miter_limit,
        dash: state.dash,
        ctm: state.ctm,
    }
}

/// Marks a dash as used by an action.
pub open spec fn published(dashes: Seq<DashView>, dash: int) -> Seq<DashView> {
    dashes.update(dash, DashView { published: true, ..dashes[dash] })
}

/// The actions that painting a path publishes: the paint, then the pending clip.
pub open spec fn paint_actions(
    view: GraphicsView,
    operation: PaintOperation,
    source: ContentOperatorSource,
) -> Seq<ExecutionAction> {
    let path = view.paths.len() as usize;
    let transform = identity_matrix();
    let bounds = if view.path.len() == 0 {
        SceneBounds::Empty
    } else {
        SceneBounds::Page
    };
    let command = command_source_of(source);
    let painted = match operation {
        PaintOperation::Nothing => Seq::empty(),
        PaintOperation::Stroke => seq![
            ExecutionAction::Stroke {
                path,
                paint: view.current.stroking,
                style: style_of(view.current),
                transform,
                bounds,
                source: command,
            },
        ],
        PaintOperation::Fill(rule) => seq![
            ExecutionAction::Fill {
                path,
                rule,
                paint: view.current.nonstroking,
                transform,
                bounds,
                source: command,
            },
        ],
        PaintOperation::FillStroke(rule) => seq![
            ExecutionAction::FillStroke {
                path,
                rule,
                fill: view.current.nonstroking,
                stroke: view.current.stroking,
                style: style_of(view.current),
                transform,
                bounds,
                source: command,
            },
        ],
    };
    match view.pending_clip {
        None => painted,
        Some(clip) => painted.push(
            ExecutionAction::Clip {
                path,
                rule: clip.rule,
                transform,
                bounds,
                source: command_source_of(clip.source),
            },
        ),
    }
}

/// The machine after a path was painted: the path is gone, and shared by the actions that use it.
pub open spec fn painted(view: GraphicsView, operation: PaintOperation) -> GraphicsView {
    let used = !(operation is Nothing) || view.pending_clip is Some;
    GraphicsView {
        path: Seq::empty(),
        current_point: None,
        subpath_start: None,
        pending_clip: None,
        paths: if used {
            view.paths.push(view.path)
        } else {
            view.paths
        },
        dashes: if strokes(operation) {
            published(view.dashes, view.current.dash as int)
        } else {
            view.dashes
        },
        current: GraphicsState {
            clip_depth: if view.pending_clip is Some {
                (view.current.clip_depth + 1) as u32
            } else {
                view.current.clip_depth
            },
            ..view.current
        },
        ..view
    }
}

/// How an operator paints, and whether it closes the subpath first.
pub open spec fn paint_of(kind: OperatorKind) -> Option<(PaintOperation, bool)> {
    match kind {
        OperatorKind::StrokePath => Some((PaintOperation::Stroke, false)),
        OperatorKind::CloseAndStrokePath => Some((PaintOperation::Stroke, true)),
        OperatorKind::FillNonzero | OperatorKind::FillNonzeroLegacy => Some(
            (PaintOperation::Fill(FillRule::Nonzero), false),
        ),
        OperatorKind::FillEvenOdd => Some((PaintOperation::Fill(FillRule::EvenOdd), false)),
        OperatorKind::FillStrokeNonzero => Some(
            (PaintOperation::FillStroke(FillRule::Nonzero), false),
        ),
        OperatorKind::FillStrokeEvenOdd => Some(
            (PaintOperation::FillStroke(FillRule::EvenOdd), false),
        ),
        OperatorKind::CloseFillStrokeNonzero => Some(
            (PaintOperation::FillStroke(FillRule::Nonzero), true),
        ),
        OperatorKind::CloseFillStrokeEvenOdd => Some(
            (PaintOperation::FillStroke(FillRule::EvenOdd), true),
        ),
        OperatorKind::EndPath => Some((PaintOperation::Nothing, false)),
        _ => None,
    }
}

/// Outcome of one graphics operator.
pub type GraphicsOutcome = Result<(GraphicsView, Seq<ExecutionAction>), GraphicsFault>;

/// Paints the current path.
pub open spec fn paint_outcome(
    view: GraphicsView,
    operation: PaintOperation,
    close: bool,
    limits: ContentGraphicsLimitConfig,
    source: ContentOperatorSource,
) -> GraphicsOutcome {
    let admitted = if close && view.subpath_start is Some {
        segments_admitted(view, 1, limits, source)
    } else {
        Ok(())
    };
    let ready = if close {
        closed(view)
    } else {
        view
    };
    if view.pending_clip is Some && view.current.clip_depth == u32::MAX {
        Err(GraphicsFault::Vm(operator_failure(ContentVmErrorCode::InternalState, source)))
    } else {
        match admitted {
            Err(error) => Err(GraphicsFault::Vm(error)),
            Ok(_) => Ok((painted(ready, operation), paint_actions(ready, operation, source))),
        }
    }
}

/// Appends to the path.
pub open spec fn path_outcome(
    view: GraphicsView,
    kind: OperatorKind,
    numbers: Seq<ContentNumber>,
    mapped: Seq<Result<ScenePoint, SceneError>>,
    limits: ContentGraphicsLimitConfig,
    source: ContentOperatorSource,
) -> GraphicsOutcome {
    let no_point = GraphicsFault::Vm(
        operator_failure(ContentVmErrorCode::InvalidPathState, source),
    );
    if kind == OperatorKind::CubicCurveToReplicateInitial && view.current_point is None {
        Err(no_point)
    } else {
        match points_of(kind, numbers) {
            Err(error) => Err(GraphicsFault::Scene(error)),
            Ok(_) => match all_mapped(mapped, point_count(kind)) {
                Err(error) => Err(GraphicsFault::Scene(error)),
                Ok(points) => if kind == OperatorKind::MoveTo {
                    match segments_admitted(view, 1, limits, source) {
                        Err(error) => Err(GraphicsFault::Vm(error)),
                        Ok(_) => Ok((moved_to(view, points[0]), Seq::empty())),
                    }
                } else if kind == OperatorKind::Rectangle {
                    match segments_admitted(view, 5, limits, source) {
                        Err(error) => Err(GraphicsFault::Vm(error)),
                        Ok(_) => Ok((rectangle_added(view, points), Seq::empty())),
                    }
                } else if view.current_point is None {
                    Err(no_point)
                } else {
                    match segments_admitted(view, append_count(view), limits, source) {
                        Err(error) => Err(GraphicsFault::Vm(error)),
                        Ok(_) => {
                            let current = view.current_point->0;
                            let (segment, end) = match kind {
                                OperatorKind::LineTo => (
                                    PathSegment::LineTo(points[0]),
                                    points[0],
                                ),
                                OperatorKind::CubicCurveTo => (
                                    PathSegment::CubicTo {
                                        control_1: points[0],
                                        control_2: points[1],
                                        end: points[2],
                                    },
                                    points[2],
                                ),
                                OperatorKind::CubicCurveToReplicateInitial => (
                                    PathSegment::CubicTo {
                                        control_1: current,
                                        control_2: points[0],
                                        end: points[1],
                                    },
                                    points[1],
                                ),
                                _ => (
                                    PathSegment::CubicTo {
                                        control_1: points[0],
                                        control_2: points[1],
                                        end: points[1],
                                    },
                                    points[1],
                                ),
                            };
                            Ok((appended(view, segment, end), Seq::empty()))
                        },
                    }
                },
            },
        }
    }
}

/// Changes one parameter of the current state.
pub open spec fn state_outcome(
    state: GraphicsState,
    kind: OperatorKind,
    operands: OperandsView,
    source: ContentOperatorSource,
) -> Result<GraphicsState, ContentVmError> {
    let refused = operator_failure(ContentVmErrorCode::InvalidGraphicsParameter, source);
    match kind {
        OperatorKind::SetLineWidth => {
            let value = operands->Numbers_0[0];
            if value.scaled < 0 {
                Err(refused)
            } else {
                Ok(GraphicsState { line_width: scalar_value(value), ..state })
            }
        },
        OperatorKind::SetLineCap => match operands->Integer_0 {
            0 => Ok(GraphicsState { line_cap: LineCap::Butt, ..state }),
            1 => Ok(GraphicsState { line_cap: LineCap::Round, ..state }),
            2 => Ok(GraphicsState { line_cap: LineCap::Square, ..state }),
            _ => Err(refused),
        },
        OperatorKind::SetLineJoin => match operands->Integer_0 {
            0 => Ok(GraphicsState { line_join: LineJoin::Miter, ..state }),
            1 => Ok(GraphicsState { line_join: LineJoin::Round, ..state }),
            2 => Ok(GraphicsState { line_join: LineJoin::Bevel, ..state }),
            _ => Err(refused),
        },
        OperatorKind::SetMiterLimit => {
            let value = operands->Numbers_0[0];
            if value.scaled < 1_000_000_000 {
                Err(refused)
            } else {
                Ok(GraphicsState { miter_limit: scalar_value(value), ..state })
            }
        },
        _ => {
            let numbers = operands->Numbers_0;
            let stroking = kind == OperatorKind::SetStrokingGray || kind
                == OperatorKind::SetStrokingRgb || kind == OperatorKind::SetStrokingCmyk;
            let color = match kind {
                OperatorKind::SetStrokingGray | OperatorKind::SetNonstrokingGray => {
                    DeviceColor::Gray(unit_value(numbers[0]))
                },
                OperatorKind::SetStrokingRgb | OperatorKind::SetNonstrokingRgb => {
                    DeviceColor::Rgb {
                        red: unit_value(numbers[0]),
                        green: unit_value(numbers[1]),
                        blue: unit_value(numbers[2]),
                    }
                },
                _ => DeviceColor::Cmyk {
                    cyan: unit_value(numbers[0]),
                    magenta: unit_value(numbers[1]),
                    yellow: unit_value(numbers[2]),
                    black: unit_value(numbers[3]),
                },
            };
            if stroking {
                Ok(GraphicsState { stroking: Paint { color, ..state.stroking }, ..state })
            } else {
                Ok(GraphicsState { nonstroking: Paint { color, ..state.nonstroking }, ..state })
            }
        },
    }
}

/// Whether an operator appends to the path by mapped points.
pub open spec fn is_path_operator(kind: OperatorKind) -> bool {
    point_count(kind) > 0
}

/// Whether an operator sets a line parameter or a color.
pub open spec fn is_state_operator(kind: OperatorKind) -> bool {
    match kind {
        OperatorKind::SetLineWidth
        | OperatorKind::SetLineCap
        | OperatorKind::SetLineJoin
        | OperatorKind::SetMiterLimit
        | OperatorKind::SetStrokingGray
        | OperatorKind::SetNonstrokingGray
        | OperatorKind::SetStrokingRgb
        | OperatorKind::SetNonstrokingRgb
        | OperatorKind::SetStrokingCmyk
        | OperatorKind::SetNonstrokingCmyk => true,
        _ => false,
    }
}

/// What one graphics operator does, memory aside. `mapped` are the points that it maps.
#[verifier::opaque]
pub open spec fn graphics_outcome(
    view: GraphicsView,
    kind: OperatorKind,
    operands: OperandsView,
    mapped: Seq<Result<ScenePoint, SceneError>>,
    limits: ContentGraphicsLimitConfig,
    source: ContentOperatorSource,
) -> GraphicsOutcome {
    if is_path_operator(kind) {
        path_outcome(view, kind, operands->Numbers_0, mapped, limits, source)
    } else if kind == OperatorKind::ClosePath {
        if view.subpath_start is None {
            Ok((view, Seq::empty()))
        } else {
            match segments_admitted(view, 1, limits, source) {
                Err(error) => Err(GraphicsFault::Vm(error)),
                Ok(_) => Ok((closed(view), Seq::empty())),
            }
        }
    } else if paint_of(kind) is Some {
        let (operation, close) = paint_of(kind)->0;
        paint_outcome(view, operation, close, limits, source)
    } else if kind == OperatorKind::ClipNonzero || kind == OperatorKind::ClipEvenOdd {
        let rule = if kind == OperatorKind::ClipNonzero {
            FillRule::Nonzero
        } else {
            FillRule::EvenOdd
        };
        Ok(
            (
                GraphicsView { pending_clip: Some(PendingClip { rule, source }), ..view },
                Seq::empty(),
            ),
        )
    } else if is_state_operator(kind) {
        match state_outcome(view.current, kind, operands, source) {
            Err(error) => Err(GraphicsFault::Vm(error)),
            Ok(current) => Ok((GraphicsView { current, ..view }, Seq::empty())),
        }
    } else {
        Err(GraphicsFault::Vm(operator_failure(ContentVmErrorCode::InternalState, source)))
    }
}

/// The machine after its state was saved.
pub open spec fn state_saved(view: GraphicsView) -> GraphicsView {
    GraphicsView { saved: view.saved.push(view.current), ..view }
}

/// The machine after the last saved state was restored.
pub open spec fn state_restored(view: GraphicsView) -> GraphicsView {
    GraphicsView { current: view.saved.last(), saved: view.saved.drop_last(), ..view }
}

/// Restoring undoes whatever happened to the current state since it was saved: every registered
/// paint, line, dash and clip field, and the transform.
pub proof fn restore_undoes_save(before: GraphicsView, changed: GraphicsState)
    ensures
        ({
            let after = state_restored(GraphicsView { current: changed, ..state_saved(before) });
            &&& after.current == before.current
            &&& after.saved == before.saved
        }),
{
    assert(before.saved.push(before.current).drop_last() =~= before.saved);
}

/// A subpath is closed at most once: closing again does nothing.
pub proof fn closing_twice_is_closing_once(view: GraphicsView)
    ensures
        closed(closed(view)) == closed(view),
{
}

/// Painting leaves no path behind, and publishes the path once for all actions that use it.
pub proof fn painting_consumes_the_path(
    view: GraphicsView,
    operation: PaintOperation,
    close: bool,
    limits: ContentGraphicsLimitConfig,
    source: ContentOperatorSource,
)
    ensures
        paint_outcome(view, operation, close, limits, source) matches Ok((after, actions)) ==> {
            &&& after.path.len() == 0
            &&& after.current_point is None
            &&& after.subpath_start is None
            &&& after.pending_clip is None
            &&& after.paths.len() == view.paths.len() + (if actions.len() > 0 {
                1int
            } else {
                0int
            })
        },
{
}

} // verus!
