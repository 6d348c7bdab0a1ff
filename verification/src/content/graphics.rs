//! The graphics machine: states, paths, dashes and painting.

use vstd::prelude::*;

use crate::content::accounting::{
    byte_width, capacity_bytes, geometric_capacity, grew, growth_failed, larger,
    reserve_vm_additional, retained_sum, Accounting,
};
use crate::content::graphics_limits::{graphics_preflight, ContentGraphicsLimits};
use crate::content::graphics_model::{
    all_mapped, closed, graphics_outcome, initial_graphics, is_path_operator, is_state_operator,
    paint_actions, paint_of, paint_outcome, painted, path_outcome, point_count, point_value,
    points_of, published, scalar_value, segments_admitted, state_outcome, state_restored,
    state_saved, strokes, unit_value, with_ext_gstate, DashView, GraphicsFault, GraphicsState,
    GraphicsView, PaintOperation, PendingClip,
};
use crate::content::model::ContentOperatorSource;
use crate::content::number::ContentNumber;
use crate::content::operands::{shaped, ValidatedOperands};
use crate::content::operator::OperatorKind;
use crate::content::plan::{ExecutionAction, LineStyle};
use crate::content::planner_model::changes_state_only;
use crate::content::scene::{
    command_source, BlendMode, DeviceColor, FillRule, LineCap, LineJoin, Matrix, Paint, PathSegment,
    SceneBounds, ScenePoint, SceneScalar, SceneUnit,
};
use crate::content::vm_error::{
    operator_failure, vm_error, vm_resource, ContentGraphicsLimitKind, ContentVmError,
    ContentVmErrorCode, ContentVmLimit, ContentVmLimitContext, ContentVmLimitKind, SceneError,
};
use crate::content::vm_limits::{vm_preflight, ContentVmLimitConfig, ContentVmLimits};
use crate::memory::{capacity_of, try_reserve_exact};

verus! {

/// Dash array and phase.
pub struct DashPattern {
    pub array: Vec<SceneScalar>,
    pub phase: SceneScalar,
}

/// One registered dash: its pattern, the capacity that it retains, and whether an action uses it.
pub struct DashEntry {
    pub pattern: DashPattern,
    pub retained: u64,
    pub published: bool,
}

/// One published path with the capacity that it retains.
pub struct PathEntry {
    pub segments: Vec<PathSegment>,
    pub retained: u64,
}

impl View for DashEntry {
    type V = DashView;

    open spec fn view(&self) -> DashView {
        DashView {
            array: self.pattern.array@,
            phase: self.pattern.phase,
            published: self.published,
        }
    }
}

/// The values of registered dashes.
pub open spec fn dash_views(dashes: Seq<DashEntry>) -> Seq<DashView> {
    dashes.map_values(|entry: DashEntry| entry@)
}

/// The values of published paths.
pub open spec fn path_views(paths: Seq<PathEntry>) -> Seq<Seq<PathSegment>> {
    paths.map_values(|entry: PathEntry| entry.segments@)
}

/// Bytes that published paths retain.
pub open spec fn path_bytes(paths: Seq<PathEntry>) -> int
    decreases paths.len(),
{
    if paths.len() == 0 {
        0
    } else {
        path_bytes(paths.drop_last()) + paths.last().retained
    }
}

/// Bytes that the first `count` dashes retain for actions: each published dash once.
pub open spec fn action_dash_bytes(dashes: Seq<DashEntry>, count: int) -> int
    decreases count,
{
    if count <= 0 {
        0
    } else {
        action_dash_bytes(dashes, count - 1) + (if dashes[count - 1].published {
            dashes[count - 1].retained as int
        } else {
            0
        })
    }
}

/// Whether some state uses dash `i`.
pub open spec fn referenced(states: Seq<GraphicsState>, i: int) -> bool {
    exists|k: int| 0 <= k < states.len() && (#[trigger] states[k]).dash == i
}

/// Bytes that the first `count` dashes retain: each dash that an action or a state uses, once.
pub open spec fn live_dash_bytes(
    dashes: Seq<DashEntry>,
    states: Seq<GraphicsState>,
    count: int,
) -> int
    decreases count,
{
    if count <= 0 {
        0
    } else {
        live_dash_bytes(dashes, states, count - 1) + (if dashes[count - 1].published || referenced(
            states,
            count - 1,
        ) {
            dashes[count - 1].retained as int
        } else {
            0
        })
    }
}

proof fn live_bytes_same(
    left: Seq<DashEntry>,
    left_states: Seq<GraphicsState>,
    right: Seq<DashEntry>,
    right_states: Seq<GraphicsState>,
    count: int,
)
    requires
        0 <= count <= left.len(),
        count <= right.len(),
        forall|i: int|
            0 <= i < count ==> {
                &&& (#[trigger] left[i]).retained == right[i].retained
                &&& (left[i].published || referenced(left_states, i)) == (right[i].published
                    || referenced(right_states, i))
            },
    ensures
        live_dash_bytes(left, left_states, count) == live_dash_bytes(right, right_states, count),
    decreases count,
{
    if count > 0 {
        live_bytes_same(left, left_states, right, right_states, count - 1);
        assert(left[count - 1].retained == right[count - 1].retained);
    }
}

proof fn live_bytes_drop(
    dashes: Seq<DashEntry>,
    states: Seq<GraphicsState>,
    fewer: Seq<GraphicsState>,
    count: int,
    dropped: int,
)
    requires
        0 <= count <= dashes.len(),
        0 <= dropped < dashes.len(),
        forall|i: int|
            0 <= i < dashes.len() && i != dropped ==> referenced(states, i) == #[trigger] referenced(
                fewer,
                i,
            ),
        dashes[dropped].published || referenced(states, dropped),
    ensures
        live_dash_bytes(dashes, fewer, count) == live_dash_bytes(dashes, states, count) - (
        if dropped < count && !dashes[dropped].published && !referenced(fewer, dropped) {
            dashes[dropped].retained as int
        } else {
            0
        }),
    decreases count,
{
    if count > 0 {
        live_bytes_drop(dashes, states, fewer, count - 1, dropped);
        if count - 1 != dropped {
            assert(referenced(states, count - 1) == referenced(fewer, count - 1));
        }
    }
}

proof fn live_bytes_bound(
    dashes: Seq<DashEntry>,
    states: Seq<GraphicsState>,
    count: int,
    i: int,
)
    requires
        0 <= i < count <= dashes.len(),
    ensures
        live_dash_bytes(dashes, states, count) >= 0,
        dashes[i].published || referenced(states, i) ==> dashes[i].retained <= live_dash_bytes(
            dashes,
            states,
            count,
        ),
    decreases count,
{
    live_bytes_nonnegative(dashes, states, count - 1);
    if i < count - 1 {
        live_bytes_bound(dashes, states, count - 1, i);
    }
}

proof fn live_bytes_nonnegative(dashes: Seq<DashEntry>, states: Seq<GraphicsState>, count: int)
    requires
        count <= dashes.len(),
    ensures
        live_dash_bytes(dashes, states, count) >= 0,
    decreases count,
{
    if count > 0 {
        live_bytes_nonnegative(dashes, states, count - 1);
    }
}

proof fn action_bytes_publish(before: Seq<DashEntry>, after: Seq<DashEntry>, dash: int, count: int)
    requires
        0 <= count <= before.len() == after.len(),
        0 <= dash < before.len(),
        after[dash].published,
        forall|i: int|
            0 <= i < before.len() ==> (#[trigger] after[i]).retained == before[i].retained && (i
                != dash ==> after[i].published == before[i].published),
    ensures
        action_dash_bytes(after, count) == action_dash_bytes(before, count) + (if dash < count
            && !before[dash].published {
            before[dash].retained as int
        } else {
            0
        }),
    decreases count,
{
    if count > 0 {
        action_bytes_publish(before, after, dash, count - 1);
        assert(after[count - 1].retained == before[count - 1].retained);
    }
}

/// What actions retain, with a dash that a state uses and no action yet, is live.
proof fn action_bytes_are_live(
    dashes: Seq<DashEntry>,
    states: Seq<GraphicsState>,
    count: int,
    dash: int,
)
    requires
        0 <= count <= dashes.len(),
        0 <= dash,
        referenced(states, dash),
    ensures
        action_dash_bytes(dashes, count) + (if dash < count && !dashes[dash].published {
            dashes[dash].retained as int
        } else {
            0
        }) <= live_dash_bytes(dashes, states, count),
    decreases count,
{
    if count > 0 {
        action_bytes_are_live(dashes, states, count - 1, dash);
    }
}

proof fn action_bytes_prefix(left: Seq<DashEntry>, right: Seq<DashEntry>, count: int)
    requires
        0 <= count <= left.len(),
        count <= right.len(),
        forall|i: int|
            0 <= i < count ==> (#[trigger] left[i]).retained == right[i].retained
                && left[i].published == right[i].published,
    ensures
        action_dash_bytes(left, count) == action_dash_bytes(right, count),
    decreases count,
{
    if count > 0 {
        action_bytes_prefix(left, right, count - 1);
        assert(left[count - 1].retained == right[count - 1].retained);
    }
}

/// Retained bytes outside the machine, and the budgets that totals are held to.
#[derive(Clone, Copy)]
pub struct VmRetention {
    pub program_bytes: u64,
    pub property_bytes: u64,
    pub limits: ContentVmLimits,
}

impl VmRetention {
    /// Creates a retention context.
    pub fn new(program_bytes: u64, property_bytes: u64, limits: ContentVmLimits) -> (retention:
        Self)
        ensures
            retention.program_bytes == program_bytes,
            retention.property_bytes == property_bytes,
            retention.limits == limits,
    {
        Self { program_bytes, property_bytes, limits }
    }

    /// Returns the total with the machine's bytes; one that does not fit counts as all there is.
    pub fn total_with(self, machine_bytes: u64) -> (total: u64)
        ensures
            total == crate::content::accounting::retained_sum(
                self.program_bytes + self.property_bytes + machine_bytes,
            ),
    {
        self.program_bytes.saturating_add(self.property_bytes).saturating_add(machine_bytes)
    }
}

/// Admission of one dash candidate.
#[derive(Clone, Copy)]
pub struct DashRetentionAdmission {
    pub graphics_consumed: u64,
    pub vm_consumed: u64,
    pub graphics_limits: ContentGraphicsLimits,
    pub vm_limits: ContentVmLimits,
    pub source: ContentOperatorSource,
}

impl DashRetentionAdmission {
    /// Holds the granted capacity against both budgets.
    pub fn preflight_actual(self, actual: u64) -> (result: Result<(), ContentVmError>)
        ensures
            result matches Err(error) ==> error.is_retained_failure(),
            result == (match graphics_preflight(
                self.graphics_limits@,
                ContentGraphicsLimitKind::DashRetainedBytes,
                self.graphics_consumed,
                actual,
                Some(self.source),
            ) {
                Ok(_) => vm_preflight(
                    self.vm_limits@,
                    ContentVmLimitKind::RetainedBytes,
                    self.vm_consumed,
                    actual,
                    Some(self.source),
                ),
                Err(error) => Err(error),
            }),
    {
        match self.graphics_limits.preflight(
            ContentGraphicsLimitKind::DashRetainedBytes,
            self.graphics_consumed,
            actual,
            Some(self.source),
        ) {
            Ok(_) => {},
            Err(error) => {
                return Err(error);
            },
        }
        self.vm_limits.preflight(
            ContentVmLimitKind::RetainedBytes,
            self.vm_consumed,
            actual,
            Some(self.source),
        )
    }

    /// The failure of an allocation that the allocator refused.
    pub fn allocation_error(self, attempted: u64) -> (error: ContentVmError)
        ensures
            error.is_allocation_failure(),
            error == vm_resource(
                ContentVmLimitContext::Vm(
                    ContentVmLimit {
                        kind: ContentVmLimitKind::Allocation,
                        limit: self.vm_limits@.max_retained_bytes,
                        consumed: self.vm_consumed,
                        attempted,
                    },
                ),
                Some(self.source),
            ),
    {
        ContentVmError::resource(
            ContentVmLimit::new(
                ContentVmLimitKind::Allocation,
                self.vm_limits.max_retained_bytes(),
                self.vm_consumed,
                attempted,
            ),
            Some(self.source),
        )
    }

    /// The retained total with the candidate.
    pub fn retained_with_candidate(self, actual: u64) -> (total: u64)
        ensures
            total == retained_sum(self.vm_consumed + actual),
    {
        self.vm_consumed.saturating_add(actual)
    }
}

/// The path under construction.
pub struct CurrentPath {
    pub segments: Vec<PathSegment>,
    pub current_point: Option<ScenePoint>,
    pub subpath_start: Option<ScenePoint>,
    pub pending_clip: Option<PendingClip>,
}

impl Default for CurrentPath {
    fn default() -> (path: Self)
        ensures
            path.segments@.len() == 0,
            path.current_point is None,
            path.subpath_start is None,
            path.pending_clip is None,
    {
        Self {
            segments: Vec::new(),
            current_point: None,
            subpath_start: None,
            pending_clip: None,
        }
    }
}

impl CurrentPath {
    /// Makes room for `additional` segments, geometrically, within both retained budgets. The
    /// segment budget is held first; moving the live segments costs one unit of fuel each.
    pub fn reserve(
        &mut self,
        additional: usize,
        limits: ContentGraphicsLimits,
        vm_limits: ContentVmLimits,
        vm_consumed_without_path: u64,
        source: ContentOperatorSource,
        accounting: &mut Accounting,
    ) -> (result: Result<(), ContentVmError>)
        requires
            additional > 0,
        ensures
            final(self).segments@ == old(self).segments@,
            final(self).current_point == old(self).current_point,
            final(self).subpath_start == old(self).subpath_start,
            final(self).pending_clip == old(self).pending_clip,
            grew(*old(accounting), *final(accounting), old(self).segments@.len() as int),
            ({
                let admitted = graphics_preflight(
                    limits@,
                    ContentGraphicsLimitKind::PathSegments,
                    old(self).segments@.len() as u64,
                    additional as u64,
                    Some(source),
                );
                let needed = (old(self).segments@.len() + additional)
                    * vstd::layout::size_of::<PathSegment>();
                match result {
                    Ok(_) => {
                        &&& admitted is Ok
                        &&& old(self).segments@.len() + additional <= usize::MAX ==> {
                            &&& retained_sum(needed as int) <= limits@.budget(
                                ContentGraphicsLimitKind::PathRetainedBytes,
                            )
                            &&& vm_consumed_without_path + needed <= vm_limits@.max_retained_bytes
                        }
                    },
                    Err(error) => admitted == Err::<(), ContentVmError>(error) || (admitted is Ok
                        && growth_failed(
                        error,
                        vm_limits@,
                        old(accounting).fuel,
                        old(self).segments@.len() as int,
                    )),
                }
            }),
    {
        let len: usize = self.segments.len();
        match limits.preflight(
            ContentGraphicsLimitKind::PathSegments,
            len as u64,
            additional as u64,
            Some(source),
        ) {
            Ok(_) => {},
            Err(error) => {
                return Err(error);
            },
        }
        let desired: usize = len.saturating_add(additional);
        let capacity: usize = capacity_of(&self.segments);
        let target: usize = geometric_capacity(capacity, desired);
        let target_bytes: u64 = byte_width::<PathSegment>(target);
        let current_bytes: u64 = byte_width::<PathSegment>(capacity);
        let attempted: u64 = target_bytes.saturating_sub(current_bytes);
        proof {
            let width = vstd::layout::size_of::<PathSegment>();
            assert(target * width >= desired * width) by (nonlinear_arith)
                requires
                    target >= desired,
            ;
        }
        match limits.preflight(
            ContentGraphicsLimitKind::PathRetainedBytes,
            current_bytes,
            attempted,
            Some(source),
        ) {
            Ok(_) => {},
            Err(error) => {
                return Err(error);
            },
        }
        let vm_consumed: u64 = vm_consumed_without_path.saturating_add(current_bytes);
        match vm_limits.preflight(
            ContentVmLimitKind::RetainedBytes,
            vm_consumed,
            attempted,
            Some(source),
        ) {
            Ok(_) => {},
            Err(error) => {
                return Err(error);
            },
        }
        if target > capacity {
            match accounting.charge_fuel(vm_limits, len as u64, source) {
                Ok(_) => {},
                Err(error) => {
                    return Err(error);
                },
            }
            if !try_reserve_exact(&mut self.segments, target - len) {
                return Err(
                    ContentVmError::resource(
                        ContentVmLimit::new(
                            ContentVmLimitKind::Allocation,
                            vm_limits.max_retained_bytes(),
                            vm_consumed,
                            attempted,
                        ),
                        Some(source),
                    ),
                );
            }
        }
        let actual: u64 = capacity_bytes(&self.segments);
        match limits.preflight(
            ContentGraphicsLimitKind::PathRetainedBytes,
            current_bytes,
            actual.saturating_sub(current_bytes),
            Some(source),
        ) {
            Ok(_) => {},
            Err(error) => {
                return Err(error);
            },
        }
        vm_limits.preflight(
            ContentVmLimitKind::RetainedBytes,
            vm_consumed_without_path,
            actual,
            Some(source),
        )
    }

    /// Appends a segment that has room.
    pub fn push(&mut self, segment: PathSegment)
        ensures
            final(self).segments@ == old(self).segments@.push(segment),
            final(self).current_point == old(self).current_point,
            final(self).subpath_start == old(self).subpath_start,
            final(self).pending_clip == old(self).pending_clip,
    {
        self.segments.push(segment);
    }

    /// Returns the capacity that the path retains.
    pub fn retained_bytes(&self) -> (bytes: u64)
        ensures
            self.segments@.len() * vstd::layout::size_of::<PathSegment>() <= bytes <= isize::MAX,
    {
        capacity_bytes(&self.segments)
    }
}

/// The graphics machine of one interpretation.
pub struct GraphicsVm {
    pub current: GraphicsState,
    pub saved: Vec<GraphicsState>,
    pub path: CurrentPath,
    pub dashes: Vec<DashEntry>,
    pub paths: Vec<PathEntry>,
    pub dash_retained_bytes: u64,
    pub action_path_retained_bytes: u64,
    pub action_dash_retained_bytes: u64,
}

impl View for GraphicsVm {
    type V = GraphicsView;

    open spec fn view(&self) -> GraphicsView {
        GraphicsView {
            current: self.current,
            saved: self.saved@,
            path: self.path.segments@,
            current_point: self.path.current_point,
            subpath_start: self.path.subpath_start,
            pending_clip: self.path.pending_clip,
            dashes: dash_views(self.dashes@),
            paths: path_views(self.paths@),
        }
    }
}

impl GraphicsVm {
    /// Saved states and the current one.
    pub open spec fn states(&self) -> Seq<GraphicsState> {
        self.saved@.push(self.current)
    }

    /// The invariant: every state uses a registered dash, and the three retained totals are exactly
    /// the sums over the registries. A path or dash that several actions share counts once.
    pub open spec fn well_formed(&self) -> bool {
        &&& self.current.dash < self.dashes@.len()
        &&& forall|i: int|
            0 <= i < self.saved@.len() ==> (#[trigger] self.saved@[i]).dash < self.dashes@.len()
        &&& self.action_path_retained_bytes == path_bytes(self.paths@)
        &&& self.action_dash_retained_bytes == action_dash_bytes(
            self.dashes@,
            self.dashes@.len() as int,
        )
        &&& self.dash_retained_bytes == live_dash_bytes(
            self.dashes@,
            self.states(),
            self.dashes@.len() as int,
        )
    }

    /// Creates the machine that content starts with.
    pub fn new() -> (machine: Self)
        ensures
            machine.well_formed(),
            machine@ == initial_graphics(),
            machine.dash_retained_bytes == 0,
            machine.action_path_retained_bytes == 0,
            machine.action_dash_retained_bytes == 0,
    {
        let black = Paint::new(
            DeviceColor::Gray(SceneUnit::from_u16(0)),
            SceneUnit::from_u16(65535),
            BlendMode::Normal,
        );
        let current = GraphicsState {
            ctm: Matrix::identity(),
            line_width: SceneScalar::from_scaled(1_000_000_000),
            line_cap: LineCap::Butt,
            line_join: LineJoin::Miter,
            miter_limit: SceneScalar::from_scaled(10_000_000_000),
            dash: 0,
            stroking: black,
            nonstroking: black,
            clip_depth: 0,
        };
        let mut dashes: Vec<DashEntry> = Vec::new();
        dashes.push(
            DashEntry {
                pattern: DashPattern { array: Vec::new(), phase: SceneScalar::from_scaled(0) },
                retained: 0,
                published: false,
            },
        );
        let machine = Self {
            current,
            saved: Vec::new(),
            path: CurrentPath::default(),
            dashes,
            paths: Vec::new(),
            dash_retained_bytes: 0,
            action_path_retained_bytes: 0,
            action_dash_retained_bytes: 0,
        };
        proof {
            reveal_with_fuel(live_dash_bytes, 3);
            reveal_with_fuel(action_dash_bytes, 3);
            assert(machine@.saved =~= initial_graphics().saved);
            assert(machine@.path =~= initial_graphics().path);
            assert(machine@.dashes[0].array =~= initial_graphics().dashes[0].array);
            assert(machine@.dashes =~= initial_graphics().dashes);
            assert(machine@.paths =~= initial_graphics().paths);
        }
        machine
    }

    /// Returns the bytes that paths and dashes of actions retain, each counted once.
    pub fn action_payload_retained_bytes(&self) -> (bytes: Option<u64>)
        requires
            self.well_formed(),
        ensures
            ({
                let total = path_bytes(self.paths@) + action_dash_bytes(
                    self.dashes@,
                    self.dashes@.len() as int,
                );
                bytes == if total <= u64::MAX {
                    Some(total as u64)
                } else {
                    None
                }
            }),
    {
        self.action_path_retained_bytes.checked_add(self.action_dash_retained_bytes)
    }

    /// Registers a path that is not under construction. Returns its place.
    pub fn register_path(&mut self, segments: Vec<PathSegment>, retained: u64) -> (place: usize)
        requires
            old(self).well_formed(),
            old(self).action_path_retained_bytes + retained <= u64::MAX,
        ensures
            final(self).well_formed(),
            place == old(self)@.paths.len(),
            final(self)@ == (GraphicsView {
                paths: old(self)@.paths.push(segments@),
                ..old(self)@
            }),
    {
        let place: usize = self.paths.len();
        self.action_path_retained_bytes = self.action_path_retained_bytes + retained;
        self.paths.push(PathEntry { segments, retained });
        proof {
            assert(self@.paths =~= old(self)@.paths.push(segments@));
            assert(self.paths@.drop_last() =~= old(self).paths@);
            assert(self.states() =~= old(self).states());
        }
        place
    }

    /// Borrows the current dash.
    pub fn current_dash(&self) -> (dash: &DashPattern)
        requires
            self.well_formed(),
        ensures
            dash.array@ == self@.dashes[self.current.dash as int].array,
            dash.phase == self@.dashes[self.current.dash as int].phase,
    {
        &self.dashes[self.current.dash].pattern
    }

    /// Replaces the current transform.
    pub fn set_ctm(&mut self, value: Matrix)
        requires
            old(self).well_formed(),
        ensures
            final(self).well_formed(),
            final(self)@ == (GraphicsView {
                current: GraphicsState { ctm: value, ..old(self).current },
                ..old(self)@
            }),
    {
        let next = GraphicsState {
            ctm: value,
            line_width: self.current.line_width,
            line_cap: self.current.line_cap,
            line_join: self.current.line_join,
            miter_limit: self.current.miter_limit,
            dash: self.current.dash,
            stroking: self.current.stroking,
            nonstroking: self.current.nonstroking,
            clip_depth: self.current.clip_depth,
        };
        self.replace_current(next);
    }

    /// Replaces the current state by one with the same dash.
    fn replace_current(&mut self, next: GraphicsState)
        requires
            old(self).well_formed(),
            next.dash == old(self).current.dash,
        ensures
            final(self).well_formed(),
            final(self)@ == (GraphicsView { current: next, ..old(self)@ }),
    {
        let ghost before = self.states();
        self.current = next;
        proof {
            same_references(before, self.states());
            live_bytes_same(
                self.dashes@,
                before,
                self.dashes@,
                self.states(),
                self.dashes@.len() as int,
            );
        }
    }

    /// Applies an external graphics state.
    pub fn apply_ext_gstate(
        &mut self,
        stroking_alpha: Option<SceneUnit>,
        nonstroking_alpha: Option<SceneUnit>,
        blend_mode: Option<BlendMode>,
    )
        requires
            old(self).well_formed(),
        ensures
            final(self).well_formed(),
            final(self)@ == (GraphicsView {
                current: with_ext_gstate(
                    old(self).current,
                    stroking_alpha,
                    nonstroking_alpha,
                    blend_mode,
                ),
                ..old(self)@
            }),
    {
        let mut next = self.current;
        if let Some(alpha) = stroking_alpha {
            next.stroking.alpha = alpha;
        }
        if let Some(alpha) = nonstroking_alpha {
            next.nonstroking.alpha = alpha;
        }
        if let Some(mode) = blend_mode {
            next.stroking.blend_mode = mode;
            next.nonstroking.blend_mode = mode;
        }
        self.replace_current(next);
    }

    /// Saves the current state.
    pub fn push_current(&mut self)
        requires
            old(self).well_formed(),
        ensures
            final(self).well_formed(),
            final(self)@ == state_saved(old(self)@),
            final(self).dash_retained_bytes == old(self).dash_retained_bytes,
    {
        let ghost before = self.states();
        self.saved.push(self.current);
        proof {
            assert forall|i: int| referenced(before, i) == #[trigger] referenced(
                self.states(),
                i,
            ) by {
                if referenced(before, i) {
                    let k = choose|k: int| 0 <= k < before.len() && (#[trigger] before[k]).dash == i;
                    assert(self.states()[k] == before[k]);
                }
                if referenced(self.states(), i) {
                    let k = choose|k: int|
                        0 <= k < self.states().len() && (#[trigger] self.states()[k]).dash == i;
                    if k < before.len() {
                        assert(before[k] == self.states()[k]);
                    } else {
                        assert(before[before.len() - 1] == self.states()[k]);
                    }
                }
            }
            live_bytes_same(
                self.dashes@,
                before,
                self.dashes@,
                self.states(),
                self.dashes@.len() as int,
            );
        }
    }

    /// Whether a saved state uses the current dash.
    fn current_dash_is_saved(&self) -> (saved: bool)
        ensures
            saved == referenced(self.saved@, self.current.dash as int),
    {
        let mut i: usize = 0;
        while i < self.saved.len()
            invariant
                i <= self.saved@.len(),
                forall|k: int|
                    0 <= k < i ==> (#[trigger] self.saved@[k]).dash != self.current.dash,
            decreases self.saved@.len() - i,
        {
            if self.saved[i].dash == self.current.dash {
                assert(self.saved@[i as int].dash == self.current.dash);
                return true;
            }
            i = i + 1;
        }
        false
    }

    /// The bytes that are released when the current state lets go of its dash.
    fn released_bytes(&self) -> (bytes: u64)
        requires
            self.well_formed(),
        ensures
            bytes == (if !self.dashes@[self.current.dash as int].published && !referenced(
                self.saved@,
                self.current.dash as int,
            ) {
                self.dashes@[self.current.dash as int].retained
            } else {
                0
            }),
            bytes <= self.dash_retained_bytes,
    {
        proof {
            let states = self.states();
            assert(states[states.len() - 1].dash == self.current.dash);
            live_bytes_bound(
                self.dashes@,
                states,
                self.dashes@.len() as int,
                self.current.dash as int,
            );
        }
        if !self.dashes[self.current.dash].published && !self.current_dash_is_saved() {
            self.dashes[self.current.dash].retained
        } else {
            0
        }
    }

    /// Restores the last saved state and returns its transform.
    pub fn restore(&mut self) -> (restored: Option<Matrix>)
        requires
            old(self).well_formed(),
        ensures
            final(self).well_formed(),
            match restored {
                Some(ctm) => {
                    &&& old(self)@.saved.len() > 0
                    &&& final(self)@ == state_restored(old(self)@)
                    &&& ctm == final(self).current.ctm
                },
                None => old(self)@.saved.len() == 0 && final(self)@ == old(self)@,
            },
    {
        if self.saved.len() == 0 {
            return None;
        }
        let released: u64 = self.released_bytes();
        let ghost before = self.states();
        let ghost saved = self.saved@;
        let ghost dropped = self.current.dash as int;
        match self.saved.pop() {
            Some(restored) => {
                self.current = restored;
            },
            None => {
                assert(false);
            },
        }
        proof {
            let after = self.states();
            assert(after =~= saved);
            assert forall|i: int|
                0 <= i < self.dashes@.len() && i != dropped implies referenced(before, i)
                == #[trigger] referenced(after, i) by {
                if referenced(before, i) {
                    let k = choose|k: int| 0 <= k < before.len() && (#[trigger] before[k]).dash == i;
                    assert(k < saved.len());
                    assert(after[k].dash == i);
                }
                if referenced(after, i) {
                    let k = choose|k: int| 0 <= k < after.len() && (#[trigger] after[k]).dash == i;
                    assert(before[k].dash == i);
                }
            }
            assert(before[before.len() - 1].dash == dropped);
            live_bytes_drop(self.dashes@, before, after, self.dashes@.len() as int, dropped);
            assert(self@.saved =~= saved.drop_last());
        }
        self.dash_retained_bytes = self.dash_retained_bytes - released;
        Some(self.current.ctm)
    }

    /// Registers a dash and makes it current. The dash that it replaces is released when no saved
    /// state and no action uses it.
    pub fn set_dash(&mut self, pattern: DashPattern, source: ContentOperatorSource) -> (result: Result<
        (),
        ContentVmError,
    >)
        requires
            old(self).well_formed(),
        ensures
            final(self).well_formed(),
            match result {
                Ok(_) => final(self)@ == (GraphicsView {
                    current: GraphicsState {
                        dash: old(self)@.dashes.len() as usize,
                        ..old(self).current
                    },
                    dashes: old(self)@.dashes.push(
                        DashView {
                            array: pattern.array@,
                            phase: pattern.phase,
                            published: false,
                        },
                    ),
                    ..old(self)@
                }),
                Err(error) => {
                    &&& error == operator_failure(ContentVmErrorCode::InternalState, source)
                    &&& old(self).dash_retained_bytes > u64::MAX - isize::MAX
                    &&& final(self)@ == old(self)@
                },
            },
    {
        let retained: u64 = capacity_bytes(&pattern.array);
        let released: u64 = self.released_bytes();
        let next: u64 = match (self.dash_retained_bytes - released).checked_add(retained) {
            Some(next) => next,
            None => {
                return Err(vm_error(ContentVmErrorCode::InternalState, source));
            },
        };
        let place: usize = self.dashes.len();
        let ghost before = *self;
        let ghost dropped = self.current.dash as int;
        self.dashes.push(DashEntry { pattern, retained, published: false });
        self.current.dash = place;
        self.dash_retained_bytes = next;
        proof {
            let fewer = before.saved@;
            let count = before.dashes@.len() as int;
            let old_states = before.states();
            assert forall|i: int|
                0 <= i < count && i != dropped implies referenced(old_states, i)
                == #[trigger] referenced(fewer, i) by {
                if referenced(old_states, i) {
                    let k = choose|k: int|
                        0 <= k < old_states.len() && (#[trigger] old_states[k]).dash == i;
                    assert(fewer[k].dash == i);
                }
                if referenced(fewer, i) {
                    let k = choose|k: int| 0 <= k < fewer.len() && (#[trigger] fewer[k]).dash == i;
                    assert(old_states[k].dash == i);
                }
            }
            assert(old_states[old_states.len() - 1].dash == dropped);
            live_bytes_drop(before.dashes@, old_states, fewer, count, dropped);
            let states = self.states();
            assert forall|i: int| 0 <= i < count implies {
                &&& (#[trigger] self.dashes@[i]).retained == before.dashes@[i].retained
                &&& (self.dashes@[i].published || referenced(states, i)) == (
                before.dashes@[i].published || referenced(fewer, i))
            } by {
                if referenced(states, i) {
                    let k = choose|k: int| 0 <= k < states.len() && (#[trigger] states[k]).dash == i;
                    assert(fewer[k].dash == i);
                }
                if referenced(fewer, i) {
                    let k = choose|k: int| 0 <= k < fewer.len() && (#[trigger] fewer[k]).dash == i;
                    assert(states[k].dash == i);
                }
            }
            live_bytes_same(self.dashes@, states, before.dashes@, fewer, count);
            action_bytes_prefix(self.dashes@, before.dashes@, count);
            assert(states[states.len() - 1].dash == place);
            assert(self@.dashes =~= before@.dashes.push(self.dashes@[count]@));
        }
        Ok(())
    }

    /// What the machine retains at least: its saved states, its path, its dashes and the paths of
    /// its actions. How much more the allocator gave for them is its to say.
    pub open spec fn least_retained(&self) -> int {
        self.saved@.len() * vstd::layout::size_of::<GraphicsState>() + self.path.segments@.len()
            * vstd::layout::size_of::<PathSegment>() + self.dash_retained_bytes
            + self.action_path_retained_bytes
    }

    /// Returns the capacity that the machine retains; what does not fit counts as all there is.
    pub fn retained_capacity_bytes(&self) -> (bytes: u64)
        ensures
            bytes >= retained_sum(self.least_retained()),
            bytes >= self.dash_retained_bytes,
            bytes >= self.action_path_retained_bytes,
    {
        let saved: u64 = capacity_bytes(&self.saved);
        let path: u64 = self.path.retained_bytes();
        saved.saturating_add(path).saturating_add(self.dash_retained_bytes).saturating_add(
            self.action_path_retained_bytes,
        )
    }

    /// Makes room for one more saved state. Moving the live ones costs one unit of fuel each.
    pub fn reserve_saved_slot(
        &mut self,
        retention: VmRetention,
        source: ContentOperatorSource,
        accounting: &mut Accounting,
    ) -> (total: Result<u64, ContentVmError>)
        requires
            old(self).well_formed(),
        ensures
            final(self).well_formed(),
            final(self)@ == old(self)@,
            grew(*old(accounting), *final(accounting), old(self).saved@.len() as int),
            match total {
                Ok(bytes) => {
                    &&& retention.program_bytes + retention.property_bytes
                        + old(self).least_retained() <= bytes
                    &&& bytes <= retention.limits@.max_retained_bytes
                    &&& final(accounting).peak_retained == larger(
                        old(accounting).peak_retained,
                        bytes,
                    )
                },
                Err(error) => growth_failed(
                    error,
                    retention.limits@,
                    old(accounting).fuel,
                    old(self).saved@.len() as int,
                ),
            },
    {
        let _ceiling: u64 = retention.limits.max_retained_bytes();
        let path: u64 = self.path.retained_bytes();
        let fixed: u64 = path.saturating_add(self.dash_retained_bytes).saturating_add(
            self.action_path_retained_bytes,
        ).saturating_add(retention.property_bytes);
        reserve_vm_additional(
            &mut self.saved,
            1,
            retention.program_bytes,
            fixed,
            retention.limits,
            source,
            accounting,
        )
    }

    /// Admits a dash of `entries` entries: the entry budget first, then both retained budgets.
    pub fn preflight_dash_candidate(
        &self,
        entries: u64,
        expected_bytes: u64,
        graphics_limits: ContentGraphicsLimits,
        retention: VmRetention,
        source: ContentOperatorSource,
    ) -> (admission: Result<DashRetentionAdmission, ContentVmError>)
        ensures
            ({
                let admitted = graphics_preflight(
                    graphics_limits@,
                    ContentGraphicsLimitKind::DashEntries,
                    0,
                    entries,
                    Some(source),
                );
                let held = graphics_preflight(
                    graphics_limits@,
                    ContentGraphicsLimitKind::DashRetainedBytes,
                    self.dash_retained_bytes,
                    expected_bytes,
                    Some(source),
                );
                match admission {
                    Ok(admission) => {
                        &&& admitted is Ok
                        &&& held is Ok
                        &&& self.dash_retained_bytes <= u64::MAX - isize::MAX
                        &&& admission.graphics_consumed == self.dash_retained_bytes
                        &&& admission.graphics_limits == graphics_limits
                        &&& admission.vm_limits == retention.limits
                        &&& admission.source == source
                        &&& retention.program_bytes + retention.property_bytes
                            + self.least_retained() <= admission.vm_consumed
                        &&& admission.vm_consumed + expected_bytes
                            <= retention.limits@.max_retained_bytes
                    },
                    Err(error) => if admitted is Err {
                        admitted == Err::<(), ContentVmError>(error)
                    } else if held is Err {
                        held == Err::<(), ContentVmError>(error) && error.is_retained_failure()
                    } else {
                        error.is_retained_failure()
                    },
                }
            }),
    {
        match graphics_limits.preflight(
            ContentGraphicsLimitKind::DashEntries,
            0,
            entries,
            Some(source),
        ) {
            Ok(_) => {},
            Err(error) => {
                return Err(error);
            },
        }
        match graphics_limits.preflight(
            ContentGraphicsLimitKind::DashRetainedBytes,
            self.dash_retained_bytes,
            expected_bytes,
            Some(source),
        ) {
            Ok(_) => {},
            Err(error) => {
                return Err(error);
            },
        }
        let held: u64 = self.retained_capacity_bytes();
        let vm_consumed: u64 = retention.total_with(held);
        match retention.limits.preflight(
            ContentVmLimitKind::RetainedBytes,
            vm_consumed,
            expected_bytes,
            Some(source),
        ) {
            Ok(_) => Ok(
                DashRetentionAdmission {
                    graphics_consumed: self.dash_retained_bytes,
                    vm_consumed,
                    graphics_limits,
                    vm_limits: retention.limits,
                    source,
                },
            ),
            Err(error) => Err(error),
        }
    }

    /// Whether two machines differ in the path under construction only.
    spec fn same_but_path(&self, other: &Self) -> bool {
        &&& self.current == other.current
        &&& self.saved == other.saved
        &&& self.dashes == other.dashes
        &&& self.paths == other.paths
        &&& self.dash_retained_bytes == other.dash_retained_bytes
        &&& self.action_path_retained_bytes == other.action_path_retained_bytes
        &&& self.action_dash_retained_bytes == other.action_dash_retained_bytes
    }

    /// Appends to the path by mapped points.
    fn execute_path(
        &mut self,
        kind: OperatorKind,
        operands: &ValidatedOperands<'_>,
        mapped: &[Result<ScenePoint, SceneError>],
        limits: ContentGraphicsLimits,
        vm_limits: ContentVmLimits,
        path_vm_consumed: u64,
        source: ContentOperatorSource,
        accounting: &mut Accounting,
    ) -> (result: Result<(), GraphicsFault>)
        requires
            old(self).well_formed(),
            is_path_operator(kind),
            shaped(kind.spec_shape(), *operands),
            mapped@.len() == point_count(kind),
        ensures
            final(self).well_formed(),
            grew(*old(accounting), *final(accounting), old(self)@.path.len() as int),
            ({
                let outcome = path_outcome(
                    old(self)@,
                    kind,
                    operands@->Numbers_0,
                    mapped@,
                    limits@,
                    source,
                );
                match result {
                    Ok(_) => outcome == Ok::<(GraphicsView, Seq<ExecutionAction>), GraphicsFault>(
                        (final(self)@, Seq::empty()),
                    ),
                    Err(fault) => match outcome {
                        Err(expected) => fault == expected,
                        Ok(_) => fault matches GraphicsFault::Vm(error) && growth_failed(
                            error,
                            vm_limits@,
                            old(accounting).fuel,
                            old(self)@.path.len() as int,
                        ),
                    },
                }
            }),
    {
        let ghost before = self@;
        if kind == OperatorKind::CubicCurveToReplicateInitial && self.path.current_point.is_none() {
            return Err(
                GraphicsFault::Vm(vm_error(ContentVmErrorCode::InvalidPathState, source)),
            );
        }
        match user_points(kind, operands) {
            Ok(_) => {},
            Err(error) => {
                return Err(GraphicsFault::Scene(error));
            },
        }
        let points = match unwrap_mapped(mapped, mapped_count(kind)) {
            Ok(points) => points,
            Err(error) => {
                return Err(GraphicsFault::Scene(error));
            },
        };
        if kind == OperatorKind::MoveTo {
            match self.path.reserve(1, limits, vm_limits, path_vm_consumed, source, accounting) {
                Ok(_) => {},
                Err(error) => {
                    return Err(GraphicsFault::Vm(error));
                },
            }
            self.path.push(PathSegment::MoveTo(points[0]));
            self.path.current_point = Some(points[0]);
            self.path.subpath_start = Some(points[0]);
            return Ok(());
        }
        if kind == OperatorKind::Rectangle {
            match self.path.reserve(5, limits, vm_limits, path_vm_consumed, source, accounting) {
                Ok(_) => {},
                Err(error) => {
                    return Err(GraphicsFault::Vm(error));
                },
            }
            self.path.push(PathSegment::MoveTo(points[0]));
            self.path.push(PathSegment::LineTo(points[1]));
            self.path.push(PathSegment::LineTo(points[2]));
            self.path.push(PathSegment::LineTo(points[3]));
            self.path.push(PathSegment::ClosePath);
            self.path.current_point = Some(points[0]);
            self.path.subpath_start = None;
            return Ok(());
        }
        let current = match self.path.current_point {
            Some(current) => current,
            None => {
                return Err(
                    GraphicsFault::Vm(vm_error(ContentVmErrorCode::InvalidPathState, source)),
                );
            },
        };
        let reopen = self.path.subpath_start.is_none();
        let additional: usize = if reopen {
            2
        } else {
            1
        };
        match self.path.reserve(
            additional,
            limits,
            vm_limits,
            path_vm_consumed,
            source,
            accounting,
        ) {
            Ok(_) => {},
            Err(error) => {
                return Err(GraphicsFault::Vm(error));
            },
        }
        let (segment, end) = match kind {
            OperatorKind::LineTo => (PathSegment::LineTo(points[0]), points[0]),
            OperatorKind::CubicCurveTo => (
                PathSegment::CubicTo {
                    control_1: points[0],
                    control_2: points[1],
                    end: points[2],
                },
                points[2],
            ),
            OperatorKind::CubicCurveToReplicateInitial => (
                PathSegment::CubicTo { control_1: current, control_2: points[0], end: points[1] },
                points[1],
            ),
            _ => (
                PathSegment::CubicTo { control_1: points[0], control_2: points[1], end: points[1] },
                points[1],
            ),
        };
        if reopen {
            self.path.push(PathSegment::MoveTo(current));
            self.path.subpath_start = Some(current);
        }
        self.path.push(segment);
        self.path.current_point = Some(end);
        Ok(())
    }

    /// Closes the open subpath, if there is one.
    fn close_path(
        &mut self,
        limits: ContentGraphicsLimits,
        vm_limits: ContentVmLimits,
        path_vm_consumed: u64,
        source: ContentOperatorSource,
        accounting: &mut Accounting,
    ) -> (result: Result<(), ContentVmError>)
        requires
            old(self).well_formed(),
        ensures
            final(self).well_formed(),
            final(self).same_but_path(old(self)),
            grew(*old(accounting), *final(accounting), old(self)@.path.len() as int),
            ({
                let admitted = if old(self)@.subpath_start is Some {
                    segments_admitted(old(self)@, 1, limits@, source)
                } else {
                    Ok(())
                };
                match result {
                    Ok(_) => admitted is Ok && final(self)@ == closed(old(self)@),
                    Err(error) => admitted == Err::<(), ContentVmError>(error) || (admitted is Ok
                        && old(self)@.subpath_start is Some && growth_failed(
                        error,
                        vm_limits@,
                        old(accounting).fuel,
                        old(self)@.path.len() as int,
                    )),
                }
            }),
    {
        let start = match self.path.subpath_start {
            Some(start) => start,
            None => {
                return Ok(());
            },
        };
        match self.path.reserve(1, limits, vm_limits, path_vm_consumed, source, accounting) {
            Ok(_) => {},
            Err(error) => {
                return Err(error);
            },
        }
        self.path.push(PathSegment::ClosePath);
        self.path.current_point = Some(start);
        self.path.subpath_start = None;
        Ok(())
    }

    /// Paints the current path: hands it to the actions that use it, and publishes the dash of a
    /// stroke. Returns what the machine retained before the handoff.
    pub fn paint(
        &mut self,
        operation: PaintOperation,
        close: bool,
        limits: ContentGraphicsLimits,
        retention: VmRetention,
        path_vm_consumed: u64,
        action_other_capacity: u64,
        actions: &mut Vec<ExecutionAction>,
        source: ContentOperatorSource,
        accounting: &mut Accounting,
    ) -> (result: Result<u64, ContentVmError>)
        requires
            old(self).well_formed(),
            source.page_operator_ordinal <= u32::MAX,
            old(self)@.pending_clip matches Some(clip) ==> clip.source.page_operator_ordinal
                <= u32::MAX,
            close ==> operation != PaintOperation::Nothing,
        ensures
            final(self).well_formed(),
            final(accounting).operators == old(accounting).operators,
            only_grew(
                *old(accounting),
                *final(accounting),
                old(self)@.path.len() as int + old(actions)@.len(),
            ),
            ({
                let outcome = paint_outcome(old(self)@, operation, close, limits@, source);
                match result {
                    Ok(_) => {
                        &&& outcome is Ok
                        &&& final(self)@ == outcome->Ok_0.0
                        &&& final(actions)@ == old(actions)@ + outcome->Ok_0.1
                    },
                    Err(error) => match outcome {
                        Err(expected) => expected == GraphicsFault::Vm(error),
                        Ok((after, painted)) => (painted.len() > 0 || after.path.len() > old(
                            self,
                        )@.path.len()) && growth_failed(
                            error,
                            retention.limits@,
                            old(accounting).fuel,
                            old(self)@.path.len() as int + old(actions)@.len(),
                        ),
                    },
                }
            }),
    {
        if self.path.pending_clip.is_some() && self.current.clip_depth == u32::MAX {
            return Err(vm_error(ContentVmErrorCode::InternalState, source));
        }
        if close {
            match self.close_path(
                limits,
                retention.limits,
                path_vm_consumed,
                source,
                accounting,
            ) {
                Ok(_) => {},
                Err(error) => {
                    assert(paint_actions(closed(old(self)@), operation, source).len() > 0);
                    return Err(error);
                },
            }
        }
        let ghost ready = self@;
        let held: u64 = self.retained_capacity_bytes();
        accounting.observe_retained(retention.total_with(held));
        let paints = match operation {
            PaintOperation::Nothing => false,
            _ => true,
        };
        let slots: usize = if paints && self.path.pending_clip.is_some() {
            2
        } else if paints || self.path.pending_clip.is_some() {
            1
        } else {
            0
        };
        let _ceiling: u64 = retention.limits.max_retained_bytes();
        if slots > 0 {
            match reserve_vm_additional(
                actions,
                slots,
                retention.program_bytes,
                action_other_capacity.saturating_add(held),
                retention.limits,
                source,
                accounting,
            ) {
                Ok(_) => {},
                Err(error) => {
                    return Err(error);
                },
            }
        }
        let path_retained: u64 = self.path.retained_bytes();
        let next_path_bytes: u64 = if slots == 0 {
            self.action_path_retained_bytes
        } else {
            self.action_path_retained_bytes + path_retained
        };
        let stroking = match operation {
            PaintOperation::Stroke => true,
            PaintOperation::FillStroke(_) => true,
            _ => false,
        };
        let first_use = stroking && !self.dashes[self.current.dash].published;
        let next_dash_bytes: u64 = if first_use {
            proof {
                let states = self.states();
                assert(states[states.len() - 1].dash == self.current.dash);
                action_bytes_are_live(
                    self.dashes@,
                    states,
                    self.dashes@.len() as int,
                    self.current.dash as int,
                );
            }
            self.action_dash_retained_bytes + self.dashes[self.current.dash].retained
        } else {
            self.action_dash_retained_bytes
        };
        self.publish_path(
            operation,
            slots,
            stroking,
            path_retained,
            next_path_bytes,
            next_dash_bytes,
            actions,
            source,
        );
        Ok(held)
    }

    /// Moves the path into the registry and appends the actions that use it.
    fn publish_path(
        &mut self,
        operation: PaintOperation,
        slots: usize,
        stroking: bool,
        path_retained: u64,
        next_path_bytes: u64,
        next_dash_bytes: u64,
        actions: &mut Vec<ExecutionAction>,
        source: ContentOperatorSource,
    )
        requires
            old(self).well_formed(),
            source.page_operator_ordinal <= u32::MAX,
            old(self)@.pending_clip matches Some(clip) ==> clip.source.page_operator_ordinal
                <= u32::MAX && old(self).current.clip_depth < u32::MAX,
            (slots == 0) == (operation is Nothing && old(self)@.pending_clip is None),
            stroking == strokes(operation),
            slots == 0 ==> next_path_bytes == old(self).action_path_retained_bytes,
            slots > 0 ==> next_path_bytes == old(self).action_path_retained_bytes + path_retained,
            next_dash_bytes == old(self).action_dash_retained_bytes + (if stroking && !old(
                self,
            ).dashes@[old(self).current.dash as int].published {
                old(self).dashes@[old(self).current.dash as int].retained as int
            } else {
                0
            }),
        ensures
            final(self).well_formed(),
            final(self)@ == painted(old(self)@, operation),
            final(actions)@ == old(actions)@ + paint_actions(old(self)@, operation, source),
    {
        let ghost before = *self;
        let ghost ready = self@;
        let transform = Matrix::identity();
        let bounds = if self.path.segments.len() == 0 {
            SceneBounds::Empty
        } else {
            SceneBounds::Page
        };
        let place: usize = self.paths.len();
        let command = command_source(source);
        let style = LineStyle {
            width: self.current.line_width,
            cap: self.current.line_cap,
            join: self.current.line_join,
            miter_limit: self.current.miter_limit,
            dash: self.current.dash,
            ctm: self.current.ctm,
        };
        let ghost earlier = actions@;
        match operation {
            PaintOperation::Nothing => {},
            PaintOperation::Stroke => {
                actions.push(
                    ExecutionAction::Stroke {
                        path: place,
                        paint: self.current.stroking,
                        style,
                        transform,
                        bounds,
                        source: command,
                    },
                );
            },
            PaintOperation::Fill(rule) => {
                actions.push(
                    ExecutionAction::Fill {
                        path: place,
                        rule,
                        paint: self.current.nonstroking,
                        transform,
                        bounds,
                        source: command,
                    },
                );
            },
            PaintOperation::FillStroke(rule) => {
                actions.push(
                    ExecutionAction::FillStroke {
                        path: place,
                        rule,
                        fill: self.current.nonstroking,
                        stroke: self.current.stroking,
                        style,
                        transform,
                        bounds,
                        source: command,
                    },
                );
            },
        }
        let mut next = self.current;
        if let Some(clip) = self.path.pending_clip {
            actions.push(
                ExecutionAction::Clip {
                    path: place,
                    rule: clip.rule,
                    transform,
                    bounds,
                    source: command_source(clip.source),
                },
            );
            next.clip_depth = next.clip_depth + 1;
        }
        assert(actions@ =~= earlier + paint_actions(ready, operation, source));
        let mut segments: Vec<PathSegment> = Vec::new();
        std::mem::swap(&mut segments, &mut self.path.segments);
        if slots > 0 {
            self.paths.push(PathEntry { segments, retained: path_retained });
        }
        self.path.current_point = None;
        self.path.subpath_start = None;
        self.path.pending_clip = None;
        self.action_path_retained_bytes = next_path_bytes;
        let dash: usize = self.current.dash;
        if stroking {
            self.dashes[dash].published = true;
        }
        self.action_dash_retained_bytes = next_dash_bytes;
        self.current = next;
        proof {
            let count = before.dashes@.len() as int;
            assert(self@.path =~= painted(ready, operation).path);
            assert(self@.paths =~= painted(ready, operation).paths);
            assert(self@.dashes =~= painted(ready, operation).dashes);
            if slots > 0 {
                assert(self.paths@.drop_last() =~= before.paths@);
            }
            same_references(before.states(), self.states());
            let old_states = before.states();
            assert(old_states[old_states.len() - 1].dash == dash);
            assert(referenced(old_states, dash as int));
            assert(referenced(self.states(), dash as int));
            live_bytes_same(self.dashes@, self.states(), before.dashes@, before.states(), count);
            if stroking {
                action_bytes_publish(before.dashes@, self.dashes@, dash as int, count);
            }
        }
    }

    /// Performs one graphics operator. `mapped` are its points, mapped through the current
    /// transform. Returns what the machine retained on the way.
    pub fn perform(
        &mut self,
        kind: OperatorKind,
        operands: &ValidatedOperands<'_>,
        mapped: &[Result<ScenePoint, SceneError>],
        limits: ContentGraphicsLimits,
        retention: VmRetention,
        action_other_capacity: u64,
        actions: &mut Vec<ExecutionAction>,
        source: ContentOperatorSource,
        accounting: &mut Accounting,
    ) -> (result: Result<u64, GraphicsFault>)
        requires
            old(self).well_formed(),
            shaped(kind.spec_shape(), *operands),
            mapped@.len() == point_count(kind),
            source.page_operator_ordinal <= u32::MAX,
            old(self)@.pending_clip matches Some(clip) ==> clip.source.page_operator_ordinal
                <= u32::MAX,
        ensures
            final(self).well_formed(),
            only_grew(
                *old(accounting),
                *final(accounting),
                old(self)@.path.len() as int + old(actions)@.len(),
            ),
            ({
                let outcome = graphics_outcome(
                    old(self)@,
                    kind,
                    operands@,
                    mapped@,
                    limits@,
                    source,
                );
                match result {
                    Ok(_) => {
                        &&& outcome is Ok
                        &&& final(self)@ == outcome->Ok_0.0
                        &&& final(actions)@ == old(actions)@ + outcome->Ok_0.1
                    },
                    Err(fault) => match outcome {
                        Err(expected) => fault == expected,
                        Ok((after, drawn)) => fault matches GraphicsFault::Vm(error) && (
                        drawn.len() > 0 || after.path.len() > old(self)@.path.len())
                            && growth_failed(
                            error,
                            retention.limits@,
                            old(accounting).fuel,
                            old(self)@.path.len() as int + old(actions)@.len(),
                        ),
                    },
                }
            }),
    {
        proof {
            reveal(graphics_outcome);
        }
        assert(actions@ + Seq::<ExecutionAction>::empty() =~= actions@);
        let saved: u64 = capacity_bytes(&self.saved);
        let path_vm_consumed: u64 = retention.total_with(saved).saturating_add(
            self.dash_retained_bytes,
        ).saturating_add(self.action_path_retained_bytes);
        let mut transient: u64 = 0;
        if mapped_count(kind) > 0 {
            match self.execute_path(
                kind,
                operands,
                mapped,
                limits,
                retention.limits,
                path_vm_consumed,
                source,
                accounting,
            ) {
                Ok(_) => {},
                Err(error) => {
                    return Err(error);
                },
            }
        } else if kind == OperatorKind::ClosePath {
            match self.close_path(limits, retention.limits, path_vm_consumed, source, accounting) {
                Ok(_) => {},
                Err(error) => {
                    return Err(GraphicsFault::Vm(error));
                },
            }
        } else if let Some((operation, close)) = paint_kind(kind) {
            match self.paint(
                operation,
                close,
                limits,
                retention,
                path_vm_consumed,
                action_other_capacity,
                actions,
                source,
                accounting,
            ) {
                Ok(held) => {
                    transient = held;
                },
                Err(error) => {
                    return Err(GraphicsFault::Vm(error));
                },
            }
        } else if kind == OperatorKind::ClipNonzero || kind == OperatorKind::ClipEvenOdd {
            let rule = if kind == OperatorKind::ClipNonzero {
                FillRule::Nonzero
            } else {
                FillRule::EvenOdd
            };
            self.path.pending_clip = Some(PendingClip { rule, source });
        } else if sets_state(kind) {
            match changed_state(self.current, kind, operands, source) {
                Ok(next) => {
                    self.replace_current(next);
                },
                Err(error) => {
                    return Err(GraphicsFault::Vm(error));
                },
            }
        } else {
            return Err(GraphicsFault::Vm(vm_error(ContentVmErrorCode::InternalState, source)));
        }
        Ok(transient)
    }

    /// Executes one graphics operator. `mapped` are its points, mapped through the current
    /// transform. Returns what the machine retains with everything around it.
    pub fn execute(
        &mut self,
        kind: OperatorKind,
        operands: &ValidatedOperands<'_>,
        mapped: &[Result<ScenePoint, SceneError>],
        limits: ContentGraphicsLimits,
        retention: VmRetention,
        action_other_capacity: u64,
        actions: &mut Vec<ExecutionAction>,
        source: ContentOperatorSource,
        accounting: &mut Accounting,
    ) -> (result: Result<u64, GraphicsFault>)
        requires
            old(self).well_formed(),
            shaped(kind.spec_shape(), *operands),
            mapped@.len() == point_count(kind),
            source.page_operator_ordinal <= u32::MAX,
            old(self)@.pending_clip matches Some(clip) ==> clip.source.page_operator_ordinal
                <= u32::MAX,
        ensures
            final(self).well_formed(),
            only_grew(
                *old(accounting),
                *final(accounting),
                old(self)@.path.len() as int + old(actions)@.len(),
            ),
            ({
                let outcome = graphics_outcome(
                    old(self)@,
                    kind,
                    operands@,
                    mapped@,
                    limits@,
                    source,
                );
                match result {
                    Ok(retained) => {
                        &&& outcome is Ok
                        &&& final(self)@ == outcome->Ok_0.0
                        &&& final(actions)@ == old(actions)@ + outcome->Ok_0.1
                        &&& retention.program_bytes + retention.property_bytes
                            + final(self).least_retained() <= retained
                        &&& retained <= retention.limits@.max_retained_bytes
                    },
                    Err(fault) => match outcome {
                        Err(expected) => fault == expected,
                        Ok((after, drawn)) => fault matches GraphicsFault::Vm(error) && (
                        held_too_much(error, retention.limits@, source) || ((drawn.len() > 0
                            || after.path.len() > old(self)@.path.len()) && growth_failed(
                            error,
                            retention.limits@,
                            old(accounting).fuel,
                            old(self)@.path.len() as int + old(actions)@.len(),
                        ))),
                    },
                }
            }),
    {
        let transient: u64 = match self.perform(
            kind,
            operands,
            mapped,
            limits,
            retention,
            action_other_capacity,
            actions,
            source,
            accounting,
        ) {
            Ok(transient) => transient,
            Err(fault) => {
                return Err(fault);
            },
        };
        let held: u64 = self.retained_capacity_bytes();
        let with_held: u64 = retention.total_with(held);
        let with_transient: u64 = retention.total_with(transient);
        let retained: u64 = if with_held < with_transient {
            with_transient
        } else {
            with_held
        };
        match retention.limits.preflight(
            ContentVmLimitKind::RetainedBytes,
            0,
            retained,
            Some(source),
        ) {
            Ok(_) => Ok(retained),
            Err(error) => Err(GraphicsFault::Vm(error)),
        }
    }
}

/// Whether a failure reports that everything held together passes the retained budget.
pub open spec fn held_too_much(
    error: ContentVmError,
    limits: ContentVmLimitConfig,
    source: ContentOperatorSource,
) -> bool {
    exists|total: u64|
        total > limits.max_retained_bytes && Err::<(), ContentVmError>(error)
            == #[trigger] vm_preflight(
            limits,
            ContentVmLimitKind::RetainedBytes,
            0,
            total,
            Some(source),
        )
}

/// Whether `after` differs from `before` by at most `most` units of fuel and by a raised peak only.
pub open spec fn only_grew(before: Accounting, after: Accounting, most: int) -> bool {
    &&& after.peak_retained >= before.peak_retained
    &&& before.fuel <= after.fuel <= before.fuel + most
    &&& after == (Accounting {
        fuel: after.fuel,
        peak_retained: after.peak_retained,
        ..before
    })
}

/// The scene scalar of a content number.
fn scalar(value: ContentNumber) -> (scalar: SceneScalar)
    ensures
        scalar == scalar_value(value),
{
    SceneScalar::from_scaled(value.scaled)
}

/// The scene point of two content numbers.
fn point(x: ContentNumber, y: ContentNumber) -> (point: ScenePoint)
    ensures
        point == point_value(x, y),
{
    ScenePoint::new(scalar(x), scalar(y))
}

/// The nearest of 65535 steps to a number clamped to the unit interval.
pub fn unit(value: ContentNumber) -> (unit: SceneUnit)
    ensures
        unit == unit_value(value),
{
    let clamped: i64 = if value.scaled < 0 {
        0
    } else if value.scaled > 1_000_000_000 {
        1_000_000_000
    } else {
        value.scaled
    };
    let quantized: i64 = (clamped * 65535 + 500_000_000) / 1_000_000_000;
    SceneUnit::from_u16(quantized as u16)
}

/// The ends of the unit interval are exact, and the steps between them never descend.
pub proof fn color_steps_are_monotone(left: ContentNumber, right: ContentNumber)
    requires
        left.scaled <= right.scaled,
    ensures
        unit_value(left).value <= unit_value(right).value,
        left.scaled <= 0 ==> unit_value(left).value == 0,
        right.scaled >= 1_000_000_000 ==> unit_value(right).value == 65535,
{
}

/// The user-space points that an operator maps through the current transform.
pub fn user_points(kind: OperatorKind, operands: &ValidatedOperands<'_>) -> (points: Result<
    Vec<ScenePoint>,
    SceneError,
>)
    requires
        shaped(kind.spec_shape(), *operands),
    ensures
        match points_of(kind, operands@->Numbers_0) {
            Ok(expected) => points is Ok && points->Ok_0@ == expected && expected.len()
                == point_count(kind),
            Err(error) => points is Err && points->Err_0 == error,
        },
{
    let mut points: Vec<ScenePoint> = Vec::new();
    match kind {
        OperatorKind::MoveTo | OperatorKind::LineTo => {
            if let ValidatedOperands::TwoNumbers(n) = operands {
                points.push(point(n[0], n[1]));
                assert(points@ =~= seq![point_value(n@[0], n@[1])]);
            }
        },
        OperatorKind::CubicCurveTo => {
            if let ValidatedOperands::SixNumbers(n) = operands {
                points.push(point(n[0], n[1]));
                points.push(point(n[2], n[3]));
                points.push(point(n[4], n[5]));
                assert(points@ =~= seq![
                    point_value(n@[0], n@[1]),
                    point_value(n@[2], n@[3]),
                    point_value(n@[4], n@[5]),
                ]);
            }
        },
        OperatorKind::CubicCurveToReplicateInitial | OperatorKind::CubicCurveToReplicateFinal => {
            if let ValidatedOperands::FourNumbers(n) = operands {
                points.push(point(n[0], n[1]));
                points.push(point(n[2], n[3]));
                assert(points@ =~= seq![point_value(n@[0], n@[1]), point_value(n@[2], n@[3])]);
            }
        },
        OperatorKind::Rectangle => {
            if let ValidatedOperands::FourNumbers(n) = operands {
                let x = scalar(n[0]);
                let y = scalar(n[1]);
                let x2 = match x.checked_add(scalar(n[2])) {
                    Ok(x2) => x2,
                    Err(error) => {
                        return Err(error);
                    },
                };
                let y2 = match y.checked_add(scalar(n[3])) {
                    Ok(y2) => y2,
                    Err(error) => {
                        return Err(error);
                    },
                };
                points.push(ScenePoint::new(x, y));
                points.push(ScenePoint::new(x2, y));
                points.push(ScenePoint::new(x2, y2));
                points.push(ScenePoint::new(x, y2));
                assert(points@ =~= seq![
                    ScenePoint { x, y },
                    ScenePoint { x: x2, y },
                    ScenePoint { x: x2, y: y2 },
                    ScenePoint { x, y: y2 },
                ]);
            }
        },
        _ => {},
    }
    proof {
        if point_count(kind) == 0 {
            assert(points@ =~= Seq::empty());
        }
    }
    Ok(points)
}

/// Unwraps mapped points, or the first failure among them.
fn unwrap_mapped(mapped: &[Result<ScenePoint, SceneError>], count: usize) -> (points: Result<
    Vec<ScenePoint>,
    SceneError,
>)
    requires
        count <= mapped@.len(),
    ensures
        match all_mapped(mapped@, count as int) {
            Ok(expected) => points is Ok && points->Ok_0@ == expected && expected.len() == count,
            Err(error) => points is Err && points->Err_0 == error,
        },
{
    let mut points: Vec<ScenePoint> = Vec::new();
    let mut i: usize = 0;
    while i < count
        invariant
            i <= count <= mapped@.len(),
            all_mapped(mapped@, i as int) == Ok::<Seq<ScenePoint>, SceneError>(points@),
            points@.len() == i,
        decreases count - i,
    {
        match &mapped[i] {
            Ok(point) => {
                points.push(*point);
            },
            Err(error) => {
                proof {
                    mapping_stops(mapped@, i + 1, count as int);
                }
                return Err(*error);
            },
        }
        i = i + 1;
    }
    Ok(points)
}

proof fn mapping_stops(mapped: Seq<Result<ScenePoint, SceneError>>, low: int, high: int)
    requires
        0 <= low <= high,
        all_mapped(mapped, low) is Err,
    ensures
        all_mapped(mapped, high) == all_mapped(mapped, low),
    decreases high - low,
{
    if low < high {
        mapping_stops(mapped, low, high - 1);
    }
}

/// The number of points that an operator maps.
fn mapped_count(kind: OperatorKind) -> (count: usize)
    ensures
        count == point_count(kind),
{
    match kind {
        OperatorKind::MoveTo | OperatorKind::LineTo => 1,
        OperatorKind::CubicCurveTo => 3,
        OperatorKind::CubicCurveToReplicateInitial | OperatorKind::CubicCurveToReplicateFinal => 2,
        OperatorKind::Rectangle => 4,
        _ => 0,
    }
}

/// Whether an operator changes the graphics state or the pending clip only.
pub(crate) fn leaves_lists(kind: OperatorKind) -> (leaves: bool)
    ensures
        leaves == changes_state_only(kind),
{
    kind == OperatorKind::ClipNonzero || kind == OperatorKind::ClipEvenOdd || sets_state(kind)
}

/// How an operator paints, and whether it closes the subpath first.
fn paint_kind(kind: OperatorKind) -> (paint: Option<(PaintOperation, bool)>)
    ensures
        paint == paint_of(kind),
{
    match kind {
        OperatorKind::StrokePath => Some((PaintOperation::Stroke, false)),
        OperatorKind::CloseAndStrokePath => Some((PaintOperation::Stroke, true)),
        OperatorKind::FillNonzero | OperatorKind::FillNonzeroLegacy => Some(
            (PaintOperation::Fill(FillRule::Nonzero), false),
        ),
        OperatorKind::FillEvenOdd => Some((PaintOperation::Fill(FillRule::EvenOdd), false)),
        OperatorKind::FillStrokeNonzero => Some(
            (PaintOperation::FillStroke(FillRule::Nonzero), false),
        ),
        OperatorKind::FillStrokeEvenOdd => Some(
            (PaintOperation::FillStroke(FillRule::EvenOdd), false),
        ),
        OperatorKind::CloseFillStrokeNonzero => Some(
            (PaintOperation::FillStroke(FillRule::Nonzero), true),
        ),
        OperatorKind::CloseFillStrokeEvenOdd => Some(
            (PaintOperation::FillStroke(FillRule::EvenOdd), true),
        ),
        OperatorKind::EndPath => Some((PaintOperation::Nothing, false)),
        _ => None,
    }
}

/// Changes one parameter of a state.
fn changed_state(
    state: GraphicsState,
    kind: OperatorKind,
    operands: &ValidatedOperands<'_>,
    source: ContentOperatorSource,
) -> (next: Result<GraphicsState, ContentVmError>)
    requires
        is_state_operator(kind),
        shaped(kind.spec_shape(), *operands),
    ensures
        next == state_outcome(state, kind, operands@, source),
        next matches Ok(value) ==> value.dash == state.dash,
{
    let mut next = state;
    match kind {
        OperatorKind::SetLineWidth => {
            if let ValidatedOperands::OneNumber(value) = operands {
                if value.scaled < 0 {
                    return Err(vm_error(ContentVmErrorCode::InvalidGraphicsParameter, source));
                }
                next.line_width = scalar(*value);
            }
        },
        OperatorKind::SetLineCap => {
            if let ValidatedOperands::OneInteger(value) = operands {
                if *value == 0 {
                    next.line_cap = LineCap::Butt;
                } else if *value == 1 {
                    next.line_cap = LineCap::Round;
                } else if *value == 2 {
                    next.line_cap = LineCap::Square;
                } else {
                    return Err(vm_error(ContentVmErrorCode::InvalidGraphicsParameter, source));
                }
            }
        },
        OperatorKind::SetLineJoin => {
            if let ValidatedOperands::OneInteger(value) = operands {
                if *value == 0 {
                    next.line_join = LineJoin::Miter;
                } else if *value == 1 {
                    next.line_join = LineJoin::Round;
                } else if *value == 2 {
                    next.line_join = LineJoin::Bevel;
                } else {
                    return Err(vm_error(ContentVmErrorCode::InvalidGraphicsParameter, source));
                }
            }
        },
        OperatorKind::SetMiterLimit => {
            if let ValidatedOperands::OneNumber(value) = operands {
                if value.scaled < 1_000_000_000 {
                    return Err(vm_error(ContentVmErrorCode::InvalidGraphicsParameter, source));
                }
                next.miter_limit = scalar(*value);
            }
        },
        _ => {
            let color = match operands {
                ValidatedOperands::OneNumber(value) => DeviceColor::Gray(unit(*value)),
                ValidatedOperands::ThreeNumbers(n) => DeviceColor::Rgb {
                    red: unit(n[0]),
                    green: unit(n[1]),
                    blue: unit(n[2]),
                },
                ValidatedOperands::FourNumbers(n) => DeviceColor::Cmyk {
                    cyan: unit(n[0]),
                    magenta: unit(n[1]),
                    yellow: unit(n[2]),
                    black: unit(n[3]),
                },
                _ => state.stroking.color,
            };
            if kind == OperatorKind::SetStrokingGray || kind == OperatorKind::SetStrokingRgb || kind
                == OperatorKind::SetStrokingCmyk {
                next.stroking.color = color;
            } else {
                next.nonstroking.color = color;
            }
        },
    }
    Ok(next)
}

/// Whether an operator sets a line parameter or a color.
fn sets_state(kind: OperatorKind) -> (yes: bool)
    ensures
        yes == is_state_operator(kind),
{
    match kind {
        OperatorKind::SetLineWidth
        | OperatorKind::SetLineCap
        | OperatorKind::SetLineJoin
        | OperatorKind::SetMiterLimit
        | OperatorKind::SetStrokingGray
        | OperatorKind::SetNonstrokingGray
        | OperatorKind::SetStrokingRgb
        | OperatorKind::SetNonstrokingRgb
        | OperatorKind::SetStrokingCmyk
        | OperatorKind::SetNonstrokingCmyk => true,
        _ => false,
    }
}

proof fn same_references(left: Seq<GraphicsState>, right: Seq<GraphicsState>)
    requires
        left.len() == right.len(),
        forall|i: int| 0 <= i < left.len() ==> (#[trigger] left[i]).dash == right[i].dash,
    ensures
        forall|i: int| referenced(left, i) == #[trigger] referenced(right, i),
{
    assert forall|i: int| referenced(left, i) == #[trigger] referenced(right, i) by {
        if referenced(left, i) {
            let k = choose|k: int| 0 <= k < left.len() && (#[trigger] left[k]).dash == i;
            assert(right[k].dash == i);
        }
        if referenced(right, i) {
            let k = choose|k: int| 0 <= k < right.len() && (#[trigger] right[k]).dash == i;
            assert(left[k].dash == i);
        }
    }
}

} // verus!
