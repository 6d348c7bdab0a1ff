//! Planning: one operator at a time, from scanned content to semantic actions.

use vstd::prelude::*;

use crate::bytes::model::ByteSource;
use crate::content::accounting::{
    admit_operator, byte_width, capacity_bytes, copy_plan_bytes, reserve_exact_slots,
    reserve_vm_additional, reserve_vm_slot, retained_sum, Accounting,
};
use crate::content::ext_gstate::ContentExtGStateProfile;
use crate::content::font_limits::ContentFontLimits;
use crate::content::graphics::{
    leaves_lists, only_grew, user_points, DashPattern, DashRetentionAdmission, GraphicsVm,
    VmRetention,
};
use crate::content::graphics_limits::{ContentGraphicsLimitConfig, ContentGraphicsLimits};
use crate::content::graphics_model::{graphics_outcome, scalar_value, GraphicsFault, GraphicsView};
use crate::content::guard::{
    is_fuel_stop, is_guard_stop, is_memory_stop, no_guard, vm_stop, GuardView, RunStop,
    RuntimeGuard,
};
use crate::content::image_limits::ContentImageLimits;
use crate::content::model::{
    ContentName, ContentOperand, ContentOperator, ContentOperatorSource, LocatedOperand,
    ScannedOperator,
};
use crate::content::number::ContentNumber;
use crate::content::operands::{
    convert_operands, numbers_stop, operand_number, operand_numbers, parse_number, shaped,
    validate_operand_structure, validate_operator_context, OperandsView, PropertyOperand,
    ValidatedOperands,
};
use crate::content::operator::OperatorKind;
use crate::content::plan::{ExecutionAction, TextAction, TextShowItem};
use crate::content::planner_model::{
    array_adjustments, array_bytes, array_fault, array_items, awaited_outcome, claims_first,
    counters, dash_claimed, dash_of, dash_outcome, dash_values, executed, ext_gstate_outcome,
    font_set, general_outcome, holds_more, image_outcome, inspected, is_text, is_text_array,
    known_admitted, known_cost, known_outcome, legacy_dash, marked, matrix_value, movable,
    painting_outcome, plan_scope, planned, printable, property_outcome, property_resolved, refused,
    required, restored_outcome, saved_outcome, sealed, shown, starved, starved_widely, step_cost,
    text_admitted, text_outcome, unsupported, weighs_all, with_action, with_ctm, with_text,
    AnswerView, PlanConfig, PlanScope, PlannedImageInvocation, PlannerView, RequirementView,
    ResolvedImageUse, ResolvedPropertyUse,
};
use crate::content::resources::ResourceProof;
use crate::content::scanner::ContentCancellation;
use crate::content::scene::{command_source, Matrix, SceneBounds, ScenePoint, SceneScalar};
use crate::content::view::{array_view, located_view, operand_views, operator_view, LocatedView};
use crate::content::vm_error::{
    operator_failure, vm_error, ContentFontLimitKind, ContentImageLimitKind, ContentUnsupported,
    ContentUnsupportedKind, ContentVmError, ContentVmErrorCode, ContentVmFailure,
    ContentVmLimitKind, DocumentError, SceneError,
};
use crate::content::vm_limits::{vm_preflight, HARD_MAX_GRAPHICS_STATE_DEPTH, ContentVmLimits};
use crate::memory::try_reserve_exact;

verus! {

/// How often long operand lists probe the guard.
const GUARD_INTERVAL: usize = 256;

/// What the layers below computed for an operator.
pub enum Answer {
    /// Nothing was asked.
    Nothing,
    /// A product of transforms.
    Product(Result<Matrix, SceneError>),
    /// Mapped points.
    Points(Vec<Result<ScenePoint, SceneError>>),
    /// Whether the scene takes a dash.
    Dash(bool),
    /// A resolved property.
    Property(Result<ResourceProof, DocumentError>),
}

impl View for Answer {
    type V = AnswerView;

    open spec fn view(&self) -> AnswerView {
        match self {
            Answer::Nothing => AnswerView::Nothing,
            Answer::Product(product) => AnswerView::Product(*product),
            Answer::Points(points) => AnswerView::Points(points@),
            Answer::Dash(taken) => AnswerView::Dash(*taken),
            Answer::Property(property) => AnswerView::Property(*property),
        }
    }
}

/// What only the layers below can compute for an operator.
pub enum Requirement {
    /// Nothing is needed.
    Nothing,
    /// The product of two transforms.
    Product { left: Matrix, right: Matrix },
    /// Points mapped through a transform.
    Points { matrix: Matrix, points: Vec<ScenePoint> },
    /// Whether the scene takes a dash.
    Dash { array: Vec<SceneScalar>, phase: SceneScalar },
    /// A marked-content property by its name.
    Property { name: Vec<u8> },
}

impl View for Requirement {
    type V = RequirementView;

    open spec fn view(&self) -> RequirementView {
        match self {
            Requirement::Nothing => RequirementView::Nothing,
            Requirement::Product { left, right } => RequirementView::Product(*left, *right),
            Requirement::Points { matrix, points } => RequirementView::Points(*matrix, points@),
            Requirement::Dash { array, phase } => RequirementView::Dash(array@, *phase),
            Requirement::Property { name } => RequirementView::Property(name@),
        }
    }
}

/// A plan under construction.
pub struct Planner {
    pub limits: ContentVmLimits,
    pub graphics_limits: Option<ContentGraphicsLimits>,
    pub image_limits: Option<ContentImageLimits>,
    pub font_limits: Option<ContentFontLimits>,
    pub ext_gstates: Option<ContentExtGStateProfile>,
    pub in_form: bool,
    pub program_bytes: u64,
    pub machine: GraphicsVm,
    pub stack: Vec<Matrix>,
    pub ctm: Matrix,
    pub actions: Vec<ExecutionAction>,
    pub names: Vec<Vec<u8>>,
    pub items: Vec<Vec<TextShowItem>>,
    pub property_uses: Vec<ResolvedPropertyUse>,
    pub planned_images: Vec<PlannedImageInvocation>,
    pub image_uses: Vec<ResolvedImageUse>,
    pub image_operators: u64,
    pub font_operators: u64,
    pub text_bytes: u64,
    pub text_adjustments: u64,
    pub font_uses: u64,
    pub first_font_source: Option<ContentOperatorSource>,
    pub text_active: bool,
    pub font_selected: bool,
    pub saved_text: Vec<bool>,
    pub compatibility_depth: u32,
    pub marked_depth: u32,
    /// Whether the operator at hand was charged and awaits its property.
    pub awaiting: bool,
    pub name_bytes: u64,
    /// Whether everything that is retained was held against the budget since something was last
    /// added.
    pub weighed: bool,
    pub accounting: Accounting,
}

/// The values of registered byte strings.
pub open spec fn name_views(names: Seq<Vec<u8>>) -> Seq<Seq<u8>> {
    names.map_values(|name: Vec<u8>| name@)
}

/// The values of registered item lists.
pub open spec fn item_views(items: Seq<Vec<TextShowItem>>) -> Seq<Seq<TextShowItem>> {
    items.map_values(|list: Vec<TextShowItem>| list@)
}

impl View for Planner {
    type V = PlannerView;

    open spec fn view(&self) -> PlannerView {
        PlannerView {
            graphics: self.machine@,
            stack: self.stack@,
            ctm: self.ctm,
            actions: self.actions@,
            names: name_views(self.names@),
            items: item_views(self.items@),
            property_uses: self.property_uses@,
            planned_images: self.planned_images@,
            image_operators: self.image_operators,
            font_operators: self.font_operators,
            text_bytes: self.text_bytes,
            text_adjustments: self.text_adjustments,
            font_uses: self.font_uses,
            first_font_source: self.first_font_source,
            text_active: self.text_active,
            font_selected: self.font_selected,
            saved_text: self.saved_text@,
            compatibility_depth: self.compatibility_depth,
            marked_depth: self.marked_depth,
            awaiting: self.awaiting,
            charges: counters(self.accounting),
        }
    }
}

/// Whether a result is what a model says, or what a guard, memory or fuel decided.
pub open spec fn settled(
    result: Result<(), RunStop>,
    expected: Result<PlannerView, RunStop>,
    before: PlannerView,
    reached: PlannerView,
    scope: PlanScope,
    guard: GuardView,
) -> bool {
    match result {
        Ok(_) => expected == Ok::<PlannerView, RunStop>(reached),
        Err(stop) => is_guard_stop(stop, Some(scope.source), guard) || starved(
            stop,
            expected,
            before,
            scope,
        ) || expected == Err::<PlannerView, RunStop>(stop),
    }
}

/// The stop of a malformed operator.
fn stop_of(code: ContentVmErrorCode, source: ContentOperatorSource) -> (stop: RunStop)
    ensures
        stop == refused(code, source),
{
    RunStop::Failed(ContentVmFailure::Vm(vm_error(code, source)))
}

/// The stop of a feature outside the profile.
fn unsupported_stop(kind: ContentUnsupportedKind, source: ContentOperatorSource) -> (stop: RunStop)
    ensures
        stop == unsupported(kind, source),
{
    RunStop::Unsupported(ContentUnsupported::new(kind, source))
}

/// The transform of six numbers.
fn matrix_of(numbers: &[ContentNumber; 6]) -> (matrix: Matrix)
    ensures
        matrix == matrix_value(numbers@),
{
    Matrix {
        a: SceneScalar::from_scaled(numbers[0].scaled),
        b: SceneScalar::from_scaled(numbers[1].scaled),
        c: SceneScalar::from_scaled(numbers[2].scaled),
        d: SceneScalar::from_scaled(numbers[3].scaled),
        e: SceneScalar::from_scaled(numbers[4].scaled),
        f: SceneScalar::from_scaled(numbers[5].scaled),
    }
}

/// A painting operator leaves the saved states, the transform and the registered dashes in place,
/// and a clip that waits afterwards is the one that waited before or its own. It is one of those
/// that may hold everything that is retained against the budget.
proof fn painting_keeps_the_stack(
    view: GraphicsView,
    kind: OperatorKind,
    operands: OperandsView,
    mapped: Seq<Result<ScenePoint, SceneError>>,
    limits: ContentGraphicsLimitConfig,
    source: ContentOperatorSource,
)
    ensures
        graphics_outcome(view, kind, operands, mapped, limits, source) matches Ok((after, _)) ==> {
            &&& after.saved == view.saved
            &&& after.current.ctm == view.current.ctm
            &&& after.pending_clip is None || after.pending_clip == view.pending_clip
                || after.pending_clip->0.source == source
            &&& weighs_all(kind, false)
        },
{
    reveal(graphics_outcome);
}

proof fn dash_values_stop(
    values: Seq<LocatedView>,
    low: int,
    high: int,
    source: ContentOperatorSource,
)
    requires
        0 <= low <= high,
        dash_values(values, low, source) is Err,
    ensures
        dash_values(values, high, source) == dash_values(values, low, source),
    decreases high - low,
{
    if low < high {
        dash_values_stop(values, low, high - 1, source);
    }
}

/// Converts the operands of a line dash: first the phase, then the array.
fn convert_dash<S: ByteSource, C: ContentCancellation>(
    values: &Vec<LocatedOperand>,
    phase: &LocatedOperand,
    admission: DashRetentionAdmission,
    expected_bytes: u64,
    source: ContentOperatorSource,
    guard: &RuntimeGuard<'_, S, C>,
    accounting: &mut Accounting,
) -> (result: Result<DashPattern, RunStop>)
    ensures
        only_grew(*old(accounting), *final(accounting), 0),
        ({
            let views = operand_views(values@);
            let number = operand_number(located_view(*phase), source);
            let array = dash_values(views, views.len() as int, source);
            let negative = operator_failure(
                ContentVmErrorCode::InvalidGraphicsParameter,
                source,
            );
            match result {
                Ok(pattern) => {
                    &&& number is Ok && number->Ok_0.scaled >= 0
                    &&& array == Ok::<Seq<SceneScalar>, ContentVmError>(pattern.array@)
                    &&& pattern.phase == scalar_value(number->Ok_0)
                },
                Err(stop) => is_guard_stop(stop, Some(source), guard@) || is_memory_stop(stop) || (match number {
                    Err(error) => stop == vm_stop(error),
                    Ok(phase) => if phase.scaled < 0 {
                        stop == vm_stop(negative)
                    } else {
                        array is Err && stop == vm_stop(array->Err_0)
                    },
                }),
            }
        }),
{
    let ghost views = operand_views(values@);
    assert(views.len() == values@.len());
    let start = match parse_number(phase, source) {
        Ok(number) => number,
        Err(error) => {
            return Err(RunStop::Failed(ContentVmFailure::Vm(error)));
        },
    };
    if start.scaled < 0 {
        return Err(stop_of(ContentVmErrorCode::InvalidGraphicsParameter, source));
    }
    match guard.probe(Some(source)) {
        Ok(_) => {},
        Err(stop) => {
            return Err(stop);
        },
    }
    let mut array: Vec<SceneScalar> = Vec::new();
    if !try_reserve_exact(&mut array, values.len()) {
        return Err(
            RunStop::Failed(ContentVmFailure::Vm(admission.allocation_error(expected_bytes))),
        );
    }
    let actual: u64 = capacity_bytes(&array);
    match admission.preflight_actual(actual) {
        Ok(_) => {},
        Err(error) => {
            return Err(RunStop::Failed(ContentVmFailure::Vm(error)));
        },
    }
    accounting.observe_retained(admission.retained_with_candidate(actual));
    let mut i: usize = 0;
    while i < values.len()
        invariant
            i <= values@.len(),
            views == operand_views(values@),
            views.len() == values@.len(),
            only_grew(*old(accounting), *accounting, 0),
            operand_number(located_view(*phase), source) == Ok::<ContentNumber, ContentVmError>(
                start,
            ),
            start.scaled >= 0,
            dash_values(views, i as int, source) == Ok::<Seq<SceneScalar>, ContentVmError>(array@),
        decreases values@.len() - i,
    {
        assert(views[i as int] == located_view(values@[i as int]));
        proof {
            if dash_values(views, i + 1, source) is Err {
                dash_values_stop(views, i + 1, views.len() as int, source);
            }
        }
        match parse_number(&values[i], source) {
            Ok(number) => {
                if number.scaled < 0 {
                    return Err(stop_of(ContentVmErrorCode::InvalidGraphicsParameter, source));
                }
                array.push(SceneScalar::from_scaled(number.scaled));
            },
            Err(error) => {
                return Err(RunStop::Failed(ContentVmFailure::Vm(error)));
            },
        }
        i = i + 1;
        if i % GUARD_INTERVAL == 0 || i == values.len() {
            match guard.probe(Some(source)) {
                Ok(_) => {},
                Err(stop) => {
                    return Err(stop);
                },
            }
        }
    }
    Ok(DashPattern { array, phase: SceneScalar::from_scaled(start.scaled) })
}

/// Reports why a line dash is refused where no graphics profile takes it: a malformed number
/// before the missing profile.
fn validate_legacy_dash<S: ByteSource, C: ContentCancellation>(
    values: &Vec<LocatedOperand>,
    phase: &LocatedOperand,
    source: ContentOperatorSource,
    guard: &RuntimeGuard<'_, S, C>,
) -> (stop: RunStop)
    ensures
        is_guard_stop(stop, Some(source), guard@) || stop == legacy_dash(
            operand_views(values@),
            located_view(*phase),
            source,
        ),
{
    let ghost views = operand_views(values@);
    match parse_number(phase, source) {
        Ok(_) => {},
        Err(error) => {
            return RunStop::Failed(ContentVmFailure::Vm(error));
        },
    }
    match guard.probe(Some(source)) {
        Ok(_) => {},
        Err(stop) => {
            return stop;
        },
    }
    assert(views.len() == values@.len());
    let mut i: usize = 0;
    while i < values.len()
        invariant
            i <= values@.len(),
            views == operand_views(values@),
            views.len() == values@.len(),
            operand_number(located_view(*phase), source) is Ok,
            operand_numbers(views, i as int, source) is Ok,
        decreases values@.len() - i,
    {
        assert(views[i as int] == located_view(values@[i as int]));
        match parse_number(&values[i], source) {
            Ok(_) => {},
            Err(error) => {
                proof {
                    numbers_stop(views, i + 1, values@.len() as int, source);
                }
                return RunStop::Failed(ContentVmFailure::Vm(error));
            },
        }
        i = i + 1;
        if i % GUARD_INTERVAL == 0 || i == values.len() {
            match guard.probe(Some(source)) {
                Ok(_) => {},
                Err(stop) => {
                    return stop;
                },
            }
        }
    }
    unsupported_stop(ContentUnsupportedKind::GraphicsV2Operator, source)
}

/// Whether an operator belongs to text.
fn is_text_operator(kind: OperatorKind) -> (text: bool)
    ensures
        text == is_text(kind),
{
    match kind {
        OperatorKind::BeginText
        | OperatorKind::EndText
        | OperatorKind::SetCharacterSpacing
        | OperatorKind::SetWordSpacing
        | OperatorKind::SetHorizontalScaling
        | OperatorKind::SetTextLeading
        | OperatorKind::SetTextFont
        | OperatorKind::SetTextRenderMode
        | OperatorKind::SetTextRise
        | OperatorKind::MoveTextPosition
        | OperatorKind::MoveTextPositionSetLeading
        | OperatorKind::SetTextMatrix
        | OperatorKind::MoveToNextTextLine
        | OperatorKind::ShowText
        | OperatorKind::ShowTextAdjusted
        | OperatorKind::MoveNextLineShowText
        | OperatorKind::SetSpacingMoveNextLineShowText => true,
        _ => false,
    }
}

/// Copies bytes.
pub(crate) fn copied(bytes: &[u8]) -> (copy: Vec<u8>)
    ensures
        copy@ == bytes@,
{
    let mut copy: Vec<u8> = Vec::new();
    let mut i: usize = 0;
    while i < bytes.len()
        invariant
            i <= bytes@.len(),
            copy@ =~= bytes@.take(i as int),
        decreases bytes@.len() - i,
    {
        copy.push(bytes[i]);
        i = i + 1;
    }
    assert(copy@ =~= bytes@);
    copy
}

/// The array and phase of a dash.
fn dash_operands(
    values: &Vec<LocatedOperand>,
    phase: &LocatedOperand,
    source: ContentOperatorSource,
) -> (pattern: Result<DashPattern, ContentVmError>)
    ensures
        match dash_of(operand_views(values@), located_view(*phase), source) {
            Ok((array, start)) => pattern is Ok && pattern->Ok_0.array@ == array
                && pattern->Ok_0.phase == start,
            Err(error) => pattern is Err && pattern->Err_0 == error,
        },
{
    let ghost views = operand_views(values@);
    assert(views.len() == values@.len());
    let start = match parse_number(phase, source) {
        Ok(number) => number,
        Err(error) => {
            return Err(error);
        },
    };
    if start.scaled < 0 {
        return Err(vm_error(ContentVmErrorCode::InvalidGraphicsParameter, source));
    }
    let mut array: Vec<SceneScalar> = Vec::new();
    let mut i: usize = 0;
    while i < values.len()
        invariant
            i <= values@.len(),
            views == operand_views(values@),
            views.len() == values@.len(),
            operand_number(located_view(*phase), source) == Ok::<ContentNumber, ContentVmError>(
                start,
            ),
            start.scaled >= 0,
            dash_values(views, i as int, source) == Ok::<Seq<SceneScalar>, ContentVmError>(array@),
        decreases values@.len() - i,
    {
        assert(views[i as int] == located_view(values@[i as int]));
        proof {
            if dash_values(views, i + 1, source) is Err {
                dash_values_stop(views, i + 1, views.len() as int, source);
            }
        }
        match parse_number(&values[i], source) {
            Ok(number) => {
                if number.scaled < 0 {
                    return Err(vm_error(ContentVmErrorCode::InvalidGraphicsParameter, source));
                }
                array.push(SceneScalar::from_scaled(number.scaled));
            },
            Err(error) => {
                return Err(error);
            },
        }
        i = i + 1;
    }
    Ok(DashPattern { array, phase: SceneScalar::from_scaled(start.scaled) })
}

/// Checks that bytes are printable ASCII.
fn validate_printable_text<S: ByteSource, C: ContentCancellation>(
    bytes: &[u8],
    source: ContentOperatorSource,
    guard: &RuntimeGuard<'_, S, C>,
) -> (result: Result<(), RunStop>)
    ensures
        match result {
            Ok(_) => printable(bytes@),
            Err(stop) => is_guard_stop(stop, Some(source), guard@) || (!printable(bytes@) && stop
                == unsupported(ContentUnsupportedKind::TextEncoding, source)),
        },
{
    let mut i: usize = 0;
    while i < bytes.len()
        invariant
            i <= bytes@.len(),
            forall|k: int| 0 <= k < i ==> 0x20 <= #[trigger] bytes@[k] <= 0x7e,
        decreases bytes@.len() - i,
    {
        if i % GUARD_INTERVAL == 0 {
            match guard.probe(Some(source)) {
                Ok(_) => {},
                Err(stop) => {
                    return Err(stop);
                },
            }
        }
        if bytes[i] < 0x20 || bytes[i] > 0x7e {
            assert(!(0x20 <= bytes@[i as int] <= 0x7e));
            return Err(
                RunStop::Unsupported(
                    ContentUnsupported::new(ContentUnsupportedKind::TextEncoding, source),
                ),
            );
        }
        i = i + 1;
    }
    guard.probe(Some(source))
}

/// Counts the string bytes and the adjustments of a text array; a count that does not fit is all
/// there is.
fn count_text_array<S: ByteSource, C: ContentCancellation>(
    values: &Vec<LocatedOperand>,
    source: ContentOperatorSource,
    guard: &RuntimeGuard<'_, S, C>,
) -> (totals: Result<(u64, u64), RunStop>)
    ensures
        ({
            let views = operand_views(values@);
            match totals {
                Ok((bytes, adjustments)) => {
                    &&& is_text_array(views)
                    &&& bytes == retained_sum(array_bytes(views, views.len() as int))
                    &&& adjustments == array_adjustments(views, views.len() as int)
                },
                Err(stop) => is_guard_stop(stop, Some(source), guard@) || (!is_text_array(views)
                    && stop == refused(ContentVmErrorCode::InvalidOperandType, source)),
            }
        }),
{
    let ghost views = operand_views(values@);
    let mut bytes: u64 = 0;
    let mut adjustments: u64 = 0;
    let mut i: usize = 0;
    while i < values.len()
        invariant
            i <= values@.len(),
            views == operand_views(values@),
            bytes == retained_sum(array_bytes(views, i as int)),
            adjustments == array_adjustments(views, i as int),
            adjustments <= i,
            forall|k: int|
                0 <= k < i ==> {
                    let value = (#[trigger] views[k]).value;
                    value is String || value is Integer || value is Real
                },
        decreases values@.len() - i,
    {
        assert(views[i as int] == located_view(values@[i as int]));
        proof {
            array_bytes_nonnegative(views, i as int);
        }
        if i % GUARD_INTERVAL == 0 {
            match guard.probe(Some(source)) {
                Ok(_) => {},
                Err(stop) => {
                    return Err(stop);
                },
            }
        }
        match &values[i].value {
            ContentOperand::String(string) => {
                bytes = bytes.saturating_add(string.bytes.len() as u64);
            },
            ContentOperand::Integer(_) | ContentOperand::Real(_) => {
                adjustments = adjustments + 1;
            },
            _ => {
                assert(!(views[i as int].value is String || views[i as int].value is Integer
                    || views[i as int].value is Real));
                return Err(stop_of(ContentVmErrorCode::InvalidOperandType, source));
            },
        }
        i = i + 1;
    }
    assert(views.len() == values@.len());
    match guard.probe(Some(source)) {
        Ok(_) => {},
        Err(stop) => {
            return Err(stop);
        },
    }
    Ok((bytes, adjustments))
}

proof fn array_bytes_nonnegative(values: Seq<LocatedView>, count: int)
    ensures
        array_bytes(values, count) >= 0,
    decreases count,
{
    if count > 0 {
        array_bytes_nonnegative(values, count - 1);
    }
}

/// What shown text costs beside its operator.
pub open spec fn text_cost(operands: OperandsView) -> int {
    match operands {
        OperandsView::Array(values) => array_bytes(values, values.len() as int),
        _ => 0,
    }
}

proof fn array_fault_stays(
    values: Seq<LocatedView>,
    low: int,
    high: int,
    source: ContentOperatorSource,
)
    requires
        0 <= low <= high,
        array_fault(values, low, source) is Some,
    ensures
        array_fault(values, high, source) == array_fault(values, low, source),
    decreases high - low,
{
    if low < high {
        array_fault_stays(values, low, high - 1, source);
    }
}

/// Checks the strings and the numbers of a text array.
fn validate_text_array<S: ByteSource, C: ContentCancellation>(
    values: &Vec<LocatedOperand>,
    source: ContentOperatorSource,
    guard: &RuntimeGuard<'_, S, C>,
) -> (result: Result<(), RunStop>)
    requires
        is_text_array(operand_views(values@)),
    ensures
        ({
            let fault = array_fault(operand_views(values@), values@.len() as int, source);
            match result {
                Ok(_) => fault is None,
                Err(stop) => is_guard_stop(stop, Some(source), guard@) || fault == Some(stop),
            }
        }),
{
    let ghost views = operand_views(values@);
    let mut i: usize = 0;
    while i < values.len()
        invariant
            i <= values@.len(),
            views == operand_views(values@),
            array_fault(views, i as int, source) is None,
        decreases values@.len() - i,
    {
        assert(views[i as int] == located_view(values@[i as int]));
        if i % GUARD_INTERVAL == 0 {
            match guard.probe(Some(source)) {
                Ok(_) => {},
                Err(stop) => {
                    return Err(stop);
                },
            }
        }
        proof {
            if array_fault(views, i + 1, source) is Some {
                array_fault_stays(views, i + 1, values@.len() as int, source);
            }
        }
        match &values[i].value {
            ContentOperand::String(string) => {
                match validate_printable_text(string.bytes.as_slice(), source, guard) {
                    Ok(_) => {},
                    Err(stop) => {
                        return Err(stop);
                    },
                }
            },
            _ => {
                match parse_number(&values[i], source) {
                    Ok(_) => {},
                    Err(error) => {
                        return Err(RunStop::Failed(ContentVmFailure::Vm(error)));
                    },
                }
            },
        }
        i = i + 1;
    }
    guard.probe(Some(source))
}

/// Whether a result is what a model says, and nothing else.
pub open spec fn settled_exactly(
    result: Result<(), RunStop>,
    expected: Result<PlannerView, RunStop>,
    reached: PlannerView,
) -> bool {
    match result {
        Ok(_) => expected == Ok::<PlannerView, RunStop>(reached),
        Err(stop) => expected == Err::<PlannerView, RunStop>(stop),
    }
}

impl Planner {
    /// The budgets and capabilities.
    pub open spec fn config(&self) -> PlanConfig {
        PlanConfig {
            vm: self.limits@,
            graphics: match self.graphics_limits {
                Some(limits) => Some(limits@),
                None => None,
            },
            images: match self.image_limits {
                Some(limits) => Some(limits@),
                None => None,
            },
            fonts: match self.font_limits {
                Some(limits) => Some(limits@),
                None => None,
            },
            ext_gstates: match self.ext_gstates {
                Some(profile) => Some(profile@),
                None => None,
            },
            in_form: self.in_form,
        }
    }

    /// The scope of a step that costs at most `most` units of fuel.
    pub open spec fn scope(&self, source: ContentOperatorSource, most: int) -> PlanScope {
        PlanScope {
            source,
            vm: self.limits@,
            fuel: self.accounting.fuel,
            most,
            admitted: true,
            claims_first: false,
            weighs_all: false,
        }
    }

    /// The scope of one known operator.
    pub open spec fn known_scope(
        &self,
        kind: OperatorKind,
        operands: Seq<LocatedView>,
        source: ContentOperatorSource,
    ) -> PlanScope {
        PlanScope {
            admitted: known_admitted(self@, self.config(), kind, operands, source),
            claims_first: claims_first(self@, self.config(), kind, operands, source),
            weighs_all: weighs_all(kind, self.weighed),
            ..self.scope(source, known_cost(kind, operands, source) + movable(self@))
        }
    }

    /// The scope of one known operator that was counted.
    pub open spec fn counted_scope(&self, kind: OperatorKind, source: ContentOperatorSource) -> PlanScope {
        PlanScope {
            weighs_all: weighs_all(kind, self.weighed),
            ..self.scope(source, movable(self@))
        }
    }

    /// The scope of a line dash of so many entries.
    pub open spec fn dash_scope(&self, entries: int, source: ContentOperatorSource) -> PlanScope {
        PlanScope {
            claims_first: dash_claimed(self.config(), entries, source),
            ..self.scope(source, movable(self@))
        }
    }

    /// The invariant: the machine is well formed, one text state is saved per graphics state, and
    /// the machine's transform is the current one.
    pub open spec fn well_formed(&self) -> bool {
        &&& self.machine.well_formed()
        &&& self.machine@.pending_clip matches Some(clip) ==> clip.source.page_operator_ordinal
            <= u32::MAX
        &&& self.graphics_limits is Some ==> self.stack@.len() == 0 && self.saved_text@.len()
            == self.machine@.saved.len() && self.ctm == self.machine.current.ctm
        &&& self.graphics_limits is None ==> self.saved_text@.len() == self.stack@.len()
            && self.machine@.saved.len() == 0
        &&& self.saved_text@.len() <= HARD_MAX_GRAPHICS_STATE_DEPTH
        &&& self.image_uses@.len() == 0
        &&& self.font_uses <= u32::MAX
        &&& self.awaiting ==> self.marked_depth < u32::MAX && self.accounting.property_uses
            < u64::MAX
    }

    /// Whether two plans have one budget and one program.
    pub open spec fn same_setup(&self, other: &Self) -> bool {
        &&& self.limits == other.limits
        &&& self.graphics_limits == other.graphics_limits
        &&& self.image_limits == other.image_limits
        &&& self.font_limits == other.font_limits
        &&& self.ext_gstates == other.ext_gstates
        &&& self.in_form == other.in_form
        &&& self.program_bytes == other.program_bytes
    }

    /// Bytes that the plan retains beside its actions.
    pub(crate) fn value_capacity(&self) -> (bytes: u64)
        ensures
            bytes >= self.name_bytes,
    {
        let properties: u64 = capacity_bytes(&self.property_uses);
        let slots: u64 = capacity_bytes(&self.image_uses);
        let images: u64 = capacity_bytes(&self.planned_images);
        properties.saturating_add(slots).saturating_add(images).saturating_add(self.name_bytes)
    }

    /// Bytes that the plan retains.
    pub(crate) fn plan_capacity(&self) -> (bytes: u64)
        ensures
            bytes >= self.name_bytes,
    {
        let actions: u64 = capacity_bytes(&self.actions);
        self.value_capacity().saturating_add(actions)
    }

    /// Bytes that saved graphics states and paths retain.
    fn graphics_capacity(&self) -> (bytes: u64)
        ensures
            bytes >= retained_sum(
                if self.graphics_limits is Some {
                    self.machine.least_retained()
                } else {
                    (self.stack@.len() * vstd::layout::size_of::<Matrix>()) as int
                },
            ),
    {
        if self.graphics_limits.is_some() {
            self.machine.retained_capacity_bytes()
        } else {
            capacity_bytes(&self.stack)
        }
    }

    /// Appends an action.
    pub(crate) fn push_action(&mut self, action: ExecutionAction, other: u64, source: ContentOperatorSource) -> (result:
        Result<(), RunStop>)
        requires
            old(self).well_formed(),
        ensures
            final(self).same_setup(old(self)),
            only_grew(
                old(self).accounting,
                final(self).accounting,
                old(self)@.actions.len() as int,
            ),
            match result {
                Ok(_) => final(self)@ == with_action(old(self)@, action)
                    && final(self).well_formed(),
                Err(stop) => is_memory_stop(stop) || is_fuel_stop(
                    stop,
                    old(self).limits@.max_fuel,
                    old(self).accounting.fuel,
                    old(self)@.actions.len() as int,
                ),
            },
    {
        match reserve_vm_slot(
            &mut self.actions,
            self.program_bytes,
            other,
            self.limits,
            source,
            &mut self.accounting,
        ) {
            Ok(_) => {},
            Err(error) => {
                return Err(RunStop::Failed(ContentVmFailure::Vm(error)));
            },
        }
        self.actions.push(action);
        Ok(())
    }

    /// Registers a copy of bytes, and probes the guard along the way. `beside` is what is retained
    /// beside the plan.
    fn register_name<S: ByteSource, C: ContentCancellation>(
        &mut self,
        bytes: &[u8],
        beside: u64,
        source: ContentOperatorSource,
        guard: &RuntimeGuard<'_, S, C>,
    ) -> (result: Result<usize, RunStop>)
        requires
            old(self).well_formed(),
        ensures
            final(self).same_setup(old(self)),
            only_grew(old(self).accounting, final(self).accounting, 0),
            match result {
                Ok(place) => {
                    &&& place == old(self)@.names.len()
                    &&& final(self)@ == (PlannerView {
                        names: old(self)@.names.push(bytes@),
                        ..old(self)@
                    })
                    &&& final(self).well_formed()
                },
                Err(stop) => is_memory_stop(stop) || is_guard_stop(stop, Some(source), guard@),
            },
    {
        match guard.probe(Some(source)) {
            Ok(_) => {},
            Err(stop) => {
                return Err(stop);
            },
        }
        let other: u64 = self.plan_capacity().saturating_add(beside);
        let _ceiling: u64 = self.limits.max_retained_bytes();
        let (copy, retained): (Vec<u8>, u64) = match copy_plan_bytes(
            bytes,
            self.program_bytes,
            other,
            self.limits,
            source,
        ) {
            Ok(copied) => copied,
            Err(error) => {
                return Err(RunStop::Failed(ContentVmFailure::Vm(error)));
            },
        };
        match guard.probe(Some(source)) {
            Ok(_) => {},
            Err(stop) => {
                return Err(stop);
            },
        }
        self.accounting.observe_retained(
            self.program_bytes.saturating_add(other).saturating_add(retained),
        );
        self.name_bytes = self.name_bytes + retained;
        let place: usize = self.names.len();
        self.names.push(copy);
        assert(self@.names =~= old(self)@.names.push(bytes@));
        Ok(place)
    }

    /// Appends a text action.
    fn push_text(&mut self, action: TextAction, source: ContentOperatorSource) -> (result: Result<
        (),
        RunStop,
    >)
        requires
            old(self).well_formed(),
        ensures
            final(self).same_setup(old(self)),
            only_grew(
                old(self).accounting,
                final(self).accounting,
                old(self)@.actions.len() as int,
            ),
            match result {
                Ok(_) => final(self)@ == with_text(old(self)@, action)
                    && final(self).well_formed(),
                Err(stop) => is_memory_stop(stop) || is_fuel_stop(
                    stop,
                    old(self).limits@.max_fuel,
                    old(self).accounting.fuel,
                    old(self)@.actions.len() as int,
                ),
            },
    {
        let other: u64 = self.value_capacity();
        self.push_action(ExecutionAction::Text(action), other, source)
    }

    /// Admits shown text against the font budgets.
    fn admit_text(
        &mut self,
        limits: ContentFontLimits,
        bytes: u64,
        adjustments: u64,
        source: ContentOperatorSource,
    ) -> (result: Result<(), RunStop>)
        requires
            old(self).well_formed(),
        ensures
            final(self).same_setup(old(self)),
            final(self).accounting == old(self).accounting,
            final(self).well_formed(),
            ({
                let expected = text_admitted(
                    old(self)@,
                    limits@,
                    bytes as int,
                    adjustments as int,
                    source,
                );
                match result {
                    Ok(_) => expected == Ok::<PlannerView, RunStop>(final(self)@),
                    Err(stop) => expected == Err::<PlannerView, RunStop>(stop),
                }
            }),
    {
        match limits.preflight(
            ContentFontLimitKind::TextBytes,
            self.text_bytes,
            bytes,
            Some(source),
        ) {
            Ok(_) => {},
            Err(error) => {
                return Err(RunStop::Failed(ContentVmFailure::Vm(error)));
            },
        }
        match limits.preflight(
            ContentFontLimitKind::TextAdjustments,
            self.text_adjustments,
            adjustments,
            Some(source),
        ) {
            Ok(_) => {},
            Err(error) => {
                return Err(RunStop::Failed(ContentVmFailure::Vm(error)));
            },
        }
        self.text_bytes = self.text_bytes + bytes;
        self.text_adjustments = self.text_adjustments + adjustments;
        Ok(())
    }

    /// Reserves the item list of one shown string or array.
    fn reserve_items(&mut self, slots: usize, source: ContentOperatorSource) -> (items: Result<
        Vec<TextShowItem>,
        RunStop,
    >)
        requires
            old(self).well_formed(),
        ensures
            final(self).same_setup(old(self)),
            only_grew(old(self).accounting, final(self).accounting, 0),
            final(self)@ == old(self)@,
            final(self).well_formed(),
            match items {
                Ok(list) => list@.len() == 0,
                Err(stop) => is_memory_stop(stop),
            },
    {
        let consumed: u64 = self.program_bytes.saturating_add(self.plan_capacity());
        let _ceiling: u64 = self.limits.max_retained_bytes();
        let mut list: Vec<TextShowItem> = Vec::new();
        match reserve_exact_slots(
            &mut list,
            slots,
            consumed,
            self.limits,
            Some(source),
            &mut self.accounting.peak_retained,
        ) {
            Ok(retained) => {
                self.name_bytes = self.name_bytes + retained;
                Ok(list)
            },
            Err(error) => Err(RunStop::Failed(ContentVmFailure::Vm(error))),
        }
    }

    /// Registers a finished item list.
    fn register_items(&mut self, list: Vec<TextShowItem>) -> (place: usize)
        requires
            old(self).well_formed(),
        ensures
            final(self).same_setup(old(self)),
            final(self).accounting == old(self).accounting,
            final(self).well_formed(),
            place == old(self)@.items.len(),
            final(self)@ == (PlannerView {
                items: old(self)@.items.push(list@),
                ..old(self)@
            }),
    {
        let place: usize = self.items.len();
        self.items.push(list);
        assert(self@.items =~= old(self)@.items.push(list@));
        place
    }

    /// Seals one shown string.
    fn seal_text_string<S: ByteSource, C: ContentCancellation>(
        &mut self,
        limits: ContentFontLimits,
        bytes: &[u8],
        source: ContentOperatorSource,
        guard: &RuntimeGuard<'_, S, C>,
    ) -> (result: Result<usize, RunStop>)
        requires
            old(self).well_formed(),
        ensures
            final(self).same_setup(old(self)),
            only_grew(old(self).accounting, final(self).accounting, 0),
            ({
                let expected = sealed(
                    old(self)@,
                    limits@,
                    OperandsView::String(bytes@),
                    source,
                );
                match result {
                    Ok(place) => {
                        &&& place == old(self)@.items.len()
                        &&& expected == Ok::<PlannerView, RunStop>(final(self)@)
                        &&& final(self).well_formed()
                    },
                    Err(stop) => is_guard_stop(stop, Some(source), guard@) || starved(
                        stop,
                        expected,
                        old(self)@,
                        old(self).scope(source, 0),
                    ) || expected == Err::<PlannerView, RunStop>(stop),
                }
            }),
    {
        match guard.probe(Some(source)) {
            Ok(_) => {},
            Err(stop) => {
                return Err(stop);
            },
        }
        match self.admit_text(limits, bytes.len() as u64, 0, source) {
            Ok(_) => {},
            Err(stop) => {
                return Err(stop);
            },
        }
        match validate_printable_text(bytes, source, guard) {
            Ok(_) => {},
            Err(stop) => {
                return Err(stop);
            },
        }
        let mut list = match self.reserve_items(1, source) {
            Ok(list) => list,
            Err(stop) => {
                return Err(stop);
            },
        };
        let place: usize = match self.register_name(bytes, 0, source, guard) {
            Ok(place) => place,
            Err(stop) => {
                return Err(stop);
            },
        };
        list.push(TextShowItem::Bytes(place));
        assert(list@ =~= seq![TextShowItem::Bytes(place)]);
        Ok(self.register_items(list))
    }

    /// Seals one shown array.
    fn seal_text_array<S: ByteSource, C: ContentCancellation>(
        &mut self,
        limits: ContentFontLimits,
        values: &Vec<LocatedOperand>,
        source: ContentOperatorSource,
        guard: &RuntimeGuard<'_, S, C>,
    ) -> (result: Result<usize, RunStop>)
        requires
            old(self).well_formed(),
        ensures
            final(self).same_setup(old(self)),
            ({
                let views = operand_views(values@);
                only_grew(
                    old(self).accounting,
                    final(self).accounting,
                    array_bytes(views, views.len() as int),
                )
            }),
            ({
                let views = operand_views(values@);
                let expected = sealed(old(self)@, limits@, OperandsView::Array(views), source);
                match result {
                    Ok(place) => {
                        &&& place == old(self)@.items.len()
                        &&& expected == Ok::<PlannerView, RunStop>(final(self)@)
                        &&& final(self).well_formed()
                        &&& final(self).accounting.fuel >= old(self).accounting.fuel + array_bytes(
                            views,
                            views.len() as int,
                        )
                    },
                    Err(stop) => is_guard_stop(stop, Some(source), guard@) || starved(
                        stop,
                        expected,
                        old(self)@,
                        old(self).scope(source, array_bytes(views, views.len() as int)),
                    ) || expected == Err::<PlannerView, RunStop>(stop),
                }
            }),
    {
        let ghost views = operand_views(values@);
        assert(views.len() == values@.len());
        proof {
            array_bytes_nonnegative(views, views.len() as int);
        }
        let _ceiling: u64 = self.limits.max_fuel();
        let (bytes, adjustments): (u64, u64) = match count_text_array(values, source, guard) {
            Ok(totals) => totals,
            Err(stop) => {
                return Err(stop);
            },
        };
        match self.accounting.charge_fuel(self.limits, bytes, source) {
            Ok(_) => {},
            Err(error) => {
                return Err(RunStop::Failed(ContentVmFailure::Vm(error)));
            },
        }
        match self.admit_text(limits, bytes, adjustments, source) {
            Ok(_) => {},
            Err(stop) => {
                return Err(stop);
            },
        }
        let ghost admitted = self@;
        match validate_text_array(values, source, guard) {
            Ok(_) => {},
            Err(stop) => {
                return Err(stop);
            },
        }
        let ghost expected = sealed(old(self)@, limits@, OperandsView::Array(views), source);
        assert(expected is Ok && holds_more(old(self)@, expected->Ok_0));
        let mut list = match self.reserve_items(values.len(), source) {
            Ok(list) => list,
            Err(stop) => {
                return Err(stop);
            },
        };
        let ghost charged = self.accounting;
        let mut i: usize = 0;
        assert(admitted.names == array_items(admitted.names, views, 0, source).0);
        assert(list@ =~= array_items(admitted.names, views, 0, source).1);
        while i < values.len()
            invariant
                i <= values@.len(),
                views == operand_views(values@),
                self.well_formed(),
                self.same_setup(old(self)),
                only_grew(charged, self.accounting, 0),
                only_grew(
                    old(self).accounting,
                    charged,
                    array_bytes(views, views.len() as int),
                ),
                is_text_array(views),
                array_fault(views, views.len() as int, source) is None,
                views.len() == values@.len(),
                expected == sealed(old(self)@, limits@, OperandsView::Array(views), source),
                expected is Ok && holds_more(old(self)@, expected->Ok_0),
                self@ == (PlannerView {
                    names: array_items(admitted.names, views, i as int, source).0,
                    ..admitted
                }),
                list@ == array_items(admitted.names, views, i as int, source).1,
            decreases values@.len() - i,
        {
            assert(views[i as int] == located_view(values@[i as int]));
            match &values[i].value {
                ContentOperand::String(string) => {
                    let place: usize = match self.register_name(
                        string.bytes.as_slice(),
                        0,
                        source,
                        guard,
                    ) {
                        Ok(place) => place,
                        Err(stop) => {
                            return Err(stop);
                        },
                    };
                    list.push(TextShowItem::Bytes(place));
                },
                _ => {
                    match guard.probe(Some(source)) {
                        Ok(_) => {},
                        Err(stop) => {
                            return Err(stop);
                        },
                    }
                    match parse_number(&values[i], source) {
                        Ok(number) => {
                            list.push(TextShowItem::Adjustment(number));
                        },
                        Err(error) => {
                            proof {
                                array_fault_stays(views, i + 1, views.len() as int, source);
                            }
                            return Err(RunStop::Failed(ContentVmFailure::Vm(error)));
                        },
                    }
                },
            }
            i = i + 1;
        }
        match guard.probe(Some(source)) {
            Ok(_) => {},
            Err(stop) => {
                return Err(stop);
            },
        }
        Ok(self.register_items(list))
    }

    /// Plans one text operator.
    #[verifier::rlimit(40)]
    #[verifier::spinoff_prover]
    pub fn plan_text_operator<S: ByteSource, C: ContentCancellation>(
        &mut self,
        kind: OperatorKind,
        operands: &ValidatedOperands<'_>,
        source: ContentOperatorSource,
        guard: &RuntimeGuard<'_, S, C>,
    ) -> (result: Result<(), RunStop>)
        requires
            old(self).well_formed(),
            is_text(kind),
            shaped(kind.spec_shape(), *operands),
            source.page_operator_ordinal <= u32::MAX,
        ensures
            final(self).same_setup(old(self)),
            only_grew(
                old(self).accounting,
                final(self).accounting,
                movable(old(self)@) + text_cost(operands@),
            ),
            settled(
                result,
                text_outcome(old(self)@, old(self).config(), kind, operands@, source),
                old(self)@,
                final(self)@,
                old(self).scope(source, movable(old(self)@) + text_cost(operands@)),
                guard@,
            ),
            result is Ok ==> final(self).well_formed(),
            result is Ok ==> final(self).accounting.fuel >= old(self).accounting.fuel
                + text_cost(operands@),
    {
        proof {
            reveal(text_outcome);
            if let OperandsView::Array(values) = operands@ {
                array_bytes_nonnegative(values, values.len() as int);
            }
        }
        match guard.probe(Some(source)) {
            Ok(_) => {},
            Err(stop) => {
                return Err(stop);
            },
        }
        if kind == OperatorKind::BeginText {
            if self.text_active {
                return Err(stop_of(ContentVmErrorCode::InvalidTextObject, source));
            }
            let result = self.push_text(TextAction::Begin { source }, source);
            if result.is_ok() {
                self.text_active = true;
            }
            return result;
        }
        if kind == OperatorKind::EndText {
            if !self.text_active {
                return Err(stop_of(ContentVmErrorCode::InvalidTextObject, source));
            }
            let result = self.push_text(TextAction::End { source }, source);
            if result.is_ok() {
                self.text_active = false;
            }
            return result;
        }
        let limits = match self.font_limits {
            Some(limits) => limits,
            None => {
                return Err(
                    unsupported_stop(ContentUnsupportedKind::FontProfileRequired, source),
                );
            },
        };
        if self.graphics_limits.is_none() {
            return Err(unsupported_stop(ContentUnsupportedKind::GraphicsV2Operator, source));
        }
        match operands {
            ValidatedOperands::OneNumber(value) => {
                let value = *value;
                let action = match kind {
                    OperatorKind::SetCharacterSpacing => TextAction::SetCharacterSpacing {
                        value,
                        source,
                    },
                    OperatorKind::SetWordSpacing => TextAction::SetWordSpacing { value, source },
                    OperatorKind::SetHorizontalScaling => TextAction::SetHorizontalScaling {
                        value,
                        source,
                    },
                    OperatorKind::SetTextLeading => TextAction::SetLeading { value, source },
                    _ => TextAction::SetRise { value, source },
                };
                self.push_text(action, source)
            },
            ValidatedOperands::OneInteger(value) => {
                if *value < 0 || *value > 7 {
                    return Err(stop_of(ContentVmErrorCode::InvalidGraphicsParameter, source));
                }
                if *value != 0 {
                    return Err(unsupported_stop(ContentUnsupportedKind::TextRenderMode, source));
                }
                self.push_text(TextAction::SetRenderMode { value: *value, source }, source)
            },
            ValidatedOperands::NameAndNumber(name, size) => {
                self.plan_font(limits, name, *size, source, guard)
            },
            ValidatedOperands::TwoNumbers(numbers) => {
                self.push_text(
                    TextAction::MovePosition {
                        tx: numbers[0],
                        ty: numbers[1],
                        set_leading: kind == OperatorKind::MoveTextPositionSetLeading,
                        source,
                    },
                    source,
                )
            },
            ValidatedOperands::SixNumbers(numbers) => {
                self.push_text(
                    TextAction::SetMatrix { matrix: matrix_of(numbers), source },
                    source,
                )
            },
            ValidatedOperands::NoOperands => self.push_text(
                TextAction::NextLine { source },
                source,
            ),
            _ => self.plan_show(limits, kind, operands, source, guard),
        }
    }

    /// Selects a font.
    fn plan_font<S: ByteSource, C: ContentCancellation>(
        &mut self,
        limits: ContentFontLimits,
        name: &ContentName,
        size: ContentNumber,
        source: ContentOperatorSource,
        guard: &RuntimeGuard<'_, S, C>,
    ) -> (result: Result<(), RunStop>)
        requires
            old(self).well_formed(),
        ensures
            final(self).same_setup(old(self)),
            only_grew(
                old(self).accounting,
                final(self).accounting,
                old(self)@.actions.len() as int,
            ),
            settled(
                result,
                font_set(old(self)@, limits@, name@, size, source),
                old(self)@,
                final(self)@,
                old(self).scope(source, old(self)@.actions.len() as int),
                guard@,
            ),
            result is Ok ==> final(self).well_formed(),
    {
        match limits.preflight(ContentFontLimitKind::FontUses, self.font_uses, 1, Some(source)) {
            Ok(_) => {},
            Err(error) => {
                return Err(RunStop::Failed(ContentVmFailure::Vm(error)));
            },
        }
        let place: usize = match self.register_name(name.bytes(), 0, source, guard) {
            Ok(place) => place,
            Err(stop) => {
                return Err(stop);
            },
        };
        let _ceiling: u64 = limits.max_font_uses();
        self.font_uses = self.font_uses + 1;
        self.font_selected = true;
        if self.first_font_source.is_none() {
            self.first_font_source = Some(source);
        }
        self.push_text(TextAction::SetFont { name: place, size, source }, source)
    }

    /// Shows text.
    fn plan_show<S: ByteSource, C: ContentCancellation>(
        &mut self,
        limits: ContentFontLimits,
        kind: OperatorKind,
        operands: &ValidatedOperands<'_>,
        source: ContentOperatorSource,
        guard: &RuntimeGuard<'_, S, C>,
    ) -> (result: Result<(), RunStop>)
        requires
            old(self).well_formed(),
            operands is String || operands is Array || operands is TwoNumbersAndString,
            source.page_operator_ordinal <= u32::MAX,
        ensures
            final(self).same_setup(old(self)),
            only_grew(
                old(self).accounting,
                final(self).accounting,
                old(self)@.actions.len() + text_cost(operands@),
            ),
            settled(
                result,
                shown(old(self)@, limits@, kind, operands@, source),
                old(self)@,
                final(self)@,
                old(self).scope(source, old(self)@.actions.len() + text_cost(operands@)),
                guard@,
            ),
            result is Ok ==> final(self).well_formed(),
            result is Ok ==> final(self).accounting.fuel >= old(self).accounting.fuel
                + text_cost(operands@),
    {
        proof {
            if let OperandsView::Array(values) = operands@ {
                array_bytes_nonnegative(values, values.len() as int);
            }
        }
        if !self.font_selected {
            return Err(stop_of(ContentVmErrorCode::InvalidTextObject, source));
        }
        let mut character_spacing: Option<ContentNumber> = None;
        let mut word_spacing: Option<ContentNumber> = None;
        let sealed_items = match operands {
            ValidatedOperands::Array(values) => self.seal_text_array(
                limits,
                values,
                source,
                guard,
            ),
            ValidatedOperands::String(string) => self.seal_text_string(
                limits,
                string.bytes.as_slice(),
                source,
                guard,
            ),
            ValidatedOperands::TwoNumbersAndString(spacing, string) => {
                character_spacing = Some(spacing[1]);
                word_spacing = Some(spacing[0]);
                self.seal_text_string(limits, string.bytes.as_slice(), source, guard)
            },
            _ => Err(stop_of(ContentVmErrorCode::InternalState, source)),
        };
        let items: usize = match sealed_items {
            Ok(place) => place,
            Err(stop) => {
                return Err(stop);
            },
        };
        let paint = self.machine.current.nonstroking;
        let ctm = self.machine.current.ctm;
        self.push_text(
            TextAction::Show {
                items,
                character_spacing,
                word_spacing,
                next_line: kind == OperatorKind::MoveNextLineShowText || kind
                    == OperatorKind::SetSpacingMoveNextLineShowText,
                paint,
                ctm,
                command_source: command_source(source),
                source,
            },
            source,
        )
    }

    /// Saves the graphics state.
    fn plan_save(&mut self, source: ContentOperatorSource) -> (result: Result<(), RunStop>)
        requires
            old(self).well_formed(),
            source.page_operator_ordinal <= u32::MAX,
        ensures
            final(self).same_setup(old(self)),
            old(self).accounting.fuel <= final(self).accounting.fuel <= old(self).accounting.fuel
                + movable(old(self)@),
            settled(
                result,
                saved_outcome(old(self)@, old(self).config(), source),
                old(self)@,
                final(self)@,
                old(self).scope(source, movable(old(self)@)),
                no_guard(),
            ),
            result is Ok ==> final(self).well_formed(),
    {
        let saved: usize = if self.graphics_limits.is_some() {
            self.machine.saved.len()
        } else {
            self.stack.len()
        };
        let form: u64 = if self.in_form {
            1
        } else {
            0
        };
        let depth: u64 = saved as u64 + form;
        match self.limits.preflight(
            ContentVmLimitKind::GraphicsStateDepth,
            depth,
            1,
            Some(source),
        ) {
            Ok(_) => {},
            Err(error) => {
                return Err(RunStop::Failed(ContentVmFailure::Vm(error)));
            },
        }
        let held: u64 = self.plan_capacity();
        if self.graphics_limits.is_some() {
            match self.machine.reserve_saved_slot(
                VmRetention::new(self.program_bytes, held, self.limits),
                source,
                &mut self.accounting,
            ) {
                Ok(total) => {
                    self.accounting.observe_retained(total);
                },
                Err(error) => {
                    return Err(RunStop::Failed(ContentVmFailure::Vm(error)));
                },
            }
            let other: u64 = self.value_capacity().saturating_add(self.graphics_capacity());
            match self.push_action(
                ExecutionAction::Save {
                    bounds: SceneBounds::Empty,
                    source: command_source(source),
                },
                other,
                source,
            ) {
                Ok(_) => {},
                Err(stop) => {
                    return Err(stop);
                },
            }
            self.machine.push_current();
        } else {
            match reserve_vm_slot(
                &mut self.stack,
                self.program_bytes,
                held,
                self.limits,
                source,
                &mut self.accounting,
            ) {
                Ok(_) => {},
                Err(error) => {
                    return Err(RunStop::Failed(ContentVmFailure::Vm(error)));
                },
            }
            self.stack.push(self.ctm);
        }
        let before: u64 = capacity_bytes(&self.saved_text);
        let other: u64 = self.graphics_capacity().saturating_add(self.plan_capacity());
        match reserve_vm_slot(
            &mut self.saved_text,
            self.program_bytes,
            other,
            self.limits,
            source,
            &mut self.accounting,
        ) {
            Ok(_) => {},
            Err(error) => {
                return Err(RunStop::Failed(ContentVmFailure::Vm(error)));
            },
        }
        let after: u64 = capacity_bytes(&self.saved_text);
        self.name_bytes = self.name_bytes + after.saturating_sub(before);
        self.saved_text.push(self.font_selected);
        let reached: u32 = (depth + 1) as u32;
        if self.accounting.max_graphics_depth < reached {
            self.accounting.max_graphics_depth = reached;
        }
        Ok(())
    }

    /// Restores the graphics state.
    fn plan_restore(&mut self, source: ContentOperatorSource) -> (result: Result<(), RunStop>)
        requires
            old(self).well_formed(),
            source.page_operator_ordinal <= u32::MAX,
        ensures
            final(self).same_setup(old(self)),
            old(self).accounting.fuel <= final(self).accounting.fuel <= old(self).accounting.fuel
                + movable(old(self)@),
            settled(
                result,
                restored_outcome(old(self)@, old(self).config(), source),
                old(self)@,
                final(self)@,
                old(self).scope(source, movable(old(self)@)),
                no_guard(),
            ),
            old(self).graphics_limits is None ==> settled_exactly(
                result,
                restored_outcome(old(self)@, old(self).config(), source),
                final(self)@,
            ),
            result is Ok ==> final(self).well_formed(),
    {
        if self.graphics_limits.is_some() {
            if self.machine.saved.len() == 0 {
                return Err(stop_of(ContentVmErrorCode::InvalidGraphicsState, source));
            }
            let other: u64 = self.value_capacity().saturating_add(self.graphics_capacity());
            match self.push_action(
                ExecutionAction::Restore {
                    bounds: SceneBounds::Empty,
                    source: command_source(source),
                },
                other,
                source,
            ) {
                Ok(_) => {},
                Err(stop) => {
                    return Err(stop);
                },
            }
            match self.machine.restore() {
                Some(ctm) => {
                    self.ctm = ctm;
                },
                None => {
                    return Err(stop_of(ContentVmErrorCode::InternalState, source));
                },
            }
        } else {
            match self.stack.pop() {
                Some(ctm) => {
                    self.ctm = ctm;
                },
                None => {
                    return Err(stop_of(ContentVmErrorCode::InvalidGraphicsState, source));
                },
            }
        }
        match self.saved_text.pop() {
            Some(selected) => {
                self.font_selected = selected;
                Ok(())
            },
            None => Err(stop_of(ContentVmErrorCode::InternalState, source)),
        }
    }

    /// Replaces the current transform by a product.
    fn plan_concat(&mut self, answer: &Answer, source: ContentOperatorSource) -> (result: Result<
        (),
        RunStop,
    >)
        requires
            old(self).well_formed(),
        ensures
            final(self).same_setup(old(self)),
            final(self).accounting == old(self).accounting,
            ({
                let expected = match answer@ {
                    AnswerView::Product(Ok(product)) => Ok(
                        with_ctm(old(self)@, old(self).config(), product),
                    ),
                    AnswerView::Product(Err(error)) => Err(
                        RunStop::Failed(ContentVmFailure::Scene(error)),
                    ),
                    _ => Err(refused(ContentVmErrorCode::InternalState, source)),
                };
                settled_exactly(result, expected, final(self)@)
            }),
            result is Ok ==> final(self).well_formed(),
    {
        match answer {
            Answer::Product(Ok(product)) => {
                self.ctm = *product;
                if self.graphics_limits.is_some() {
                    self.machine.set_ctm(*product);
                }
                Ok(())
            },
            Answer::Product(Err(error)) => Err(RunStop::Failed(ContentVmFailure::Scene(*error))),
            _ => Err(stop_of(ContentVmErrorCode::InternalState, source)),
        }
    }

    /// Enters a marked-content sequence.
    fn plan_marked<S: ByteSource, C: ContentCancellation>(
        &mut self,
        tag: &ContentName,
        resource: Option<ResourceProof>,
        source: ContentOperatorSource,
        guard: &RuntimeGuard<'_, S, C>,
    ) -> (result: Result<(), RunStop>)
        requires
            old(self).well_formed(),
            !old(self).awaiting,
            old(self).marked_depth < u32::MAX,
            resource is Some ==> old(self).accounting.property_uses < u64::MAX,
            source.page_operator_ordinal <= u32::MAX,
        ensures
            final(self).same_setup(old(self)),
            old(self).accounting.fuel <= final(self).accounting.fuel <= old(self).accounting.fuel
                + old(self)@.actions.len(),
            settled(
                result,
                Ok(marked(old(self)@, old(self).config(), tag@, resource, source)),
                old(self)@,
                final(self)@,
                old(self).scope(source, old(self)@.actions.len() as int),
                guard@,
            ),
            result is Ok ==> final(self).well_formed(),
            old(self).graphics_limits is Some ==> result is Ok,
    {
        let command = command_source(source);
        if self.graphics_limits.is_none() {
            let graphics: u64 = self.graphics_capacity();
            let place: usize = match self.register_name(tag.bytes(), graphics, source, guard) {
                Ok(place) => place,
                Err(stop) => {
                    return Err(stop);
                },
            };
            let other: u64 = self.value_capacity().saturating_add(self.graphics_capacity());
            let properties = match resource {
                Some(resource) => Some(resource.target),
                None => None,
            };
            match self.push_action(
                ExecutionAction::BeginMarkedContent { tag: place, properties, source: command },
                other,
                source,
            ) {
                Ok(_) => {},
                Err(stop) => {
                    return Err(stop);
                },
            }
        }
        if let Some(resource) = resource {
            self.property_uses.push(ResolvedPropertyUse { source, resource });
            self.accounting.property_uses = self.accounting.property_uses + 1;
        }
        self.marked_depth = self.marked_depth + 1;
        if self.accounting.max_marked_depth < self.marked_depth {
            self.accounting.max_marked_depth = self.marked_depth;
        }
        Ok(())
    }

    /// Enters a marked-content sequence without a property.
    fn plan_begin_marked<S: ByteSource, C: ContentCancellation>(
        &mut self,
        tag: &ContentName,
        source: ContentOperatorSource,
        guard: &RuntimeGuard<'_, S, C>,
    ) -> (result: Result<(), RunStop>)
        requires
            old(self).well_formed(),
            !old(self).awaiting,
            source.page_operator_ordinal <= u32::MAX,
        ensures
            final(self).same_setup(old(self)),
            old(self).accounting.fuel <= final(self).accounting.fuel <= old(self).accounting.fuel
                + movable(old(self)@),
            ({
                let expected = match vm_preflight(
                    old(self).config().vm,
                    ContentVmLimitKind::MarkedContentDepth,
                    old(self).marked_depth as u64,
                    1,
                    Some(source),
                ) {
                    Err(error) => Err(vm_stop(error)),
                    Ok(_) => Ok(marked(old(self)@, old(self).config(), tag@, None, source)),
                };
                &&& settled(
                    result,
                    expected,
                    old(self)@,
                    final(self)@,
                    old(self).scope(source, movable(old(self)@)),
                    guard@,
                )
                &&& old(self).graphics_limits is Some ==> settled_exactly(
                    result,
                    expected,
                    final(self)@,
                )
            }),
            result is Ok ==> final(self).well_formed(),
    {
        match self.limits.preflight(
            ContentVmLimitKind::MarkedContentDepth,
            self.marked_depth as u64,
            1,
            Some(source),
        ) {
            Ok(_) => {},
            Err(error) => {
                return Err(RunStop::Failed(ContentVmFailure::Vm(error)));
            },
        }
        self.plan_marked(tag, None, source, guard)
    }

    /// Begins a marked-content sequence with a named property, which is awaited.
    fn plan_property<S: ByteSource, C: ContentCancellation>(
        &mut self,
        source: ContentOperatorSource,
        guard: &RuntimeGuard<'_, S, C>,
    ) -> (result: Result<(), RunStop>)
        requires
            old(self).well_formed(),
            !old(self).awaiting,
        ensures
            final(self).same_setup(old(self)),
            old(self).accounting.fuel <= final(self).accounting.fuel <= old(self).accounting.fuel
                + movable(old(self)@),
            settled(
                result,
                property_outcome(old(self)@, old(self).config(), source),
                old(self)@,
                final(self)@,
                old(self).counted_scope(OperatorKind::BeginMarkedContentProperties, source),
                guard@,
            ),
            result is Ok ==> final(self).well_formed(),
    {
        match self.limits.preflight(
            ContentVmLimitKind::MarkedContentDepth,
            self.marked_depth as u64,
            1,
            Some(source),
        ) {
            Ok(_) => {},
            Err(error) => {
                return Err(RunStop::Failed(ContentVmFailure::Vm(error)));
            },
        }
        match self.limits.preflight(
            ContentVmLimitKind::PropertyUses,
            self.accounting.property_uses,
            1,
            Some(source),
        ) {
            Ok(_) => {},
            Err(error) => {
                return Err(RunStop::Failed(ContentVmFailure::Vm(error)));
            },
        }
        let held: u64 = capacity_bytes(&self.property_uses);
        let other: u64 = self.graphics_capacity().saturating_add(
            self.plan_capacity().saturating_sub(held),
        );
        match reserve_vm_slot(
            &mut self.property_uses,
            self.program_bytes,
            other,
            self.limits,
            source,
            &mut self.accounting,
        ) {
            Ok(_) => {},
            Err(error) => {
                return Err(RunStop::Failed(ContentVmFailure::Vm(error)));
            },
        }
        match guard.probe(Some(source)) {
            Ok(_) => {},
            Err(stop) => {
                return Err(stop);
            },
        }
        self.awaiting = true;
        Ok(())
    }

    /// Enters a marked-content sequence with the property that it awaited.
    fn plan_awaited<S: ByteSource, C: ContentCancellation>(
        &mut self,
        tag: &ContentName,
        answer: &Answer,
        source: ContentOperatorSource,
        guard: &RuntimeGuard<'_, S, C>,
    ) -> (result: Result<(), RunStop>)
        requires
            old(self).well_formed(),
            old(self).awaiting,
            source.page_operator_ordinal <= u32::MAX,
        ensures
            final(self).same_setup(old(self)),
            old(self).accounting.fuel <= final(self).accounting.fuel <= old(self).accounting.fuel
                + movable(old(self)@),
            settled(
                result,
                property_resolved(old(self)@, old(self).config(), tag@, answer@, source),
                old(self)@,
                final(self)@,
                old(self).scope(source, movable(old(self)@)),
                guard@,
            ),
            result is Ok ==> final(self).well_formed(),
    {
        match answer {
            Answer::Property(Ok(resource)) => {
                self.awaiting = false;
                self.plan_marked(tag, Some(*resource), source, guard)
            },
            Answer::Property(Err(error)) => match ContentUnsupported::from_document(
                *error,
                source,
            ) {
                Some(outcome) => Err(RunStop::Unsupported(outcome)),
                None => Err(RunStop::Failed(ContentVmFailure::Document(*error))),
            },
            _ => Err(stop_of(ContentVmErrorCode::InternalState, source)),
        }
    }

    /// Leaves a marked-content sequence.
    fn plan_end_marked(&mut self, source: ContentOperatorSource) -> (result: Result<(), RunStop>)
        requires
            old(self).well_formed(),
            source.page_operator_ordinal <= u32::MAX,
        ensures
            final(self).same_setup(old(self)),
            old(self).accounting.fuel <= final(self).accounting.fuel <= old(self).accounting.fuel
                + movable(old(self)@),
            settled(
                result,
                general_outcome(
                    old(self)@,
                    old(self).config(),
                    OperatorKind::EndMarkedContent,
                    OperandsView::Integer(0),
                    AnswerView::Nothing,
                    source,
                ),
                old(self)@,
                final(self)@,
                old(self).scope(source, movable(old(self)@)),
                no_guard(),
            ),
            old(self).graphics_limits is Some ==> settled_exactly(
                result,
                general_outcome(
                    old(self)@,
                    old(self).config(),
                    OperatorKind::EndMarkedContent,
                    OperandsView::Integer(0),
                    AnswerView::Nothing,
                    source,
                ),
                final(self)@,
            ),
            result is Ok ==> final(self).well_formed(),
    {
        proof {
            reveal(general_outcome);
        }
        if self.marked_depth == 0 {
            return Err(stop_of(ContentVmErrorCode::InvalidMarkedContentState, source));
        }
        if self.graphics_limits.is_none() {
            let other: u64 = self.value_capacity().saturating_add(self.graphics_capacity());
            match self.push_action(
                ExecutionAction::EndMarkedContent { source: command_source(source) },
                other,
                source,
            ) {
                Ok(_) => {},
                Err(stop) => {
                    return Err(stop);
                },
            }
        }
        self.marked_depth = self.marked_depth - 1;
        Ok(())
    }

    /// Paints an external object.
    fn plan_image<S: ByteSource, C: ContentCancellation>(
        &mut self,
        name: &ContentName,
        source: ContentOperatorSource,
        guard: &RuntimeGuard<'_, S, C>,
    ) -> (result: Result<(), RunStop>)
        requires
            old(self).well_formed(),
            source.page_operator_ordinal <= u32::MAX,
        ensures
            final(self).same_setup(old(self)),
            old(self).accounting.fuel <= final(self).accounting.fuel <= old(self).accounting.fuel
                + movable(old(self)@),
            settled(
                result,
                image_outcome(old(self)@, old(self).config(), name@, source),
                old(self)@,
                final(self)@,
                old(self).scope(source, movable(old(self)@)),
                guard@,
            ),
            result is Ok ==> final(self).well_formed(),
    {
        if self.graphics_limits.is_none() {
            return Err(unsupported_stop(ContentUnsupportedKind::GraphicsV2Operator, source));
        }
        let limits = match self.image_limits {
            Some(limits) => limits,
            None => {
                return Err(
                    unsupported_stop(ContentUnsupportedKind::ImageProfileRequired, source),
                );
            },
        };
        match limits.preflight(
            ContentImageLimitKind::ImageUses,
            self.accounting.image_uses,
            1,
            Some(source),
        ) {
            Ok(_) => {},
            Err(error) => {
                return Err(RunStop::Failed(ContentVmFailure::Vm(error)));
            },
        }
        let paint = self.machine.current.nonstroking;
        let transform = self.machine.current.ctm;
        let _ceiling: u64 = limits.max_image_uses();
        let next_uses: u64 = self.accounting.image_uses + 1;
        let graphics: u64 = self.graphics_capacity();
        let held: u64 = capacity_bytes(&self.image_uses);
        let other: u64 = graphics.saturating_add(self.plan_capacity().saturating_sub(held));
        match reserve_vm_additional(
            &mut self.image_uses,
            next_uses as usize,
            self.program_bytes,
            other,
            self.limits,
            source,
            &mut self.accounting,
        ) {
            Ok(_) => {},
            Err(error) => {
                return Err(RunStop::Failed(ContentVmFailure::Vm(error)));
            },
        }
        let held: u64 = capacity_bytes(&self.planned_images);
        let other: u64 = graphics.saturating_add(self.plan_capacity().saturating_sub(held));
        match reserve_vm_slot(
            &mut self.planned_images,
            self.program_bytes,
            other,
            self.limits,
            source,
            &mut self.accounting,
        ) {
            Ok(_) => {},
            Err(error) => {
                return Err(RunStop::Failed(ContentVmFailure::Vm(error)));
            },
        }
        let place: usize = match self.register_name(name.bytes(), graphics, source, guard) {
            Ok(place) => place,
            Err(stop) => {
                return Err(stop);
            },
        };
        self.planned_images.push(PlannedImageInvocation { source, name: place, transform });
        self.accounting.image_uses = next_uses;
        let other: u64 = self.value_capacity().saturating_add(graphics);
        self.push_action(
            ExecutionAction::DrawImage {
                source,
                command_source: command_source(source),
                transform,
                alpha: paint.alpha(),
                blend_mode: paint.blend_mode(),
                bounds: SceneBounds::Page,
            },
            other,
            source,
        )
    }

    /// Applies a named external graphics state.
    fn plan_ext_gstate(&mut self, name: &ContentName, source: ContentOperatorSource) -> (result: Result<
        (),
        RunStop,
    >)
        requires
            old(self).well_formed(),
        ensures
            final(self).same_setup(old(self)),
            final(self).accounting == old(self).accounting,
            settled_exactly(
                result,
                ext_gstate_outcome(old(self)@, old(self).config(), name@, source),
                final(self)@,
            ),
            result is Ok ==> final(self).well_formed(),
    {
        if self.graphics_limits.is_none() {
            return Err(unsupported_stop(ContentUnsupportedKind::GraphicsV2Operator, source));
        }
        let (stroking, nonstroking, blend_mode) = match &self.ext_gstates {
            None => {
                return Err(
                    unsupported_stop(ContentUnsupportedKind::ExtGStateProfileRequired, source),
                );
            },
            Some(profile) => match profile.find(name.bytes()) {
                None => {
                    return Err(
                        unsupported_stop(ContentUnsupportedKind::ExtGStateResource, source),
                    );
                },
                Some(resource) => (
                    resource.stroking_alpha(),
                    resource.nonstroking_alpha(),
                    resource.blend_mode(),
                ),
            },
        };
        self.machine.apply_ext_gstate(stroking, nonstroking, blend_mode);
        Ok(())
    }

    /// Executes a path, painting, line or color operator.
    fn plan_painting(
        &mut self,
        kind: OperatorKind,
        operands: &ValidatedOperands<'_>,
        answer: &Answer,
        source: ContentOperatorSource,
    ) -> (result: Result<(), RunStop>)
        requires
            old(self).well_formed(),
            shaped(kind.spec_shape(), *operands),
            source.page_operator_ordinal <= u32::MAX,
        ensures
            final(self).same_setup(old(self)),
            old(self).accounting.fuel <= final(self).accounting.fuel <= old(self).accounting.fuel
                + movable(old(self)@),
            settled(
                result,
                painting_outcome(
                    old(self)@,
                    old(self).config(),
                    kind,
                    operands@,
                    answer@,
                    source,
                ),
                old(self)@,
                final(self)@,
                old(self).counted_scope(kind, source),
                no_guard(),
            ),
            result is Ok ==> final(self).well_formed(),
    {
        let limits = match self.graphics_limits {
            Some(limits) => limits,
            None => {
                return Err(unsupported_stop(ContentUnsupportedKind::GraphicsV2Operator, source));
            },
        };
        let count: usize = match user_points(kind, operands) {
            Ok(points) => points.len(),
            Err(error) => {
                return Err(RunStop::Failed(ContentVmFailure::Scene(error)));
            },
        };
        let nothing: Vec<Result<ScenePoint, SceneError>> = Vec::new();
        let mapped = match answer {
            Answer::Points(points) => points.as_slice(),
            _ => nothing.as_slice(),
        };
        proof {
            assert(nothing@ =~= Seq::<Result<ScenePoint, SceneError>>::empty());
        }
        if mapped.len() != count {
            return Err(stop_of(ContentVmErrorCode::InternalState, source));
        }
        let other: u64 = self.value_capacity();
        let retention = VmRetention::new(self.program_bytes, self.plan_capacity(), self.limits);
        proof {
            painting_keeps_the_stack(self.machine@, kind, operands@, mapped@, limits@, source);
        }
        if self.weighed && leaves_lists(kind) {
            return match self.machine.perform(
                kind,
                operands,
                mapped,
                limits,
                retention,
                other,
                &mut self.actions,
                source,
                &mut self.accounting,
            ) {
                Ok(_) => Ok(()),
                Err(GraphicsFault::Vm(error)) => Err(RunStop::Failed(ContentVmFailure::Vm(error))),
                Err(GraphicsFault::Scene(error)) => Err(
                    RunStop::Failed(ContentVmFailure::Scene(error)),
                ),
            };
        }
        match self.machine.execute(
            kind,
            operands,
            mapped,
            limits,
            retention,
            other,
            &mut self.actions,
            source,
            &mut self.accounting,
        ) {
            Ok(retained) => {
                self.accounting.observe_retained(retained);
                self.weighed = true;
                Ok(())
            },
            Err(GraphicsFault::Vm(error)) => Err(RunStop::Failed(ContentVmFailure::Vm(error))),
            Err(GraphicsFault::Scene(error)) => Err(
                RunStop::Failed(ContentVmFailure::Scene(error)),
            ),
        }
    }

    /// Sets the line dash of well-structured operands.
    fn plan_dash<S: ByteSource, C: ContentCancellation>(
        &mut self,
        values: &Vec<LocatedOperand>,
        phase: &LocatedOperand,
        answer: &Answer,
        source: ContentOperatorSource,
        guard: &RuntimeGuard<'_, S, C>,
    ) -> (result: Result<(), RunStop>)
        requires
            old(self).well_formed(),
        ensures
            final(self).same_setup(old(self)),
            old(self).accounting.fuel <= final(self).accounting.fuel <= old(self).accounting.fuel
                + movable(old(self)@),
            settled(
                result,
                dash_outcome(
                    old(self)@,
                    old(self).config(),
                    operand_views(values@),
                    located_view(*phase),
                    answer@,
                    source,
                ),
                old(self)@,
                final(self)@,
                old(self).dash_scope(values@.len() as int, source),
                guard@,
            ),
            result is Ok ==> final(self).well_formed(),
    {
        proof {
            reveal(dash_outcome);
        }
        let ghost views = operand_views(values@);
        assert(views.len() == values@.len());
        let limits = match self.graphics_limits {
            Some(limits) => limits,
            None => {
                return Err(validate_legacy_dash(values, phase, source, guard));
            },
        };
        let held: u64 = self.plan_capacity();
        let retention = VmRetention::new(self.program_bytes, held, self.limits);
        let expected: u64 = byte_width::<SceneScalar>(values.len());
        let admission = match self.machine.preflight_dash_candidate(
            values.len() as u64,
            expected,
            limits,
            retention,
            source,
        ) {
            Ok(admission) => admission,
            Err(error) => {
                return Err(RunStop::Failed(ContentVmFailure::Vm(error)));
            },
        };
        let pattern = match convert_dash(
            values,
            phase,
            admission,
            expected,
            source,
            guard,
            &mut self.accounting,
        ) {
            Ok(pattern) => pattern,
            Err(stop) => {
                return Err(stop);
            },
        };
        match answer {
            Answer::Dash(true) => match self.machine.set_dash(pattern, source) {
                Ok(_) => Ok(()),
                Err(error) => Err(RunStop::Failed(ContentVmFailure::Vm(error))),
            },
            Answer::Dash(false) => Err(
                stop_of(ContentVmErrorCode::InvalidGraphicsParameter, source),
            ),
            _ => Err(stop_of(ContentVmErrorCode::InternalState, source)),
        }
    }

    /// Opens or closes a compatibility section.
    fn plan_compatibility(&mut self, kind: OperatorKind, source: ContentOperatorSource) -> (result: Result<
        (),
        RunStop,
    >)
        requires
            old(self).well_formed(),
            kind == OperatorKind::BeginCompatibility || kind == OperatorKind::EndCompatibility,
        ensures
            final(self).same_setup(old(self)),
            old(self).accounting.fuel <= final(self).accounting.fuel <= old(self).accounting.fuel
                + movable(old(self)@),
            settled_exactly(
                result,
                general_outcome(
                    old(self)@,
                    old(self).config(),
                    kind,
                    OperandsView::Integer(0),
                    AnswerView::Nothing,
                    source,
                ),
                final(self)@,
            ),
            result is Ok ==> final(self).well_formed(),
    {
        proof {
            reveal(general_outcome);
        }
        if kind == OperatorKind::EndCompatibility {
            if self.compatibility_depth == 0 {
                return Err(stop_of(ContentVmErrorCode::InvalidCompatibilityState, source));
            }
            self.compatibility_depth = self.compatibility_depth - 1;
            return Ok(());
        }
        match self.limits.preflight(
            ContentVmLimitKind::CompatibilityDepth,
            self.compatibility_depth as u64,
            1,
            Some(source),
        ) {
            Ok(_) => {},
            Err(error) => {
                return Err(RunStop::Failed(ContentVmFailure::Vm(error)));
            },
        }
        self.compatibility_depth = self.compatibility_depth + 1;
        if self.accounting.max_compatibility_depth < self.compatibility_depth {
            self.accounting.max_compatibility_depth = self.compatibility_depth;
        }
        Ok(())
    }

    /// Plans one operator outside text.
    #[verifier::rlimit(40)]
    #[verifier::spinoff_prover]
    fn plan_general<S: ByteSource, C: ContentCancellation>(
        &mut self,
        kind: OperatorKind,
        operands: &ValidatedOperands<'_>,
        answer: &Answer,
        source: ContentOperatorSource,
        guard: &RuntimeGuard<'_, S, C>,
    ) -> (result: Result<(), RunStop>)
        requires
            old(self).well_formed(),
            !old(self).awaiting,
            shaped(kind.spec_shape(), *operands),
            !is_text(kind),
            source.page_operator_ordinal <= u32::MAX,
        ensures
            final(self).same_setup(old(self)),
            old(self).accounting.fuel <= final(self).accounting.fuel <= old(self).accounting.fuel
                + movable(old(self)@),
            settled(
                result,
                general_outcome(
                    old(self)@,
                    old(self).config(),
                    kind,
                    operands@,
                    answer@,
                    source,
                ),
                old(self)@,
                final(self)@,
                old(self).counted_scope(kind, source),
                guard@,
            ),
            result is Ok ==> final(self).well_formed(),
    {
        proof {
            reveal(general_outcome);
        }
        let weighed = self.weighed;
        self.weighed = false;
        match kind {
            OperatorKind::SaveGraphicsState => self.plan_save(source),
            OperatorKind::RestoreGraphicsState => self.plan_restore(source),
            OperatorKind::ConcatMatrix => self.plan_concat(answer, source),
            OperatorKind::BeginCompatibility
            | OperatorKind::EndCompatibility => self.plan_compatibility(kind, source),
            OperatorKind::MarkedContentPoint => Err(
                unsupported_stop(ContentUnsupportedKind::MarkedContentPoint, source),
            ),
            OperatorKind::MarkedContentPointProperties => Err(
                unsupported_stop(ContentUnsupportedKind::MarkedContentPointProperties, source),
            ),
            OperatorKind::EndMarkedContent => self.plan_end_marked(source),
            OperatorKind::SetGraphicsState
            | OperatorKind::BeginMarkedContent
            | OperatorKind::PaintXObject => match operands {
                ValidatedOperands::Name(name) => {
                    if kind == OperatorKind::SetGraphicsState {
                        self.plan_ext_gstate(name, source)
                    } else if kind == OperatorKind::PaintXObject {
                        self.plan_image(name, source, guard)
                    } else {
                        self.plan_begin_marked(name, source, guard)
                    }
                },
                _ => Err(stop_of(ContentVmErrorCode::InternalState, source)),
            },
            OperatorKind::BeginMarkedContentProperties => match operands {
                ValidatedOperands::NameAndProperty { tag, property } => match property {
                    PropertyOperand::Name(_) => self.plan_property(source, guard),
                    PropertyOperand::Dictionary => Err(
                        unsupported_stop(
                            ContentUnsupportedKind::DirectContentPropertyDictionary,
                            source,
                        ),
                    ),
                },
                _ => Err(stop_of(ContentVmErrorCode::InternalState, source)),
            },
            _ => {
                self.weighed = weighed;
                self.plan_painting(kind, operands, answer, source)
            },
        }
    }

    /// Counts an inspected operator against the image and font budgets.
    fn inspect(&mut self, source: ContentOperatorSource) -> (result: Result<(), RunStop>)
        requires
            old(self).well_formed(),
        ensures
            final(self).weighed == old(self).weighed,
            final(self).same_setup(old(self)),
            final(self).accounting == old(self).accounting,
            final(self).well_formed(),
            settled_exactly(
                result,
                inspected(old(self)@, old(self).config(), source),
                final(self)@,
            ),
    {
        if let Some(limits) = self.image_limits {
            match limits.preflight(
                ContentImageLimitKind::PlanningOperators,
                self.image_operators,
                1,
                Some(source),
            ) {
                Ok(_) => {},
                Err(error) => {
                    return Err(RunStop::Failed(ContentVmFailure::Vm(error)));
                },
            }
        }
        if let Some(limits) = self.font_limits {
            match limits.preflight(
                ContentFontLimitKind::PlanningOperators,
                self.font_operators,
                1,
                Some(source),
            ) {
                Ok(_) => {},
                Err(error) => {
                    return Err(RunStop::Failed(ContentVmFailure::Vm(error)));
                },
            }
        }
        if self.image_limits.is_some() {
            self.image_operators = self.image_operators + 1;
        }
        if self.font_limits.is_some() {
            self.font_operators = self.font_operators + 1;
        }
        Ok(())
    }

    /// Counts an executed operator with its fuel.
    fn charge(&mut self, fuel: u64, source: ContentOperatorSource) -> (result: Result<(), RunStop>)
        requires
            old(self).well_formed(),
        ensures
            final(self).weighed == old(self).weighed,
            final(self).accounting.fuel >= old(self).accounting.fuel,
            final(self).same_setup(old(self)),
            final(self).well_formed(),
            settled(
                result,
                executed(old(self)@, old(self).config(), source),
                old(self)@,
                final(self)@,
                PlanScope {
                    admitted: executed(old(self)@, old(self).config(), source) is Ok,
                    ..old(self).scope(source, fuel as int)
                },
                no_guard(),
            ),
            result matches Err(stop) ==> !is_memory_stop(stop),
            result is Ok ==> final(self).accounting.fuel == old(self).accounting.fuel + fuel
                && final(self).accounting.fuel <= old(self).limits@.max_fuel,
    {
        match admit_operator(&mut self.accounting, self.limits, fuel, source) {
            Ok(_) => Ok(()),
            Err(error) => Err(RunStop::Failed(ContentVmFailure::Vm(error))),
        }
    }

    /// Plans one known operator.
    #[verifier::rlimit(60)]
    #[verifier::spinoff_prover]
    fn plan_known<S: ByteSource, C: ContentCancellation>(
        &mut self,
        kind: OperatorKind,
        operands: &[LocatedOperand],
        answer: &Answer,
        source: ContentOperatorSource,
        guard: &RuntimeGuard<'_, S, C>,
    ) -> (result: Result<(), RunStop>)
        requires
            old(self).well_formed(),
            !old(self).awaiting,
            source.page_operator_ordinal <= u32::MAX,
        ensures
            final(self).accounting.fuel >= old(self).accounting.fuel,
            final(self).same_setup(old(self)),
            settled(
                result,
                known_outcome(
                    old(self)@,
                    old(self).config(),
                    kind,
                    operand_views(operands@),
                    answer@,
                    source,
                ),
                old(self)@,
                final(self)@,
                old(self).known_scope(kind, operand_views(operands@), source),
                guard@,
            ),
            result is Ok ==> final(self).well_formed(),
            result is Ok ==> old(self).accounting.fuel + known_cost(
                kind,
                operand_views(operands@),
                source,
            ) <= final(self).accounting.fuel <= old(self).accounting.fuel + known_cost(
                kind,
                operand_views(operands@),
                source,
            ) + movable(old(self)@),
    {
        proof {
            reveal(known_outcome);
        }
        let ghost views = operand_views(operands@);
        let ghost wide = self.known_scope(kind, views, source);
        assert forall|i: int| 0 <= i < views.len() implies #[trigger] views[i] == located_view(
            operands@[i],
        ) by {}
        match validate_operand_structure(kind, operands, source) {
            Ok(_) => {},
            Err(error) => {
                return Err(RunStop::Failed(ContentVmFailure::Vm(error)));
            },
        }
        if self.graphics_limits.is_some() {
            match validate_operator_context(kind, self.text_active, source) {
                Ok(_) => {},
                Err(error) => {
                    return Err(RunStop::Failed(ContentVmFailure::Vm(error)));
                },
            }
        }
        let base: u64 = kind.spec().base_fuel() as u64;
        let _ceiling: u64 = self.limits.max_fuel();
        if kind == OperatorKind::SetLineDash {
            let values = match &operands[0].value {
                ContentOperand::Array(values) => values,
                _ => {
                    return Err(stop_of(ContentVmErrorCode::InternalState, source));
                },
            };
            proof {
                array_view(*values);
            }
            let fuel: u64 = base.saturating_add(values.len() as u64);
            match self.charge(fuel, source) {
                Ok(_) => {},
                Err(stop) => {
                    return Err(stop);
                },
            }
            self.weighed = false;
            let ghost next = *self;
            let result = self.plan_dash(values, &operands[1], answer, source, guard);
            proof {
                if let Err(stop) = result {
                    let expected = dash_outcome(
                        next@,
                        next.config(),
                        views[0].value->Array_0,
                        views[1],
                        answer@,
                        source,
                    );
                    let narrow = next.dash_scope(values@.len() as int, source);
                    if starved(stop, expected, next@, narrow) {
                        starved_widely(stop, expected, old(self)@, next@, narrow, wide);
                    }
                }
            }
            return result;
        }
        let validated = match convert_operands(kind, operands, source) {
            Ok(validated) => validated,
            Err(error) => {
                return Err(RunStop::Failed(ContentVmFailure::Vm(error)));
            },
        };
        proof {
            if let OperandsView::Array(values) = validated@ {
                array_bytes_nonnegative(values, values.len() as int);
            }
        }
        let fuel: u64 = base.saturating_add(validated.dynamic_fuel(kind));
        match self.charge(fuel, source) {
            Ok(_) => {},
            Err(stop) => {
                return Err(stop);
            },
        }
        if is_text_operator(kind) {
            self.weighed = false;
        }
        let ghost next = *self;
        if is_text_operator(kind) {
            let result = self.plan_text_operator(kind, &validated, source, guard);
            proof {
                if let Err(stop) = result {
                    let expected = text_outcome(next@, next.config(), kind, validated@, source);
                    let narrow = next.scope(source, movable(next@) + text_cost(validated@));
                    if starved(stop, expected, next@, narrow) {
                        starved_widely(stop, expected, old(self)@, next@, narrow, wide);
                    }
                }
            }
            result
        } else {
            let result = self.plan_general(kind, &validated, answer, source, guard);
            proof {
                if let Err(stop) = result {
                    let expected = general_outcome(
                        next@,
                        next.config(),
                        kind,
                        validated@,
                        answer@,
                        source,
                    );
                    let narrow = next.counted_scope(kind, source);
                    if starved(stop, expected, next@, narrow) {
                        starved_widely(stop, expected, old(self)@, next@, narrow, wide);
                    }
                }
            }
            result
        }
    }

    /// Takes one step of planning an operator, given what the layers below computed for it. The
    /// outcome is the model's, unless the guard fails, or memory or fuel runs out where the operator
    /// needs any; a guard failure comes before any other.
    pub fn plan_operator<S: ByteSource, C: ContentCancellation>(
        &mut self,
        operator: &ScannedOperator,
        answer: &Answer,
        guard: &RuntimeGuard<'_, S, C>,
    ) -> (result: Result<(), RunStop>)
        requires
            old(self).well_formed(),
            operator.source.page_operator_ordinal <= u32::MAX,
        ensures
            final(self).accounting.fuel >= old(self).accounting.fuel,
            final(self).same_setup(old(self)),
            settled(
                result,
                planned(old(self)@, old(self).config(), operator_view(*operator), answer@),
                old(self)@,
                final(self)@,
                plan_scope(
                    old(self)@,
                    old(self).config(),
                    operator_view(*operator),
                    old(self).accounting.fuel,
                    old(self).weighed,
                ),
                guard@,
            ),
            result is Ok ==> guard@.clear() && final(self).well_formed(),
            guard@.clear() || (result matches Err(stop) && is_guard_stop(
                stop,
                Some(operator.source),
                guard@,
            )),
            result is Ok ==> old(self).accounting.fuel + step_cost(
                old(self)@,
                operator_view(*operator),
            ) <= final(self).accounting.fuel <= old(self).accounting.fuel + step_cost(
                old(self)@,
                operator_view(*operator),
            ) + movable(old(self)@),
    {
        let source = operator.source;
        match guard.probe(Some(source)) {
            Ok(_) => {},
            Err(stop) => {
                return Err(stop);
            },
        }
        if self.awaiting {
            return match self.resume_operator(operator, answer, guard) {
                Ok(_) => Ok(()),
                Err(stop) => Err(guard.prioritize(Some(source), stop)),
            };
        }
        match self.inspect(source) {
            Ok(_) => {},
            Err(stop) => {
                return Err(guard.prioritize(Some(source), stop));
            },
        }
        let result = match &operator.operator {
            ContentOperator::Known(kind) => self.plan_known(
                *kind,
                operator.operands.as_slice(),
                answer,
                source,
                guard,
            ),
            ContentOperator::Unknown(_) => match self.charge(1, source) {
                Ok(_) => if self.compatibility_depth != 0 {
                    Ok(())
                } else {
                    Err(unsupported_stop(ContentUnsupportedKind::UnknownOperator, source))
                },
                Err(stop) => Err(stop),
            },
        };
        match result {
            Ok(_) => Ok(()),
            Err(stop) => Err(guard.prioritize(Some(source), stop)),
        }
    }

    /// Goes on with an operator that awaited a property.
    fn resume_operator<S: ByteSource, C: ContentCancellation>(
        &mut self,
        operator: &ScannedOperator,
        answer: &Answer,
        guard: &RuntimeGuard<'_, S, C>,
    ) -> (result: Result<(), RunStop>)
        requires
            old(self).well_formed(),
            old(self).awaiting,
            operator.source.page_operator_ordinal <= u32::MAX,
        ensures
            final(self).same_setup(old(self)),
            old(self).accounting.fuel <= final(self).accounting.fuel <= old(self).accounting.fuel
                + movable(old(self)@),
            settled(
                result,
                awaited_outcome(
                    old(self)@,
                    old(self).config(),
                    operator_view(*operator),
                    answer@,
                ),
                old(self)@,
                final(self)@,
                old(self).scope(operator.source, movable(old(self)@)),
                guard@,
            ),
            result is Ok ==> final(self).well_formed(),
    {
        let kind = OperatorKind::BeginMarkedContentProperties;
        let source = operator.source;
        let operands = operator.operands.as_slice();
        let known = match &operator.operator {
            ContentOperator::Known(known) => *known,
            ContentOperator::Unknown(_) => {
                return Err(stop_of(ContentVmErrorCode::InternalState, source));
            },
        };
        if known != kind {
            return Err(stop_of(ContentVmErrorCode::InternalState, source));
        }
        if validate_operand_structure(kind, operands, source).is_err() {
            return Err(stop_of(ContentVmErrorCode::InternalState, source));
        }
        match convert_operands(kind, operands, source) {
            Ok(ValidatedOperands::NameAndProperty { tag, property: PropertyOperand::Name(_) }) => {
                self.plan_awaited(tag, answer, source, guard)
            },
            _ => Err(stop_of(ContentVmErrorCode::InternalState, source)),
        }
    }

    /// Returns what an operator needs from the layers below.
    pub fn requirement(&self, operator: &ScannedOperator) -> (requirement: Requirement)
        requires
            self.well_formed(),
        ensures
            requirement@ == required(self@, self.config(), operator_view(*operator)),
    {
        let source = operator.source;
        let operands = operator.operands.as_slice();
        let kind = match &operator.operator {
            ContentOperator::Known(kind) => *kind,
            ContentOperator::Unknown(_) => {
                return Requirement::Nothing;
            },
        };
        let ghost views = operand_views(operands@);
        assert forall|i: int| 0 <= i < views.len() implies #[trigger] views[i] == located_view(
            operands@[i],
        ) by {}
        if validate_operand_structure(kind, operands, source).is_err() {
            return Requirement::Nothing;
        }
        if self.awaiting {
            if kind != OperatorKind::BeginMarkedContentProperties {
                return Requirement::Nothing;
            }
            return match convert_operands(kind, operands, source) {
                Ok(
                    ValidatedOperands::NameAndProperty { property: PropertyOperand::Name(name), .. },
                ) => Requirement::Property { name: copied(name.bytes()) },
                _ => Requirement::Nothing,
            };
        }
        if kind == OperatorKind::SetLineDash {
            if self.graphics_limits.is_none() {
                return Requirement::Nothing;
            }
            return match &operands[0].value {
                ContentOperand::Array(values) => {
                    proof {
                        array_view(*values);
                    }
                    match dash_operands(values, &operands[1], source) {
                        Ok(pattern) => Requirement::Dash {
                            array: pattern.array,
                            phase: pattern.phase,
                        },
                        Err(_) => Requirement::Nothing,
                    }
                },
                _ => Requirement::Nothing,
            };
        }
        let validated = match convert_operands(kind, operands, source) {
            Ok(validated) => validated,
            Err(_) => {
                return Requirement::Nothing;
            },
        };
        if kind == OperatorKind::ConcatMatrix {
            return match validated {
                ValidatedOperands::SixNumbers(numbers) => Requirement::Product {
                    left: self.ctm,
                    right: matrix_of(&numbers),
                },
                _ => Requirement::Nothing,
            };
        }
        match user_points(kind, &validated) {
            Ok(points) => if points.len() > 0 {
                Requirement::Points { matrix: self.machine.current.ctm, points }
            } else {
                Requirement::Nothing
            },
            Err(_) => Requirement::Nothing,
        }
    }
}

} // verus!
