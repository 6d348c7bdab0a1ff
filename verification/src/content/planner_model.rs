//! What planning makes of each operator.

use vstd::prelude::*;

use crate::content::accounting::{no_charges, Accounting};
use crate::content::ext_gstate::{resource_index, ContentExtGStateResource};
use crate::content::font_limits::{font_preflight, ContentFontLimitConfig};
use crate::content::graphics_limits::{graphics_preflight, ContentGraphicsLimitConfig};
use crate::content::graphics_model::{
    all_mapped, graphics_outcome, initial_graphics, is_path_operator, is_state_operator, paint_of,
    point_count, points_of, scalar_value, state_restored, state_saved, with_ext_gstate, DashView,
    GraphicsFault, GraphicsState, GraphicsView,
};
use crate::content::graphics::held_too_much;
use crate::content::guard::{is_fuel_stop, is_memory_stop, vm_stop, RunStop};
use crate::content::image_limits::{image_preflight, ContentImageLimitConfig};
use crate::content::model::ContentOperatorSource;
use crate::content::number::ContentNumber;
use crate::content::operands::{
    context_fault, converted, operand_fuel, operand_number, operand_numbers, structure_fault,
    OperandsView,
};
use crate::content::operator::OperatorKind;
use crate::content::plan::{ExecutionAction, TextAction, TextShowItem};
use crate::content::resources::ResourceProof;
use crate::content::scene::{
    command_source_of, identity_matrix, BlendMode, FillRule, GraphicsResourceSource, Matrix,
    PathSegment, SceneBounds, ScenePoint, SceneScalar, SceneUnit,
};
use crate::content::view::{LocatedView, OperandView, OperatorView};
use crate::content::vm_error::{
    operator_failure, vm_failure_of, ContentFontLimitKind, ContentGraphicsLimitKind,
    ContentImageLimitKind, ContentUnsupported, ContentUnsupportedKind, ContentVmError,
    ContentVmErrorCode, ContentVmFailure, ContentVmLimitKind, DocumentError, SceneError,
};
use crate::content::vm_limits::{vm_preflight, ContentVmLimitConfig};

verus! {

/// One resolved marked-content property.
#[derive(Clone, Copy, Debug, PartialEq, Eq, Structural)]
pub struct ResolvedPropertyUse {
    pub source: ContentOperatorSource,
    pub resource: ResourceProof,
}

/// One painted external image.
#[derive(Clone, Copy, Debug, PartialEq, Eq, Structural)]
pub struct ResolvedImageUse {
    pub source: ContentOperatorSource,
    pub resource: ResourceProof,
    pub image: u64,
    pub resource_source: GraphicsResourceSource,
}

/// One planned external object. Its name is a place in the plan's registry.
#[derive(Clone, Copy, Debug, PartialEq, Eq, Structural)]
pub struct PlannedImageInvocation {
    pub source: ContentOperatorSource,
    pub name: usize,
    pub transform: Matrix,
}

/// Budgets and capabilities of one plan.
pub struct PlanConfig {
    pub vm: ContentVmLimitConfig,
    /// Present in the graphics-capable profile.
    pub graphics: Option<ContentGraphicsLimitConfig>,
    pub images: Option<ContentImageLimitConfig>,
    pub fonts: Option<ContentFontLimitConfig>,
    pub ext_gstates: Option<Seq<ContentExtGStateResource>>,
    /// Whether a form is planned, which runs one graphics state deep.
    pub in_form: bool,
}

/// A plan under construction.
pub struct PlannerView {
    pub graphics: GraphicsView,
    /// Saved transforms of the profile without graphics.
    pub stack: Seq<Matrix>,
    pub ctm: Matrix,
    pub actions: Seq<ExecutionAction>,
    pub names: Seq<Seq<u8>>,
    pub items: Seq<Seq<TextShowItem>>,
    pub property_uses: Seq<ResolvedPropertyUse>,
    pub planned_images: Seq<PlannedImageInvocation>,
    pub image_operators: u64,
    pub font_operators: u64,
    pub text_bytes: u64,
    pub text_adjustments: u64,
    pub font_uses: u64,
    pub first_font_source: Option<ContentOperatorSource>,
    pub text_active: bool,
    pub font_selected: bool,
    pub saved_text: Seq<bool>,
    pub compatibility_depth: u32,
    pub marked_depth: u32,
    /// Whether the operator at hand was charged and awaits its property.
    pub awaiting: bool,
    /// Charges other than fuel and the retained peak, which growth moves.
    pub charges: Accounting,
}

/// What only the layers below can compute for an operator.
pub enum RequirementView {
    Nothing,
    /// The product of the current transform with an operand.
    Product(Matrix, Matrix),
    /// Points mapped through the current transform.
    Points(Matrix, Seq<ScenePoint>),
    /// Whether the scene takes a dash.
    Dash(Seq<SceneScalar>, SceneScalar),
    /// A marked-content property by its name.
    Property(Seq<u8>),
}

/// What the layers below computed.
pub enum AnswerView {
    Nothing,
    Product(Result<Matrix, SceneError>),
    Points(Seq<Result<ScenePoint, SceneError>>),
    Dash(bool),
    Property(Result<ResourceProof, DocumentError>),
}

/// A plan as it is after a step, or why planning stops.
pub type PlanOutcome = Result<PlannerView, RunStop>;

/// The plan that content starts with.
pub open spec fn initial_plan(ctm: Matrix) -> PlannerView {
    PlannerView {
        graphics: GraphicsView {
            current: GraphicsState { ctm, ..initial_graphics().current },
            ..initial_graphics()
        },
        stack: Seq::empty(),
        ctm,
        actions: Seq::empty(),
        names: Seq::empty(),
        items: Seq::empty(),
        property_uses: Seq::empty(),
        planned_images: Seq::empty(),
        image_operators: 0,
        font_operators: 0,
        text_bytes: 0,
        text_adjustments: 0,
        font_uses: 0,
        first_font_source: None,
        text_active: false,
        font_selected: false,
        saved_text: Seq::empty(),
        compatibility_depth: 0,
        marked_depth: 0,
        awaiting: false,
        charges: no_charges(),
    }
}

/// Charges without fuel and the retained peak.
pub open spec fn counters(accounting: Accounting) -> Accounting {
    Accounting { fuel: 0, peak_retained: 0, ..accounting }
}

/// The stop of a malformed operator.
pub open spec fn refused(code: ContentVmErrorCode, source: ContentOperatorSource) -> RunStop {
    vm_stop(operator_failure(code, source))
}

/// The stop of a feature outside the profile.
pub open spec fn unsupported(kind: ContentUnsupportedKind, source: ContentOperatorSource) -> RunStop {
    RunStop::Unsupported(ContentUnsupported { kind, source })
}

/// The larger of two depths.
pub open spec fn deeper(left: u32, right: int) -> u32 {
    if left < right {
        right as u32
    } else {
        left
    }
}

/// A plan with one more action.
pub open spec fn with_action(view: PlannerView, action: ExecutionAction) -> PlannerView {
    PlannerView { actions: view.actions.push(action), ..view }
}

/// A plan with one more text action.
pub open spec fn with_text(view: PlannerView, action: TextAction) -> PlannerView {
    with_action(view, ExecutionAction::Text(action))
}

/// Counts an inspected operator against the image and font budgets.
pub open spec fn inspected(
    view: PlannerView,
    config: PlanConfig,
    source: ContentOperatorSource,
) -> PlanOutcome {
    let images = match config.images {
        Some(limits) => image_preflight(
            limits,
            ContentImageLimitKind::PlanningOperators,
            view.image_operators,
            1,
            Some(source),
        ),
        None => Ok(()),
    };
    let fonts = match config.fonts {
        Some(limits) => font_preflight(
            limits,
            ContentFontLimitKind::PlanningOperators,
            view.font_operators,
            1,
            Some(source),
        ),
        None => Ok(()),
    };
    if images is Err {
        Err(vm_stop(images->Err_0))
    } else if fonts is Err {
        Err(vm_stop(fonts->Err_0))
    } else {
        Ok(
            PlannerView {
                image_operators: if config.images is Some {
                    (view.image_operators + 1) as u64
                } else {
                    view.image_operators
                },
                font_operators: if config.fonts is Some {
                    (view.font_operators + 1) as u64
                } else {
                    view.font_operators
                },
                ..view
            },
        )
    }
}

/// Counts an executed operator, fuel aside.
pub open spec fn executed(
    view: PlannerView,
    config: PlanConfig,
    source: ContentOperatorSource,
) -> PlanOutcome {
    match vm_preflight(
        config.vm,
        ContentVmLimitKind::Operators,
        view.charges.operators,
        1,
        Some(source),
    ) {
        Err(error) => Err(vm_stop(error)),
        Ok(_) => Ok(
            PlannerView {
                charges: Accounting {
                    operators: (view.charges.operators + 1) as u64,
                    ..view.charges
                },
                ..view
            },
        ),
    }
}

/// Whether an operator belongs to text.
pub open spec fn is_text(kind: OperatorKind) -> bool {
    match kind {
        OperatorKind::BeginText
        | OperatorKind::EndText
        | OperatorKind::SetCharacterSpacing
        | OperatorKind::SetWordSpacing
        | OperatorKind::SetHorizontalScaling
        | OperatorKind::SetTextLeading
        | OperatorKind::SetTextFont
        | OperatorKind::SetTextRenderMode
        | OperatorKind::SetTextRise
        | OperatorKind::MoveTextPosition
        | OperatorKind::MoveTextPositionSetLeading
        | OperatorKind::SetTextMatrix
        | OperatorKind::MoveToNextTextLine
        | OperatorKind::ShowText
        | OperatorKind::ShowTextAdjusted
        | OperatorKind::MoveNextLineShowText
        | OperatorKind::SetSpacingMoveNextLineShowText => true,
        _ => false,
    }
}

/// Whether bytes are printable ASCII.
pub open spec fn printable(bytes: Seq<u8>) -> bool {
    forall|i: int| 0 <= i < bytes.len() ==> 0x20 <= #[trigger] bytes[i] <= 0x7e
}

/// String bytes of the first `count` items of a text array.
pub open spec fn array_bytes(values: Seq<LocatedView>, count: int) -> int
    decreases count,
{
    if count <= 0 {
        0
    } else {
        array_bytes(values, count - 1) + (match values[count - 1].value {
            OperandView::String { bytes, .. } => bytes.len() as int,
            _ => 0,
        })
    }
}

/// Numbers among the first `count` items of a text array.
pub open spec fn array_adjustments(values: Seq<LocatedView>, count: int) -> int
    decreases count,
{
    if count <= 0 {
        0
    } else {
        array_adjustments(values, count - 1) + (match values[count - 1].value {
            OperandView::Integer(_) | OperandView::Real(_) => 1int,
            _ => 0int,
        })
    }
}

/// Whether a text array holds strings and numbers only.
pub open spec fn is_text_array(values: Seq<LocatedView>) -> bool {
    forall|i: int|
        0 <= i < values.len() ==> {
            let value = (#[trigger] values[i]).value;
            value is String || value is Integer || value is Real
        }
}

/// Admits shown text against the font budgets.
pub open spec fn text_admitted(
    view: PlannerView,
    limits: ContentFontLimitConfig,
    bytes: int,
    adjustments: int,
    source: ContentOperatorSource,
) -> PlanOutcome {
    match font_preflight(
        limits,
        ContentFontLimitKind::TextBytes,
        view.text_bytes,
        bytes as u64,
        Some(source),
    ) {
        Err(error) => Err(vm_stop(error)),
        Ok(_) => match font_preflight(
            limits,
            ContentFontLimitKind::TextAdjustments,
            view.text_adjustments,
            adjustments as u64,
            Some(source),
        ) {
            Err(error) => Err(vm_stop(error)),
            Ok(_) => Ok(
                PlannerView {
                    text_bytes: (view.text_bytes + bytes) as u64,
                    text_adjustments: (view.text_adjustments + adjustments) as u64,
                    ..view
                },
            ),
        },
    }
}

/// Why the first `count` items of a text array are refused: the first that is unprintable, or whose
/// number cannot be represented.
pub open spec fn array_fault(
    values: Seq<LocatedView>,
    count: int,
    source: ContentOperatorSource,
) -> Option<RunStop>
    decreases count,
{
    if count <= 0 {
        None
    } else {
        match array_fault(values, count - 1, source) {
            Some(stop) => Some(stop),
            None => match values[count - 1].value {
                OperandView::String { bytes, .. } => if printable(bytes) {
                    None
                } else {
                    Some(unsupported(ContentUnsupportedKind::TextEncoding, source))
                },
                _ => match operand_number(values[count - 1], source) {
                    Err(error) => Some(vm_stop(error)),
                    Ok(_) => None,
                },
            },
        }
    }
}

/// The registered names and the items after the first `count` items of a text array.
pub open spec fn array_items(
    names: Seq<Seq<u8>>,
    values: Seq<LocatedView>,
    count: int,
    source: ContentOperatorSource,
) -> (Seq<Seq<u8>>, Seq<TextShowItem>)
    decreases count,
{
    if count <= 0 {
        (names, Seq::empty())
    } else {
        let (front, items) = array_items(names, values, count - 1, source);
        match values[count - 1].value {
            OperandView::String { bytes, .. } => (
                front.push(bytes),
                items.push(TextShowItem::Bytes(front.len() as usize)),
            ),
            _ => (
                front,
                items.push(
                    TextShowItem::Adjustment(operand_number(values[count - 1], source)->Ok_0),
                ),
            ),
        }
    }
}

/// The items of a shown string or array, sealed into the plan.
pub open spec fn sealed(
    view: PlannerView,
    limits: ContentFontLimitConfig,
    operands: OperandsView,
    source: ContentOperatorSource,
) -> PlanOutcome {
    match operands {
        OperandsView::Array(values) => {
            let n = values.len() as int;
            if !is_text_array(values) {
                Err(refused(ContentVmErrorCode::InvalidOperandType, source))
            } else {
                match text_admitted(
                    view,
                    limits,
                    array_bytes(values, n),
                    array_adjustments(values, n),
                    source,
                ) {
                    Err(stop) => Err(stop),
                    Ok(next) => match array_fault(values, n, source) {
                        Some(stop) => Err(stop),
                        None => {
                            let (names, items) = array_items(next.names, values, n, source);
                            Ok(PlannerView { names, items: next.items.push(items), ..next })
                        },
                    },
                }
            }
        },
        _ => {
            let bytes = match operands {
                OperandsView::String(bytes) => bytes,
                OperandsView::TwoNumbersAndString(_, bytes) => bytes,
                _ => Seq::empty(),
            };
            match text_admitted(view, limits, bytes.len() as int, 0, source) {
                Err(stop) => Err(stop),
                Ok(next) => if !printable(bytes) {
                    Err(unsupported(ContentUnsupportedKind::TextEncoding, source))
                } else {
                    Ok(
                        PlannerView {
                            names: next.names.push(bytes),
                            items: next.items.push(
                                seq![TextShowItem::Bytes(next.names.len() as usize)],
                            ),
                            ..next
                        },
                    )
                },
            }
        },
    }
}

/// The spacings that an operator sets before it shows text: characters, then words.
pub open spec fn spacings(operands: OperandsView) -> (Option<ContentNumber>, Option<ContentNumber>) {
    match operands {
        OperandsView::TwoNumbersAndString(numbers, _) => (Some(numbers[1]), Some(numbers[0])),
        _ => (None, None),
    }
}

/// The transform of six numbers.
pub open spec fn matrix_value(numbers: Seq<ContentNumber>) -> Matrix {
    Matrix {
        a: scalar_value(numbers[0]),
        b: scalar_value(numbers[1]),
        c: scalar_value(numbers[2]),
        d: scalar_value(numbers[3]),
        e: scalar_value(numbers[4]),
        f: scalar_value(numbers[5]),
    }
}

/// Shows text.
pub open spec fn shown(
    view: PlannerView,
    limits: ContentFontLimitConfig,
    kind: OperatorKind,
    operands: OperandsView,
    source: ContentOperatorSource,
) -> PlanOutcome {
    if !view.font_selected {
        Err(refused(ContentVmErrorCode::InvalidTextObject, source))
    } else {
        match sealed(view, limits, operands, source) {
            Err(stop) => Err(stop),
            Ok(next) => Ok(
                with_text(
                    next,
                    TextAction::Show {
                        items: view.items.len() as usize,
                        character_spacing: spacings(operands).0,
                        word_spacing: spacings(operands).1,
                        next_line: kind == OperatorKind::MoveNextLineShowText || kind
                            == OperatorKind::SetSpacingMoveNextLineShowText,
                        paint: view.graphics.current.nonstroking,
                        ctm: view.graphics.current.ctm,
                        command_source: command_source_of(source),
                        source,
                    },
                ),
            ),
        }
    }
}

/// Selects a font.
pub open spec fn font_set(
    view: PlannerView,
    limits: ContentFontLimitConfig,
    name: Seq<u8>,
    size: ContentNumber,
    source: ContentOperatorSource,
) -> PlanOutcome {
    match font_preflight(
        limits,
        ContentFontLimitKind::FontUses,
        view.font_uses,
        1,
        Some(source),
    ) {
        Err(error) => Err(vm_stop(error)),
        Ok(_) => Ok(
            with_text(
                PlannerView {
                    names: view.names.push(name),
                    font_uses: (view.font_uses + 1) as u64,
                    font_selected: true,
                    first_font_source: if view.first_font_source is None {
                        Some(source)
                    } else {
                        view.first_font_source
                    },
                    ..view
                },
                TextAction::SetFont { name: view.names.len() as usize, size, source },
            ),
        ),
    }
}

/// What a text operator does. Boundaries need no profile; everything else needs fonts first, and
/// then graphics.
#[verifier::opaque]
pub open spec fn text_outcome(
    view: PlannerView,
    config: PlanConfig,
    kind: OperatorKind,
    operands: OperandsView,
    source: ContentOperatorSource,
) -> PlanOutcome {
    let invalid = Err(refused(ContentVmErrorCode::InvalidTextObject, source));
    if kind == OperatorKind::BeginText {
        if view.text_active {
            invalid
        } else {
            Ok(
                PlannerView {
                    text_active: true,
                    ..with_text(view, TextAction::Begin { source })
                },
            )
        }
    } else if kind == OperatorKind::EndText {
        if !view.text_active {
            invalid
        } else {
            Ok(PlannerView { text_active: false, ..with_text(view, TextAction::End { source }) })
        }
    } else if config.fonts is None {
        Err(unsupported(ContentUnsupportedKind::FontProfileRequired, source))
    } else if config.graphics is None {
        Err(unsupported(ContentUnsupportedKind::GraphicsV2Operator, source))
    } else {
        let limits = config.fonts->0;
        let numbers = operands->Numbers_0;
        match kind {
            OperatorKind::SetCharacterSpacing => Ok(
                with_text(view, TextAction::SetCharacterSpacing { value: numbers[0], source }),
            ),
            OperatorKind::SetWordSpacing => Ok(
                with_text(view, TextAction::SetWordSpacing { value: numbers[0], source }),
            ),
            OperatorKind::SetHorizontalScaling => Ok(
                with_text(view, TextAction::SetHorizontalScaling { value: numbers[0], source }),
            ),
            OperatorKind::SetTextLeading => Ok(
                with_text(view, TextAction::SetLeading { value: numbers[0], source }),
            ),
            OperatorKind::SetTextRise => Ok(
                with_text(view, TextAction::SetRise { value: numbers[0], source }),
            ),
            OperatorKind::SetTextRenderMode => {
                let value = operands->Integer_0;
                if !(0 <= value <= 7) {
                    Err(refused(ContentVmErrorCode::InvalidGraphicsParameter, source))
                } else if value != 0 {
                    Err(unsupported(ContentUnsupportedKind::TextRenderMode, source))
                } else {
                    Ok(with_text(view, TextAction::SetRenderMode { value, source }))
                }
            },
            OperatorKind::SetTextFont => font_set(
                view,
                limits,
                operands->NameAndNumber_0,
                operands->NameAndNumber_1,
                source,
            ),
            OperatorKind::MoveTextPosition | OperatorKind::MoveTextPositionSetLeading => Ok(
                with_text(
                    view,
                    TextAction::MovePosition {
                        tx: numbers[0],
                        ty: numbers[1],
                        set_leading: kind == OperatorKind::MoveTextPositionSetLeading,
                        source,
                    },
                ),
            ),
            OperatorKind::SetTextMatrix => Ok(
                with_text(view, TextAction::SetMatrix { matrix: matrix_value(numbers), source }),
            ),
            OperatorKind::MoveToNextTextLine => Ok(
                with_text(view, TextAction::NextLine { source }),
            ),
            _ => shown(view, limits, kind, operands, source),
        }
    }
}

/// The values of a dash array, or why the first bad one is refused.
pub open spec fn dash_values(
    values: Seq<LocatedView>,
    count: int,
    source: ContentOperatorSource,
) -> Result<Seq<SceneScalar>, ContentVmError>
    decreases count,
{
    if count <= 0 {
        Ok(Seq::empty())
    } else {
        match dash_values(values, count - 1, source) {
            Err(error) => Err(error),
            Ok(front) => match operand_number(values[count - 1], source) {
                Err(error) => Err(error),
                Ok(number) => if number.scaled < 0 {
                    Err(operator_failure(ContentVmErrorCode::InvalidGraphicsParameter, source))
                } else {
                    Ok(front.push(scalar_value(number)))
                },
            },
        }
    }
}

/// The array and phase of a dash. The phase is looked at first.
pub open spec fn dash_of(
    values: Seq<LocatedView>,
    phase: LocatedView,
    source: ContentOperatorSource,
) -> Result<(Seq<SceneScalar>, SceneScalar), ContentVmError> {
    match operand_number(phase, source) {
        Err(error) => Err(error),
        Ok(phase) => if phase.scaled < 0 {
            Err(operator_failure(ContentVmErrorCode::InvalidGraphicsParameter, source))
        } else {
            match dash_values(values, values.len() as int, source) {
                Err(error) => Err(error),
                Ok(array) => Ok((array, scalar_value(phase))),
            }
        },
    }
}

/// Why the numbers of a dash are refused where no graphics profile takes it.
pub open spec fn legacy_dash(
    values: Seq<LocatedView>,
    phase: LocatedView,
    source: ContentOperatorSource,
) -> RunStop {
    match operand_number(phase, source) {
        Err(error) => vm_stop(error),
        Ok(_) => match operand_numbers(values, values.len() as int, source) {
            Err(error) => vm_stop(error),
            Ok(_) => unsupported(ContentUnsupportedKind::GraphicsV2Operator, source),
        },
    }
}

/// The machine with a new current dash.
pub open spec fn dash_set(view: GraphicsView, array: Seq<SceneScalar>, phase: SceneScalar) -> GraphicsView {
    GraphicsView {
        current: GraphicsState { dash: view.dashes.len() as usize, ..view.current },
        dashes: view.dashes.push(DashView { array, phase, published: false }),
        ..view
    }
}

/// Sets the line dash.
#[verifier::opaque]
pub open spec fn dash_outcome(
    view: PlannerView,
    config: PlanConfig,
    values: Seq<LocatedView>,
    phase: LocatedView,
    answer: AnswerView,
    source: ContentOperatorSource,
) -> PlanOutcome {
    match config.graphics {
        None => Err(legacy_dash(values, phase, source)),
        Some(limits) => match graphics_preflight(
            limits,
            ContentGraphicsLimitKind::DashEntries,
            0,
            values.len() as u64,
            Some(source),
        ) {
            Err(error) => Err(vm_stop(error)),
            Ok(_) => match dash_of(values, phase, source) {
                Err(error) => Err(vm_stop(error)),
                Ok((array, phase)) => match answer {
                    AnswerView::Dash(true) => Ok(
                        PlannerView { graphics: dash_set(view.graphics, array, phase), ..view },
                    ),
                    AnswerView::Dash(false) => Err(
                        refused(ContentVmErrorCode::InvalidGraphicsParameter, source),
                    ),
                    _ => Err(refused(ContentVmErrorCode::InternalState, source)),
                },
            },
        },
    }
}

/// How many graphics states are saved.
pub open spec fn saved_depth(view: PlannerView, config: PlanConfig) -> int {
    if config.graphics is Some {
        view.graphics.saved.len() as int
    } else {
        view.stack.len() as int
    }
}

/// The graphics state that a form itself takes.
pub open spec fn form_depth(config: PlanConfig) -> int {
    if config.in_form {
        1
    } else {
        0
    }
}

/// Saves the graphics state, and with it whether a font is selected.
pub open spec fn saved_outcome(
    view: PlannerView,
    config: PlanConfig,
    source: ContentOperatorSource,
) -> PlanOutcome {
    let depth = saved_depth(view, config) + form_depth(config);
    match vm_preflight(
        config.vm,
        ContentVmLimitKind::GraphicsStateDepth,
        depth as u64,
        1,
        Some(source),
    ) {
        Err(error) => Err(vm_stop(error)),
        Ok(_) => {
            let next = PlannerView {
                saved_text: view.saved_text.push(view.font_selected),
                charges: Accounting {
                    max_graphics_depth: deeper(view.charges.max_graphics_depth, depth + 1),
                    ..view.charges
                },
                ..view
            };
            Ok(
                if config.graphics is Some {
                    with_action(
                        PlannerView { graphics: state_saved(view.graphics), ..next },
                        ExecutionAction::Save {
                            bounds: SceneBounds::Empty,
                            source: command_source_of(source),
                        },
                    )
                } else {
                    PlannerView { stack: view.stack.push(view.ctm), ..next }
                },
            )
        },
    }
}

/// Restores the graphics state.
pub open spec fn restored_outcome(
    view: PlannerView,
    config: PlanConfig,
    source: ContentOperatorSource,
) -> PlanOutcome {
    if saved_depth(view, config) == 0 {
        Err(refused(ContentVmErrorCode::InvalidGraphicsState, source))
    } else {
        let next = PlannerView {
            font_selected: view.saved_text.last(),
            saved_text: view.saved_text.drop_last(),
            ..view
        };
        Ok(
            if config.graphics is Some {
                with_action(
                    PlannerView {
                        graphics: state_restored(view.graphics),
                        ctm: view.graphics.saved.last().ctm,
                        ..next
                    },
                    ExecutionAction::Restore {
                        bounds: SceneBounds::Empty,
                        source: command_source_of(source),
                    },
                )
            } else {
                PlannerView { ctm: view.stack.last(), stack: view.stack.drop_last(), ..next }
            },
        )
    }
}

/// A plan with another current transform.
pub open spec fn with_ctm(view: PlannerView, config: PlanConfig, ctm: Matrix) -> PlannerView {
    PlannerView {
        ctm,
        graphics: if config.graphics is Some {
            GraphicsView {
                current: GraphicsState { ctm, ..view.graphics.current },
                ..view.graphics
            }
        } else {
            view.graphics
        },
        ..view
    }
}

/// Enters a marked-content sequence. Only the profile without graphics plans an action for it.
pub open spec fn marked(
    view: PlannerView,
    config: PlanConfig,
    tag: Seq<u8>,
    resource: Option<ResourceProof>,
    source: ContentOperatorSource,
) -> PlannerView {
    let deeper_view = PlannerView {
        marked_depth: (view.marked_depth + 1) as u32,
        property_uses: if resource is Some {
            view.property_uses.push(ResolvedPropertyUse { source, resource: resource->0 })
        } else {
            view.property_uses
        },
        charges: Accounting {
            max_marked_depth: deeper(view.charges.max_marked_depth, view.marked_depth + 1),
            property_uses: if resource is Some {
                (view.charges.property_uses + 1) as u64
            } else {
                view.charges.property_uses
            },
            ..view.charges
        },
        ..view
    };
    if config.graphics is Some {
        deeper_view
    } else {
        with_action(
            PlannerView { names: view.names.push(tag), ..deeper_view },
            ExecutionAction::BeginMarkedContent {
                tag: view.names.len() as usize,
                properties: if resource is Some {
                    Some(resource->0.target)
                } else {
                    None
                },
                source: command_source_of(source),
            },
        )
    }
}

/// Begins a marked-content sequence with a named property: one more level and one more property
/// are admitted, and the property is awaited.
pub open spec fn property_outcome(
    view: PlannerView,
    config: PlanConfig,
    source: ContentOperatorSource,
) -> PlanOutcome {
    match vm_preflight(
        config.vm,
        ContentVmLimitKind::MarkedContentDepth,
        view.marked_depth as u64,
        1,
        Some(source),
    ) {
        Err(error) => Err(vm_stop(error)),
        Ok(_) => match vm_preflight(
            config.vm,
            ContentVmLimitKind::PropertyUses,
            view.charges.property_uses,
            1,
            Some(source),
        ) {
            Err(error) => Err(vm_stop(error)),
            Ok(_) => Ok(PlannerView { awaiting: true, ..view }),
        },
    }
}

/// The tag and the name of the property that an operator awaits, where it begins a marked-content
/// sequence with a named one.
pub open spec fn awaited_property(operator: OperatorView) -> Option<(Seq<u8>, Seq<u8>)> {
    let kind = OperatorKind::BeginMarkedContentProperties;
    if operator.known == Some(kind) && structure_fault(kind, operator.operands, operator.source)
        is None {
        match converted(kind, operator.operands, operator.source) {
            Ok(operands) => match operands->NameAndProperty_1 {
                Some(name) => Some((operands->NameAndProperty_0, name)),
                None => None,
            },
            Err(_) => None,
        }
    } else {
        None
    }
}

/// Enters a marked-content sequence with the property that it awaited.
pub open spec fn property_resolved(
    view: PlannerView,
    config: PlanConfig,
    tag: Seq<u8>,
    answer: AnswerView,
    source: ContentOperatorSource,
) -> PlanOutcome {
    match answer {
        AnswerView::Property(Ok(resource)) => Ok(
            marked(PlannerView { awaiting: false, ..view }, config, tag, Some(resource), source),
        ),
        AnswerView::Property(Err(error)) => Err(
            if error.unsupported {
                unsupported(ContentUnsupportedKind::PropertyResource(error.code), source)
            } else {
                RunStop::Failed(ContentVmFailure::Document(error))
            },
        ),
        _ => Err(refused(ContentVmErrorCode::InternalState, source)),
    }
}

/// What planning makes of an operator that awaited a property.
pub open spec fn awaited_outcome(
    view: PlannerView,
    config: PlanConfig,
    operator: OperatorView,
    answer: AnswerView,
) -> PlanOutcome {
    match awaited_property(operator) {
        Some((tag, _)) => property_resolved(view, config, tag, answer, operator.source),
        None => Err(refused(ContentVmErrorCode::InternalState, operator.source)),
    }
}

/// Paints an external object.
pub open spec fn image_outcome(
    view: PlannerView,
    config: PlanConfig,
    name: Seq<u8>,
    source: ContentOperatorSource,
) -> PlanOutcome {
    if config.graphics is None {
        Err(unsupported(ContentUnsupportedKind::GraphicsV2Operator, source))
    } else if config.images is None {
        Err(unsupported(ContentUnsupportedKind::ImageProfileRequired, source))
    } else {
        match image_preflight(
            config.images->0,
            ContentImageLimitKind::ImageUses,
            view.charges.image_uses,
            1,
            Some(source),
        ) {
            Err(error) => Err(vm_stop(error)),
            Ok(_) => {
                let paint = view.graphics.current.nonstroking;
                let transform = view.graphics.current.ctm;
                Ok(
                    with_action(
                        PlannerView {
                            names: view.names.push(name),
                            planned_images: view.planned_images.push(
                                PlannedImageInvocation {
                                    source,
                                    name: view.names.len() as usize,
                                    transform,
                                },
                            ),
                            charges: Accounting {
                                image_uses: (view.charges.image_uses + 1) as u64,
                                ..view.charges
                            },
                            ..view
                        },
                        ExecutionAction::DrawImage {
                            source,
                            command_source: command_source_of(source),
                            transform,
                            alpha: paint.alpha,
                            blend_mode: paint.blend_mode,
                            bounds: SceneBounds::Page,
                        },
                    ),
                )
            },
        }
    }
}

/// Applies a named external graphics state.
pub open spec fn ext_gstate_outcome(
    view: PlannerView,
    config: PlanConfig,
    name: Seq<u8>,
    source: ContentOperatorSource,
) -> PlanOutcome {
    if config.graphics is None {
        Err(unsupported(ContentUnsupportedKind::GraphicsV2Operator, source))
    } else if config.ext_gstates is None {
        Err(unsupported(ContentUnsupportedKind::ExtGStateProfileRequired, source))
    } else {
        let resources = config.ext_gstates->0;
        let i = resource_index(resources, name, 0);
        if i >= resources.len() {
            Err(unsupported(ContentUnsupportedKind::ExtGStateResource, source))
        } else {
            Ok(
                PlannerView {
                    graphics: GraphicsView {
                        current: with_ext_gstate(
                            view.graphics.current,
                            resources[i].spec_stroking_alpha(),
                            resources[i].spec_nonstroking_alpha(),
                            resources[i].spec_blend_mode(),
                        ),
                        ..view.graphics
                    },
                    ..view
                },
            )
        }
    }
}

/// What a path, painting, line or color operator does.
pub open spec fn painting_outcome(
    view: PlannerView,
    config: PlanConfig,
    kind: OperatorKind,
    operands: OperandsView,
    answer: AnswerView,
    source: ContentOperatorSource,
) -> PlanOutcome {
    let mapped = match answer {
        AnswerView::Points(points) => points,
        _ => Seq::empty(),
    };
    match config.graphics {
        None => Err(unsupported(ContentUnsupportedKind::GraphicsV2Operator, source)),
        Some(limits) => if points_of(kind, operands->Numbers_0) is Err {
            Err(
                RunStop::Failed(
                    ContentVmFailure::Scene(points_of(kind, operands->Numbers_0)->Err_0),
                ),
            )
        } else if mapped.len() != point_count(kind) {
            Err(refused(ContentVmErrorCode::InternalState, source))
        } else {
            match graphics_outcome(view.graphics, kind, operands, mapped, limits, source) {
                Err(GraphicsFault::Vm(error)) => Err(vm_stop(error)),
                Err(GraphicsFault::Scene(error)) => Err(
                    RunStop::Failed(ContentVmFailure::Scene(error)),
                ),
                Ok((graphics, actions)) => Ok(
                    PlannerView { graphics, actions: view.actions + actions, ..view },
                ),
            }
        },
    }
}

/// What an operator outside text does.
#[verifier::opaque]
pub open spec fn general_outcome(
    view: PlannerView,
    config: PlanConfig,
    kind: OperatorKind,
    operands: OperandsView,
    answer: AnswerView,
    source: ContentOperatorSource,
) -> PlanOutcome {
    match kind {
        OperatorKind::SetGraphicsState => ext_gstate_outcome(
            view,
            config,
            operands->Name_0,
            source,
        ),
        OperatorKind::SaveGraphicsState => saved_outcome(view, config, source),
        OperatorKind::RestoreGraphicsState => restored_outcome(view, config, source),
        OperatorKind::ConcatMatrix => match answer {
            AnswerView::Product(Ok(product)) => Ok(with_ctm(view, config, product)),
            AnswerView::Product(Err(error)) => Err(
                RunStop::Failed(ContentVmFailure::Scene(error)),
            ),
            _ => Err(refused(ContentVmErrorCode::InternalState, source)),
        },
        OperatorKind::BeginCompatibility => match vm_preflight(
            config.vm,
            ContentVmLimitKind::CompatibilityDepth,
            view.compatibility_depth as u64,
            1,
            Some(source),
        ) {
            Err(error) => Err(vm_stop(error)),
            Ok(_) => Ok(
                PlannerView {
                    compatibility_depth: (view.compatibility_depth + 1) as u32,
                    charges: Accounting {
                        max_compatibility_depth: deeper(
                            view.charges.max_compatibility_depth,
                            view.compatibility_depth + 1,
                        ),
                        ..view.charges
                    },
                    ..view
                },
            ),
        },
        OperatorKind::EndCompatibility => if view.compatibility_depth == 0 {
            Err(refused(ContentVmErrorCode::InvalidCompatibilityState, source))
        } else {
            Ok(
                PlannerView { compatibility_depth: (view.compatibility_depth - 1) as u32, ..view },
            )
        },
        OperatorKind::MarkedContentPoint => Err(
            unsupported(ContentUnsupportedKind::MarkedContentPoint, source),
        ),
        OperatorKind::MarkedContentPointProperties => Err(
            unsupported(ContentUnsupportedKind::MarkedContentPointProperties, source),
        ),
        OperatorKind::BeginMarkedContent => match vm_preflight(
            config.vm,
            ContentVmLimitKind::MarkedContentDepth,
            view.marked_depth as u64,
            1,
            Some(source),
        ) {
            Err(error) => Err(vm_stop(error)),
            Ok(_) => Ok(marked(view, config, operands->Name_0, None, source)),
        },
        OperatorKind::BeginMarkedContentProperties => match operands->NameAndProperty_1 {
            None => Err(
                unsupported(ContentUnsupportedKind::DirectContentPropertyDictionary, source),
            ),
            Some(_) => property_outcome(view, config, source),
        },
        OperatorKind::EndMarkedContent => if view.marked_depth == 0 {
            Err(refused(ContentVmErrorCode::InvalidMarkedContentState, source))
        } else {
            let next = PlannerView { marked_depth: (view.marked_depth - 1) as u32, ..view };
            Ok(
                if config.graphics is Some {
                    next
                } else {
                    with_action(
                        next,
                        ExecutionAction::EndMarkedContent { source: command_source_of(source) },
                    )
                },
            )
        },
        OperatorKind::PaintXObject => image_outcome(view, config, operands->Name_0, source),
        _ => painting_outcome(view, config, kind, operands, answer, source),
    }
}

/// What planning makes of a known operator.
#[verifier::opaque]
pub open spec fn known_outcome(
    view: PlannerView,
    config: PlanConfig,
    kind: OperatorKind,
    operands: Seq<LocatedView>,
    answer: AnswerView,
    source: ContentOperatorSource,
) -> PlanOutcome {
    let structure = structure_fault(kind, operands, source);
    let context = context_fault(kind, view.text_active, source);
    if structure is Some {
        Err(vm_stop(structure->0))
    } else if config.graphics is Some && context is Some {
        Err(vm_stop(context->0))
    } else if kind == OperatorKind::SetLineDash {
        match executed(view, config, source) {
            Err(stop) => Err(stop),
            Ok(next) => dash_outcome(
                next,
                config,
                operands[0].value->Array_0,
                operands[1],
                answer,
                source,
            ),
        }
    } else {
        match converted(kind, operands, source) {
            Err(error) => Err(vm_stop(error)),
            Ok(validated) => match executed(view, config, source) {
                Err(stop) => Err(stop),
                Ok(next) => if is_text(kind) {
                    text_outcome(next, config, kind, validated, source)
                } else {
                    general_outcome(next, config, kind, validated, answer, source)
                },
            },
        }
    }
}

/// What planning makes of an operator in one step. One that awaits a property takes a second step
/// for it. An unknown one passes inside a compatibility section only.
pub open spec fn planned(
    view: PlannerView,
    config: PlanConfig,
    operator: OperatorView,
    answer: AnswerView,
) -> PlanOutcome {
    if view.awaiting {
        awaited_outcome(view, config, operator, answer)
    } else {
        begun(view, config, operator, answer)
    }
}

/// What the first step makes of an operator.
pub open spec fn begun(
    view: PlannerView,
    config: PlanConfig,
    operator: OperatorView,
    answer: AnswerView,
) -> PlanOutcome {
    match inspected(view, config, operator.source) {
        Err(stop) => Err(stop),
        Ok(next) => match operator.known {
            None => match executed(next, config, operator.source) {
                Err(stop) => Err(stop),
                Ok(counted) => if counted.compatibility_depth != 0 {
                    Ok(counted)
                } else {
                    Err(unsupported(ContentUnsupportedKind::UnknownOperator, operator.source))
                },
            },
            Some(kind) => known_outcome(
                next,
                config,
                kind,
                operator.operands,
                answer,
                operator.source,
            ),
        },
    }
}

/// The work that a known operator costs, growth aside.
pub open spec fn known_cost(
    kind: OperatorKind,
    operands: Seq<LocatedView>,
    source: ContentOperatorSource,
) -> int {
    if kind == OperatorKind::SetLineDash {
        kind.spec_base_fuel() + operands[0].value->Array_0.len()
    } else {
        let validated = converted(kind, operands, source)->Ok_0;
        kind.spec_base_fuel() + operand_fuel(kind, validated) + (match validated {
            OperandsView::Array(values) => array_bytes(values, values.len() as int),
            _ => 0,
        })
    }
}

/// The work that an operator costs, growth aside.
pub open spec fn operator_cost(operator: OperatorView) -> int {
    match operator.known {
        None => 1,
        Some(kind) => known_cost(kind, operator.operands, operator.source),
    }
}

/// The work that one step of planning an operator costs, growth aside: it is charged with the first.
pub open spec fn step_cost(view: PlannerView, operator: OperatorView) -> int {
    if view.awaiting {
        0
    } else {
        operator_cost(operator)
    }
}

/// The place that planning goes on at after a step at `i`: the same one where the operator awaits a
/// property now.
pub open spec fn next_place(view: PlannerView, next: PlannerView, i: int) -> int {
    if next.awaiting && !view.awaiting {
        i
    } else {
        i + 1
    }
}

/// How many elements the lists of a plan hold that cost fuel to move.
pub open spec fn movable(view: PlannerView) -> int {
    (view.actions.len() + view.stack.len() + view.saved_text.len() + view.property_uses.len()
        + view.planned_images.len() + view.graphics.saved.len() + view.graphics.path.len()) as int
}

/// Whether a plan holds more than before, or has room for more, so that the allocator had to be asked.
pub open spec fn holds_more(before: PlannerView, after: PlannerView) -> bool {
    ||| after.actions.len() > before.actions.len()
    ||| after.names.len() > before.names.len()
    ||| after.items.len() > before.items.len()
    ||| after.property_uses.len() > before.property_uses.len()
    ||| after.planned_images.len() > before.planned_images.len()
    ||| after.stack.len() > before.stack.len()
    ||| after.saved_text.len() > before.saved_text.len()
    ||| after.graphics.saved.len() > before.graphics.saved.len()
    ||| after.graphics.path.len() > before.graphics.path.len()
    ||| after.graphics.dashes.len() > before.graphics.dashes.len()
    ||| after.awaiting && !before.awaiting
}

/// Whether a known operator is well formed, in its place and within the operator budget, so that it
/// charges its fuel.
pub open spec fn known_admitted(
    view: PlannerView,
    config: PlanConfig,
    kind: OperatorKind,
    operands: Seq<LocatedView>,
    source: ContentOperatorSource,
) -> bool {
    &&& structure_fault(kind, operands, source) is None
    &&& config.graphics is Some ==> context_fault(kind, view.text_active, source) is None
    &&& kind == OperatorKind::SetLineDash || converted(kind, operands, source) is Ok
    &&& executed(view, config, source) is Ok
}

/// Whether an operator charges its fuel.
pub open spec fn operator_admitted(
    view: PlannerView,
    config: PlanConfig,
    operator: OperatorView,
) -> bool {
    &&& inspected(view, config, operator.source) is Ok
    &&& executed(view, config, operator.source) is Ok
    &&& operator.known matches Some(kind) ==> known_admitted(
        view,
        config,
        kind,
        operator.operands,
        operator.source,
    )
}

/// Whether room for a dash is claimed, which happens before its numbers are judged.
pub open spec fn dash_claimed(config: PlanConfig, entries: int, source: ContentOperatorSource) -> bool {
    config.graphics matches Some(limits) && graphics_preflight(
        limits,
        ContentGraphicsLimitKind::DashEntries,
        0,
        entries as u64,
        Some(source),
    ) is Ok
}

/// Whether an operator claims what it will hold before its operands are judged to the end.
pub open spec fn claims_first(
    view: PlannerView,
    config: PlanConfig,
    kind: OperatorKind,
    operands: Seq<LocatedView>,
    source: ContentOperatorSource,
) -> bool {
    &&& known_admitted(view, config, kind, operands, source)
    &&& kind == OperatorKind::SetLineDash && dash_claimed(
        config,
        operands[0].value->Array_0.len() as int,
        source,
    )
}

/// Whether an operator changes the graphics state or the pending clip only.
pub open spec fn changes_state_only(kind: OperatorKind) -> bool {
    kind == OperatorKind::ClipNonzero || kind == OperatorKind::ClipEvenOdd || is_state_operator(kind)
}

/// Whether an operator ends by holding everything that is retained against the budget. One that
/// changes the state only does so where something was added since that was last done.
pub open spec fn weighs_all(kind: OperatorKind, weighed: bool) -> bool {
    ||| is_path_operator(kind) || kind == OperatorKind::ClosePath || paint_of(kind) is Some
    ||| changes_state_only(kind) && !weighed
}

/// Under what budgets a step of planning runs, and what it may cost.
pub struct PlanScope {
    pub source: ContentOperatorSource,
    pub vm: ContentVmLimitConfig,
    /// Fuel charged before.
    pub fuel: u64,
    /// The most fuel that the step charges.
    pub most: int,
    /// Whether the step charges fuel.
    pub admitted: bool,
    /// Whether memory is claimed before the operands are judged to the end.
    pub claims_first: bool,
    /// Whether everything that is retained is held against the budget at the end.
    pub weighs_all: bool,
}

/// The scope of planning one operator once `fuel` was charged; `weighed` tells whether everything
/// that is retained was held against the budget since something was last added.
pub open spec fn plan_scope(
    view: PlannerView,
    config: PlanConfig,
    operator: OperatorView,
    fuel: u64,
    weighed: bool,
) -> PlanScope {
    PlanScope {
        source: operator.source,
        vm: config.vm,
        fuel,
        most: step_cost(view, operator) + movable(view),
        admitted: view.awaiting || operator_admitted(view, config, operator),
        claims_first: !view.awaiting && inspected(view, config, operator.source) is Ok && operator.known is Some
            && claims_first(
            view,
            config,
            operator.known->0,
            operator.operands,
            operator.source,
        ),
        weighs_all: !view.awaiting && operator.known is Some && weighs_all(
            operator.known->0,
            weighed,
        ),
    }
}

/// Whether memory or fuel stops a step that the model ends in `expected`. Memory does so only
/// where the plan is to hold more; that everything held passes the budget is found out also where
/// the step itself adds nothing. Fuel does so only where what is left does not cover the most that the
/// step costs.
pub open spec fn starved(
    stop: RunStop,
    expected: PlanOutcome,
    before: PlannerView,
    scope: PlanScope,
) -> bool {
    ||| scope.admitted && is_fuel_stop(stop, scope.vm.max_fuel, scope.fuel, scope.most)
    ||| is_memory_stop(stop) && match expected {
        Ok(next) => holds_more(before, next),
        Err(_) => scope.claims_first,
    }
    ||| scope.weighs_all && expected is Ok && (stop matches RunStop::Failed(
        ContentVmFailure::Vm(error),
    ) && held_too_much(error, scope.vm, scope.source))
}

/// What starves a step starves it as well in a wider scope, seen from a plan that holds as much.
pub proof fn starved_widely(
    stop: RunStop,
    expected: PlanOutcome,
    before: PlannerView,
    later: PlannerView,
    narrow: PlanScope,
    wide: PlanScope,
)
    requires
        starved(stop, expected, later, narrow),
        later.actions.len() == before.actions.len(),
        later.names.len() == before.names.len(),
        later.items.len() == before.items.len(),
        later.property_uses.len() == before.property_uses.len(),
        later.planned_images.len() == before.planned_images.len(),
        later.stack.len() == before.stack.len(),
        later.saved_text.len() == before.saved_text.len(),
        later.graphics.saved.len() == before.graphics.saved.len(),
        later.graphics.path.len() == before.graphics.path.len(),
        later.graphics.dashes.len() == before.graphics.dashes.len(),
        later.awaiting == before.awaiting,
        narrow.source == wide.source,
        narrow.vm == wide.vm,
        wide.fuel <= narrow.fuel,
        narrow.fuel + narrow.most <= wide.fuel + wide.most,
        narrow.admitted ==> wide.admitted,
        narrow.claims_first ==> wide.claims_first,
        narrow.weighs_all ==> wide.weighs_all,
    ensures
        starved(stop, expected, before, wide),
{
}

/// What an operator needs from the layers below, where it is well formed. A property is looked up
/// once its operator is charged and has room for it.
pub open spec fn required(view: PlannerView, config: PlanConfig, operator: OperatorView) -> RequirementView {
    if view.awaiting {
        match awaited_property(operator) {
            Some((_, name)) => RequirementView::Property(name),
            None => RequirementView::Nothing,
        }
    } else {
        begin_required(view, config, operator)
    }
}

/// What the first step of an operator needs.
pub open spec fn begin_required(
    view: PlannerView,
    config: PlanConfig,
    operator: OperatorView,
) -> RequirementView {
    match operator.known {
        None => RequirementView::Nothing,
        Some(kind) => if structure_fault(kind, operator.operands, operator.source) is Some {
            RequirementView::Nothing
        } else if kind == OperatorKind::SetLineDash {
            match dash_of(
                operator.operands[0].value->Array_0,
                operator.operands[1],
                operator.source,
            ) {
                Ok((array, phase)) => if config.graphics is Some {
                    RequirementView::Dash(array, phase)
                } else {
                    RequirementView::Nothing
                },
                Err(_) => RequirementView::Nothing,
            }
        } else {
            match converted(kind, operator.operands, operator.source) {
                Err(_) => RequirementView::Nothing,
                Ok(operands) => if kind == OperatorKind::ConcatMatrix {
                    RequirementView::Product(view.ctm, matrix_value(operands->Numbers_0))
                } else if point_count(kind) > 0 {
                    match points_of(kind, operands->Numbers_0) {
                        Ok(points) => RequirementView::Points(view.graphics.current.ctm, points),
                        Err(_) => RequirementView::Nothing,
                    }
                } else {
                    RequirementView::Nothing
                },
            }
        },
    }
}

/// Why a plan cannot end where it does: graphics states, then text, compatibility sections and
/// marked content must be balanced.
pub open spec fn imbalance(view: PlannerView, config: PlanConfig) -> Option<ContentVmError> {
    if saved_depth(view, config) != 0 {
        Some(vm_failure_of(ContentVmErrorCode::InvalidGraphicsState, None))
    } else if view.text_active {
        Some(vm_failure_of(ContentVmErrorCode::InvalidTextObject, None))
    } else if view.compatibility_depth != 0 {
        Some(vm_failure_of(ContentVmErrorCode::InvalidCompatibilityState, None))
    } else if view.marked_depth != 0 {
        Some(vm_failure_of(ContentVmErrorCode::InvalidMarkedContentState, None))
    } else {
        None
    }
}

/// The lesser of two coordinates.
pub open spec fn lesser(left: SceneScalar, right: SceneScalar) -> SceneScalar {
    if right.scaled < left.scaled {
        right
    } else {
        left
    }
}

/// The greater of two coordinates.
pub open spec fn greater(left: SceneScalar, right: SceneScalar) -> SceneScalar {
    if right.scaled > left.scaled {
        right
    } else {
        left
    }
}

/// The least box that holds four corners.
pub open spec fn corner_bounds(corners: Seq<ScenePoint>) -> SceneBounds {
    SceneBounds::Finite {
        minimum: ScenePoint {
            x: lesser(lesser(lesser(corners[0].x, corners[1].x), corners[2].x), corners[3].x),
            y: lesser(lesser(lesser(corners[0].y, corners[1].y), corners[2].y), corners[3].y),
        },
        maximum: ScenePoint {
            x: greater(greater(greater(corners[0].x, corners[1].x), corners[2].x), corners[3].x),
            y: greater(greater(greater(corners[0].y, corners[1].y), corners[2].y), corners[3].y),
        },
    }
}

/// The closed path through four corners.
pub open spec fn corner_path(corners: Seq<ScenePoint>) -> Seq<PathSegment> {
    seq![
        PathSegment::MoveTo(corners[0]),
        PathSegment::LineTo(corners[1]),
        PathSegment::LineTo(corners[2]),
        PathSegment::LineTo(corners[3]),
        PathSegment::ClosePath,
    ]
}

/// The actions that open a form: a saved state, the clip to its box, and its group.
pub open spec fn prologue_actions(
    path: int,
    bounds: SceneBounds,
    group: bool,
    source: ContentOperatorSource,
) -> Seq<ExecutionAction> {
    let command = command_source_of(source);
    let opened = seq![
        ExecutionAction::Save { bounds, source: command },
        ExecutionAction::Clip {
            path: path as usize,
            rule: FillRule::Nonzero,
            transform: identity_matrix(),
            bounds,
            source: command,
        },
    ];
    if group {
        opened.push(
            ExecutionAction::BeginGroup {
                alpha: SceneUnit { value: 65535 },
                blend_mode: BlendMode::Normal,
                bounds: SceneBounds::Page,
                source: command,
            },
        )
    } else {
        opened
    }
}

/// The actions that close a form.
pub open spec fn epilogue_actions(
    bounds: SceneBounds,
    group: bool,
    source: ContentOperatorSource,
) -> Seq<ExecutionAction> {
    let command = command_source_of(source);
    let ended = if group {
        seq![ExecutionAction::EndGroup { bounds: SceneBounds::Page, source: command }]
    } else {
        Seq::empty()
    };
    ended.push(ExecutionAction::Restore { bounds, source: command })
}

/// Opens a form. `mapped` are the corners of its box, mapped through its matrix.
pub open spec fn form_opened(
    view: PlannerView,
    config: PlanConfig,
    mapped: Seq<Result<ScenePoint, SceneError>>,
    group: bool,
    source: ContentOperatorSource,
) -> PlanOutcome {
    match vm_preflight(config.vm, ContentVmLimitKind::GraphicsStateDepth, 0, 1, Some(source)) {
        Err(error) => Err(vm_stop(error)),
        Ok(_) => match all_mapped(mapped, 4) {
            Err(error) => Err(RunStop::Failed(ContentVmFailure::Scene(error))),
            Ok(corners) => Ok(
                PlannerView {
                    graphics: GraphicsView {
                        paths: view.graphics.paths.push(corner_path(corners)),
                        ..view.graphics
                    },
                    actions: view.actions + prologue_actions(
                        view.graphics.paths.len() as int,
                        corner_bounds(corners),
                        group,
                        source,
                    ),
                    charges: Accounting {
                        max_graphics_depth: deeper(view.charges.max_graphics_depth, 1),
                        ..view.charges
                    },
                    ..view
                },
            ),
        },
    }
}

/// How many graphics states the first `count` actions leave open.
pub open spec fn open_states(actions: Seq<ExecutionAction>, count: int) -> int
    decreases count,
{
    if count <= 0 {
        0
    } else {
        open_states(actions, count - 1) + (match actions[count - 1] {
            ExecutionAction::Save { .. } => 1int,
            ExecutionAction::Restore { .. } => -1int,
            _ => 0int,
        })
    }
}

} // verus!
