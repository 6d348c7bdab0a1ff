//! Operand validation and conversion.

use vstd::prelude::*;

use crate::content::model::{
    ContentName, ContentOperand, ContentOperatorSource, ContentString, LocatedOperand,
};
use crate::content::number::{number_of, ContentNumber};
use crate::content::operator::{OperatorContext, OperatorKind, OperatorOperandShape};
use crate::content::view::{array_view, located_view, operand_views, LocatedView, OperandView};
use crate::content::vm_error::{
    operator_failure, vm_error, vm_failure_of, ContentVmError, ContentVmErrorCode,
};

verus! {

/// Property operand of a marked-content operator.
#[derive(Clone, Copy)]
pub enum PropertyOperand<'a> {
    /// A name to look up.
    Name(&'a ContentName),
    /// A direct dictionary.
    Dictionary,
}

/// Operands of one operator, converted.
#[derive(Clone, Copy)]
pub enum ValidatedOperands<'a> {
    NoOperands,
    OneNumber(ContentNumber),
    TwoNumbers([ContentNumber; 2]),
    ThreeNumbers([ContentNumber; 3]),
    FourNumbers([ContentNumber; 4]),
    SixNumbers([ContentNumber; 6]),
    OneInteger(i64),
    Name(&'a ContentName),
    NameAndNumber(&'a ContentName, ContentNumber),
    String(&'a ContentString),
    Array(&'a Vec<LocatedOperand>),
    TwoNumbersAndString([ContentNumber; 2], &'a ContentString),
    NameAndProperty { tag: &'a ContentName, property: PropertyOperand<'a> },
}

/// Converted operands, as values.
pub enum OperandsView {
    /// Numbers only, as many as the operator takes.
    Numbers(Seq<ContentNumber>),
    Integer(i64),
    Name(Seq<u8>),
    NameAndNumber(Seq<u8>, ContentNumber),
    String(Seq<u8>),
    Array(Seq<LocatedView>),
    TwoNumbersAndString(Seq<ContentNumber>, Seq<u8>),
    /// A tag with a property name, or with a direct dictionary.
    NameAndProperty(Seq<u8>, Option<Seq<u8>>),
}

impl<'a> View for ValidatedOperands<'a> {
    type V = OperandsView;

    open spec fn view(&self) -> OperandsView {
        match self {
            ValidatedOperands::NoOperands => OperandsView::Numbers(Seq::empty()),
            ValidatedOperands::OneNumber(number) => OperandsView::Numbers(seq![*number]),
            ValidatedOperands::TwoNumbers(numbers) => OperandsView::Numbers(numbers@),
            ValidatedOperands::ThreeNumbers(numbers) => OperandsView::Numbers(numbers@),
            ValidatedOperands::FourNumbers(numbers) => OperandsView::Numbers(numbers@),
            ValidatedOperands::SixNumbers(numbers) => OperandsView::Numbers(numbers@),
            ValidatedOperands::OneInteger(value) => OperandsView::Integer(*value),
            ValidatedOperands::Name(name) => OperandsView::Name(name@),
            ValidatedOperands::NameAndNumber(name, number) => OperandsView::NameAndNumber(
                name@,
                *number,
            ),
            ValidatedOperands::String(string) => OperandsView::String(string.bytes@),
            ValidatedOperands::Array(values) => OperandsView::Array(operand_views(values@)),
            ValidatedOperands::TwoNumbersAndString(numbers, string) =>
                OperandsView::TwoNumbersAndString(numbers@, string.bytes@),
            ValidatedOperands::NameAndProperty { tag, property } => OperandsView::NameAndProperty(
                tag@,
                match property {
                    PropertyOperand::Name(name) => Some(name@),
                    PropertyOperand::Dictionary => None,
                },
            ),
        }
    }
}

/// Whether an operand is a number.
pub open spec fn is_number_view(operand: LocatedView) -> bool {
    operand.value is Integer || operand.value is Real
}

/// Whether operands have the types of a shape.
pub open spec fn has_shape(shape: OperatorOperandShape, operands: Seq<LocatedView>) -> bool {
    match shape {
        OperatorOperandShape::NoOperands => true,
        OperatorOperandShape::OneNumber
        | OperatorOperandShape::TwoNumbers
        | OperatorOperandShape::ThreeNumbers
        | OperatorOperandShape::FourNumbers
        | OperatorOperandShape::SixNumbers => forall|i: int|
            0 <= i < operands.len() ==> is_number_view(#[trigger] operands[i]),
        OperatorOperandShape::OneInteger => operands[0].value is Integer,
        OperatorOperandShape::NumberArrayAndNumber => operands[0].value is Array && is_number_view(
            operands[1],
        ),
        OperatorOperandShape::Name => operands[0].value is Name,
        OperatorOperandShape::NameAndNumber => operands[0].value is Name && is_number_view(
            operands[1],
        ),
        OperatorOperandShape::String => operands[0].value is String,
        OperatorOperandShape::Array => operands[0].value is Array,
        OperatorOperandShape::TwoNumbersAndString => is_number_view(operands[0]) && is_number_view(
            operands[1],
        ) && operands[2].value is String,
        OperatorOperandShape::NameAndNameOrDictionary => operands[0].value is Name && (
        operands[1].value is Name || operands[1].value is Dictionary),
    }
}

/// Why the operands of an operator are refused: their count first, then their types.
pub open spec fn structure_fault(
    kind: OperatorKind,
    operands: Seq<LocatedView>,
    source: ContentOperatorSource,
) -> Option<ContentVmError> {
    if operands.len() != kind.spec_shape().count() {
        Some(operator_failure(ContentVmErrorCode::InvalidOperandCount, source))
    } else if !has_shape(kind.spec_shape(), operands) {
        Some(operator_failure(ContentVmErrorCode::InvalidOperandType, source))
    } else {
        None
    }
}

/// Why an operator may not stand inside, or outside, a text object.
pub open spec fn context_fault(
    kind: OperatorKind,
    text_active: bool,
    source: ContentOperatorSource,
) -> Option<ContentVmError> {
    let context = kind.spec_context();
    let outside_only = context == OperatorContext::PathConstruction || context
        == OperatorContext::PathPainting || context == OperatorContext::ClippingPath || context
        == OperatorContext::XObject;
    if (!text_active && context == OperatorContext::TextObject) || (text_active && outside_only) {
        Some(operator_failure(ContentVmErrorCode::InvalidOperatorContext, source))
    } else {
        None
    }
}

/// The exact number that an operand denotes.
pub open spec fn operand_number(operand: LocatedView, source: ContentOperatorSource) -> Result<
    ContentNumber,
    ContentVmError,
> {
    let number = match operand.value {
        OperandView::Integer(value) => if i64::MIN <= value * 1_000_000_000 <= i64::MAX {
            Ok(ContentNumber { scaled: (value * 1_000_000_000) as i64 })
        } else {
            Err(vm_failure_of(ContentVmErrorCode::NumericOverflow, None))
        },
        OperandView::Real(raw) => number_of(raw),
        _ => Err(vm_failure_of(ContentVmErrorCode::InvalidOperandType, None)),
    };
    match number {
        Ok(value) => Ok(value),
        Err(error) => Err(ContentVmError { source: Some(source), ..error }),
    }
}

/// The exact numbers of the first `count` operands, or why the first that has none is refused.
pub open spec fn operand_numbers(
    operands: Seq<LocatedView>,
    count: int,
    source: ContentOperatorSource,
) -> Result<Seq<ContentNumber>, ContentVmError>
    decreases count,
{
    if count <= 0 {
        Ok(Seq::empty())
    } else {
        match operand_numbers(operands, count - 1, source) {
            Err(error) => Err(error),
            Ok(front) => match operand_number(operands[count - 1], source) {
                Err(error) => Err(error),
                Ok(number) => Ok(front.push(number)),
            },
        }
    }
}

/// What well-structured operands convert to.
pub open spec fn converted(
    kind: OperatorKind,
    operands: Seq<LocatedView>,
    source: ContentOperatorSource,
) -> Result<OperandsView, ContentVmError> {
    match kind.spec_shape() {
        OperatorOperandShape::NoOperands
        | OperatorOperandShape::OneNumber
        | OperatorOperandShape::TwoNumbers
        | OperatorOperandShape::ThreeNumbers
        | OperatorOperandShape::FourNumbers
        | OperatorOperandShape::SixNumbers => match operand_numbers(
            operands,
            kind.spec_shape().count() as int,
            source,
        ) {
            Err(error) => Err(error),
            Ok(numbers) => Ok(OperandsView::Numbers(numbers)),
        },
        OperatorOperandShape::OneInteger => Ok(
            OperandsView::Integer(operands[0].value->Integer_0),
        ),
        OperatorOperandShape::Name => Ok(OperandsView::Name(operands[0].value->Name_0)),
        OperatorOperandShape::NameAndNumber => match operand_number(operands[1], source) {
            Err(error) => Err(error),
            Ok(number) => Ok(OperandsView::NameAndNumber(operands[0].value->Name_0, number)),
        },
        OperatorOperandShape::String => Ok(OperandsView::String(operands[0].value->String_bytes)),
        OperatorOperandShape::Array => Ok(OperandsView::Array(operands[0].value->Array_0)),
        OperatorOperandShape::TwoNumbersAndString => match operand_numbers(operands, 2, source) {
            Err(error) => Err(error),
            Ok(numbers) => Ok(
                OperandsView::TwoNumbersAndString(numbers, operands[2].value->String_bytes),
            ),
        },
        OperatorOperandShape::NameAndNameOrDictionary => Ok(
            OperandsView::NameAndProperty(
                operands[0].value->Name_0,
                match operands[1].value {
                    OperandView::Name(name) => Some(name),
                    _ => None,
                },
            ),
        ),
        OperatorOperandShape::NumberArrayAndNumber => Err(
            operator_failure(ContentVmErrorCode::InternalState, source),
        ),
    }
}

/// Work that an operator costs beyond its base fuel.
pub open spec fn operand_fuel(kind: OperatorKind, operands: OperandsView) -> int {
    match kind {
        OperatorKind::LineTo
        | OperatorKind::CubicCurveTo
        | OperatorKind::CubicCurveToReplicateInitial
        | OperatorKind::CubicCurveToReplicateFinal => 2,
        OperatorKind::MoveTo | OperatorKind::ClosePath => 1,
        OperatorKind::Rectangle => 5,
        _ => match operands {
            OperandsView::NameAndNumber(name, _) => if kind == OperatorKind::SetTextFont {
                name.len() as int
            } else {
                0
            },
            OperandsView::String(bytes) => bytes.len() as int,
            OperandsView::Array(values) => values.len() as int,
            OperandsView::TwoNumbersAndString(_, bytes) => bytes.len() as int,
            _ => 0,
        },
    }
}

impl<'a> ValidatedOperands<'a> {
    /// Returns the work that an operator costs beyond its base fuel.
    pub fn dynamic_fuel(&self, kind: OperatorKind) -> (fuel: u64)
        ensures
            fuel == operand_fuel(kind, self@),
    {
        match kind {
            OperatorKind::LineTo
            | OperatorKind::CubicCurveTo
            | OperatorKind::CubicCurveToReplicateInitial
            | OperatorKind::CubicCurveToReplicateFinal => 2,
            OperatorKind::MoveTo | OperatorKind::ClosePath => 1,
            OperatorKind::Rectangle => 5,
            _ => match self {
                ValidatedOperands::NameAndNumber(name, _) => {
                    if kind == OperatorKind::SetTextFont {
                        name.bytes().len() as u64
                    } else {
                        0
                    }
                },
                ValidatedOperands::String(string) => string.bytes.len() as u64,
                ValidatedOperands::Array(values) => values.len() as u64,
                ValidatedOperands::TwoNumbersAndString(_, string) => string.bytes.len() as u64,
                _ => 0,
            },
        }
    }
}

fn is_number(operand: &LocatedOperand) -> (yes: bool)
    ensures
        yes == is_number_view(located_view(*operand)),
{
    match &operand.value {
        ContentOperand::Integer(_) => true,
        ContentOperand::Real(_) => true,
        _ => false,
    }
}

/// Checks the count and the types of an operator's operands.
pub fn validate_operand_structure(
    kind: OperatorKind,
    operands: &[LocatedOperand],
    source: ContentOperatorSource,
) -> (result: Result<(), ContentVmError>)
    ensures
        match structure_fault(kind, operand_views(operands@), source) {
            Some(error) => result == Err::<(), ContentVmError>(error),
            None => result is Ok,
        },
{
    let spec = kind.spec();
    let shape = spec.operand_shape();
    let ghost views = operand_views(operands@);
    if operands.len() != spec.min_operands() as usize {
        return Err(vm_error(ContentVmErrorCode::InvalidOperandCount, source));
    }
    assert forall|i: int| 0 <= i < views.len() implies #[trigger] views[i] == located_view(
        operands@[i],
    ) by {}
    let valid = match shape {
        OperatorOperandShape::NoOperands => true,
        OperatorOperandShape::OneNumber
        | OperatorOperandShape::TwoNumbers
        | OperatorOperandShape::ThreeNumbers
        | OperatorOperandShape::FourNumbers
        | OperatorOperandShape::SixNumbers => {
            let mut all = true;
            let mut i: usize = 0;
            while i < operands.len()
                invariant
                    i <= operands@.len(),
                    views == operand_views(operands@),
                    all == (forall|k: int| 0 <= k < i ==> is_number_view(#[trigger] views[k])),
                decreases operands@.len() - i,
            {
                assert(views[i as int] == located_view(operands@[i as int]));
                if !is_number(&operands[i]) {
                    assert(!is_number_view(views[i as int]));
                    all = false;
                }
                i = i + 1;
            }
            all
        },
        OperatorOperandShape::OneInteger => matches!(operands[0].value, ContentOperand::Integer(_)),
        OperatorOperandShape::NumberArrayAndNumber => {
            matches!(operands[0].value, ContentOperand::Array(_)) && is_number(&operands[1])
        },
        OperatorOperandShape::Name => matches!(operands[0].value, ContentOperand::Name(_)),
        OperatorOperandShape::NameAndNumber => {
            matches!(operands[0].value, ContentOperand::Name(_)) && is_number(&operands[1])
        },
        OperatorOperandShape::String => matches!(operands[0].value, ContentOperand::String(_)),
        OperatorOperandShape::Array => matches!(operands[0].value, ContentOperand::Array(_)),
        OperatorOperandShape::TwoNumbersAndString => {
            is_number(&operands[0]) && is_number(&operands[1]) && matches!(
                operands[2].value,
                ContentOperand::String(_)
            )
        },
        OperatorOperandShape::NameAndNameOrDictionary => {
            matches!(operands[0].value, ContentOperand::Name(_)) && (matches!(
                operands[1].value,
                ContentOperand::Name(_)
            ) || matches!(operands[1].value, ContentOperand::Dictionary(_)))
        },
    };
    if valid {
        Ok(())
    } else {
        Err(vm_error(ContentVmErrorCode::InvalidOperandType, source))
    }
}

/// Checks that an operator stands where its context admits it.
pub fn validate_operator_context(
    kind: OperatorKind,
    text_active: bool,
    source: ContentOperatorSource,
) -> (result: Result<(), ContentVmError>)
    ensures
        match context_fault(kind, text_active, source) {
            Some(error) => result == Err::<(), ContentVmError>(error),
            None => result is Ok,
        },
{
    let context = kind.spec().context();
    if !text_active && context == OperatorContext::TextObject {
        return Err(vm_error(ContentVmErrorCode::InvalidOperatorContext, source));
    }
    if text_active && (context == OperatorContext::PathConstruction || context
        == OperatorContext::PathPainting || context == OperatorContext::ClippingPath || context
        == OperatorContext::XObject) {
        return Err(vm_error(ContentVmErrorCode::InvalidOperatorContext, source));
    }
    Ok(())
}

/// Converts one number operand.
pub fn parse_number(operand: &LocatedOperand, source: ContentOperatorSource) -> (number: Result<
    ContentNumber,
    ContentVmError,
>)
    ensures
        number == operand_number(located_view(*operand), source),
{
    let number = match &operand.value {
        ContentOperand::Integer(value) => ContentNumber::from_integer(*value),
        ContentOperand::Real(lexeme) => ContentNumber::parse(lexeme.raw()),
        _ => Err(vm_error(ContentVmErrorCode::InvalidOperandType, source)),
    };
    match number {
        Ok(value) => Ok(value),
        Err(error) => Err(error.with_source(source)),
    }
}

/// Converts the first `count` operands to numbers.
fn parse_numbers(operands: &[LocatedOperand], count: usize, source: ContentOperatorSource) -> (numbers:
    Result<Vec<ContentNumber>, ContentVmError>)
    requires
        count <= operands@.len(),
    ensures
        match operand_numbers(operand_views(operands@), count as int, source) {
            Ok(values) => numbers is Ok && numbers->Ok_0@ == values && values.len() == count,
            Err(error) => numbers is Err && numbers->Err_0 == error,
        },
{
    let ghost views = operand_views(operands@);
    let mut values: Vec<ContentNumber> = Vec::new();
    let mut i: usize = 0;
    while i < count
        invariant
            i <= count <= operands@.len(),
            views == operand_views(operands@),
            operand_numbers(views, i as int, source) == Ok::<Seq<ContentNumber>, ContentVmError>(
                values@,
            ),
            values@.len() == i,
        decreases count - i,
    {
        assert(views[i as int] == located_view(operands@[i as int]));
        match parse_number(&operands[i], source) {
            Ok(number) => {
                values.push(number);
            },
            Err(error) => {
                proof {
                    numbers_stop(views, i + 1, count as int, source);
                }
                return Err(error);
            },
        }
        i = i + 1;
    }
    Ok(values)
}

pub(crate) proof fn numbers_stop(
    operands: Seq<LocatedView>,
    low: int,
    high: int,
    source: ContentOperatorSource,
)
    requires
        0 <= low <= high,
        operand_numbers(operands, low, source) is Err,
    ensures
        operand_numbers(operands, high, source) == operand_numbers(operands, low, source),
    decreases high - low,
{
    if low < high {
        numbers_stop(operands, low, high - 1, source);
    }
}

/// Converts well-structured operands.
pub fn convert_operands<'a>(
    kind: OperatorKind,
    operands: &'a [LocatedOperand],
    source: ContentOperatorSource,
) -> (result: Result<ValidatedOperands<'a>, ContentVmError>)
    requires
        structure_fault(kind, operand_views(operands@), source) is None,
    ensures
        match converted(kind, operand_views(operands@), source) {
            Ok(view) => result is Ok && result->Ok_0@ == view,
            Err(error) => result is Err && result->Err_0 == error,
        },
        result matches Ok(value) ==> shaped(kind.spec_shape(), value),
{
    let spec = kind.spec();
    let shape = spec.operand_shape();
    let count: usize = shape.operand_count() as usize;
    let ghost views = operand_views(operands@);
    assert forall|i: int| 0 <= i < views.len() implies #[trigger] views[i] == located_view(
        operands@[i],
    ) by {}
    match shape {
        OperatorOperandShape::NoOperands => Ok(ValidatedOperands::NoOperands),
        OperatorOperandShape::OneNumber => match parse_numbers(operands, count, source) {
            Ok(n) => {
                assert(n@ =~= seq![n@[0]]);
                Ok(ValidatedOperands::OneNumber(n[0]))
            },
            Err(error) => Err(error),
        },
        OperatorOperandShape::TwoNumbers => match parse_numbers(operands, count, source) {
            Ok(n) => {
                let array = [n[0], n[1]];
                assert(array@ =~= n@);
                Ok(ValidatedOperands::TwoNumbers(array))
            },
            Err(error) => Err(error),
        },
        OperatorOperandShape::ThreeNumbers => match parse_numbers(operands, count, source) {
            Ok(n) => {
                let array = [n[0], n[1], n[2]];
                assert(array@ =~= n@);
                Ok(ValidatedOperands::ThreeNumbers(array))
            },
            Err(error) => Err(error),
        },
        OperatorOperandShape::FourNumbers => match parse_numbers(operands, count, source) {
            Ok(n) => {
                let array = [n[0], n[1], n[2], n[3]];
                assert(array@ =~= n@);
                Ok(ValidatedOperands::FourNumbers(array))
            },
            Err(error) => Err(error),
        },
        OperatorOperandShape::SixNumbers => match parse_numbers(operands, count, source) {
            Ok(n) => {
                let array = [n[0], n[1], n[2], n[3], n[4], n[5]];
                assert(array@ =~= n@);
                Ok(ValidatedOperands::SixNumbers(array))
            },
            Err(error) => Err(error),
        },
        OperatorOperandShape::OneInteger => match &operands[0].value {
            ContentOperand::Integer(value) => Ok(ValidatedOperands::OneInteger(*value)),
            _ => Err(vm_error(ContentVmErrorCode::InvalidOperandType, source)),
        },
        OperatorOperandShape::NumberArrayAndNumber => Err(
            vm_error(ContentVmErrorCode::InternalState, source),
        ),
        OperatorOperandShape::Name => match &operands[0].value {
            ContentOperand::Name(name) => Ok(ValidatedOperands::Name(name)),
            _ => Err(vm_error(ContentVmErrorCode::InvalidOperandType, source)),
        },
        OperatorOperandShape::NameAndNumber => match &operands[0].value {
            ContentOperand::Name(name) => match parse_number(&operands[1], source) {
                Ok(number) => Ok(ValidatedOperands::NameAndNumber(name, number)),
                Err(error) => Err(error),
            },
            _ => Err(vm_error(ContentVmErrorCode::InvalidOperandType, source)),
        },
        OperatorOperandShape::String => match &operands[0].value {
            ContentOperand::String(string) => Ok(ValidatedOperands::String(string)),
            _ => Err(vm_error(ContentVmErrorCode::InvalidOperandType, source)),
        },
        OperatorOperandShape::Array => match &operands[0].value {
            ContentOperand::Array(values) => {
                proof {
                    array_view(*values);
                }
                Ok(ValidatedOperands::Array(values))
            },
            _ => Err(vm_error(ContentVmErrorCode::InvalidOperandType, source)),
        },
        OperatorOperandShape::TwoNumbersAndString => match &operands[2].value {
            ContentOperand::String(string) => match parse_numbers(operands, 2, source) {
                Ok(n) => {
                    let array = [n[0], n[1]];
                    assert(array@ =~= n@);
                    Ok(ValidatedOperands::TwoNumbersAndString(array, string))
                },
                Err(error) => Err(error),
            },
            _ => Err(vm_error(ContentVmErrorCode::InvalidOperandType, source)),
        },
        OperatorOperandShape::NameAndNameOrDictionary => match &operands[0].value {
            ContentOperand::Name(tag) => match &operands[1].value {
                ContentOperand::Name(name) => Ok(
                    ValidatedOperands::NameAndProperty { tag, property: PropertyOperand::Name(name) },
                ),
                ContentOperand::Dictionary(_) => Ok(
                    ValidatedOperands::NameAndProperty {
                        tag,
                        property: PropertyOperand::Dictionary,
                    },
                ),
                _ => Err(vm_error(ContentVmErrorCode::InvalidOperandType, source)),
            },
            _ => Err(vm_error(ContentVmErrorCode::InvalidOperandType, source)),
        },
    }
}

/// Whether converted operands are of the variant that a shape stands for.
pub open spec fn shaped(shape: OperatorOperandShape, operands: ValidatedOperands<'_>) -> bool {
    match shape {
        OperatorOperandShape::NoOperands => operands is NoOperands,
        OperatorOperandShape::OneNumber => operands is OneNumber,
        OperatorOperandShape::TwoNumbers => operands is TwoNumbers,
        OperatorOperandShape::ThreeNumbers => operands is ThreeNumbers,
        OperatorOperandShape::FourNumbers => operands is FourNumbers,
        OperatorOperandShape::SixNumbers => operands is SixNumbers,
        OperatorOperandShape::OneInteger => operands is OneInteger,
        OperatorOperandShape::NumberArrayAndNumber => false,
        OperatorOperandShape::Name => operands is Name,
        OperatorOperandShape::NameAndNumber => operands is NameAndNumber,
        OperatorOperandShape::String => operands is String,
        OperatorOperandShape::Array => operands is Array,
        OperatorOperandShape::TwoNumbersAndString => operands is TwoNumbersAndString,
        OperatorOperandShape::NameAndNameOrDictionary => operands is NameAndProperty,
    }
}

} // verus!
