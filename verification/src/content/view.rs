//! Owned programs as mathematical values.

use vstd::prelude::*;

use crate::content::model::{
    ContentDictionaryEntry, ContentExtent, ContentOperand, ContentOperator, ContentOperatorSource,
    ContentStringKind, DecodedSpan, LocatedOperand, ScannedOperator,
};
use crate::content::operator::OperatorKind;

verus! {

/// A direct operand.
pub enum OperandView {
    Null,
    Boolean(bool),
    Integer(i64),
    Real(Seq<u8>),
    Name(Seq<u8>),
    String { bytes: Seq<u8>, kind: ContentStringKind },
    Array(Seq<LocatedView>),
    Dictionary(Seq<EntryView>),
}

/// An operand with its extent.
pub struct LocatedView {
    pub extent: ContentExtent,
    pub value: OperandView,
}

/// A dictionary entry.
pub struct EntryView {
    pub key_span: DecodedSpan,
    pub key: Seq<u8>,
    pub value: LocatedView,
}

/// A scanned operator: its token, the table operator that it is, its operands and its evidence.
pub struct OperatorView {
    pub token: Seq<u8>,
    pub known: Option<OperatorKind>,
    pub operands: Seq<LocatedView>,
    pub source: ContentOperatorSource,
}

/// The value of an operand.
pub open spec fn operand_view(operand: ContentOperand) -> OperandView
    decreases operand,
{
    match operand {
        ContentOperand::Null => OperandView::Null,
        ContentOperand::Boolean(value) => OperandView::Boolean(value),
        ContentOperand::Integer(value) => OperandView::Integer(value),
        ContentOperand::Real(lexeme) => OperandView::Real(lexeme@),
        ContentOperand::Name(name) => OperandView::Name(name@),
        ContentOperand::String(string) => OperandView::String {
            bytes: string.bytes@,
            kind: string.kind,
        },
        ContentOperand::Array(values) => OperandView::Array(
            Seq::new(
                values@.len(),
                |i: int|
                    if 0 <= i < values@.len() {
                        located_view(values[i])
                    } else {
                        arbitrary()
                    },
            ),
        ),
        ContentOperand::Dictionary(entries) => OperandView::Dictionary(
            Seq::new(
                entries@.len(),
                |i: int|
                    if 0 <= i < entries@.len() {
                        entry_view(entries[i])
                    } else {
                        arbitrary()
                    },
            ),
        ),
    }
}

/// The value of a located operand.
pub open spec fn located_view(operand: LocatedOperand) -> LocatedView
    decreases operand,
{
    LocatedView { extent: operand.extent, value: operand_view(operand.value) }
}

/// The value of a dictionary entry.
pub open spec fn entry_view(entry: ContentDictionaryEntry) -> EntryView
    decreases entry,
{
    EntryView { key_span: entry.key_span, key: entry.key@, value: located_view(entry.value) }
}

/// The values of several operands.
pub open spec fn operand_views(operands: Seq<LocatedOperand>) -> Seq<LocatedView> {
    operands.map_values(|operand: LocatedOperand| located_view(operand))
}

/// The values of several dictionary entries.
pub open spec fn entry_views(entries: Seq<ContentDictionaryEntry>) -> Seq<EntryView> {
    entries.map_values(|entry: ContentDictionaryEntry| entry_view(entry))
}

/// The value of a scanned operator.
pub open spec fn operator_view(operator: ScannedOperator) -> OperatorView {
    OperatorView {
        token: operator.operator.spec_token(),
        known: match operator.operator {
            ContentOperator::Known(kind) => Some(kind),
            ContentOperator::Unknown(_) => None,
        },
        operands: operand_views(operator.operands@),
        source: operator.source,
    }
}

/// The values of several scanned operators.
pub open spec fn operator_views(operators: Seq<ScannedOperator>) -> Seq<OperatorView> {
    operators.map_values(|operator: ScannedOperator| operator_view(operator))
}

/// The value of an array is that of its items.
pub proof fn array_view(values: Vec<LocatedOperand>)
    ensures
        operand_view(ContentOperand::Array(values)) == OperandView::Array(operand_views(values@)),
{
    let left = operand_view(ContentOperand::Array(values));
    assert(left->Array_0 =~= operand_views(values@));
}

/// The value of a dictionary is that of its entries.
pub proof fn dictionary_view(entries: Vec<ContentDictionaryEntry>)
    ensures
        operand_view(ContentOperand::Dictionary(entries)) == OperandView::Dictionary(
            entry_views(entries@),
        ),
{
    let left = operand_view(ContentOperand::Dictionary(entries));
    assert(left->Dictionary_0 =~= entry_views(entries@));
}

} // verus!
