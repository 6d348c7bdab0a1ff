//! Laws of planning text and marked content.

use vstd::prelude::*;

use crate::content::model::ContentOperatorSource;
use crate::content::operands::operand_number;
use crate::content::operator::OperatorKind;
use crate::content::plan::{ExecutionAction, TextAction, TextShowItem};
use crate::content::planner_model::{
    array_fault, array_items, general_outcome, known_outcome, planned, text_outcome, AnswerView,
    PlanConfig, PlannerView,
};
use crate::content::resources::ResourceProof;
use crate::content::state_laws::{numbers_are_those_of_the_operands, operand_value};
use crate::content::view::{LocatedView, OperandView, OperatorView};

verus! {

/// Whether planning an operator appends one text action, and leaves the graphics as they are.
pub open spec fn appends_text(view: PlannerView, next: PlannerView) -> bool {
    &&& next.graphics == view.graphics
    &&& next.ctm == view.ctm
    &&& next.actions.len() == view.actions.len() + 1
    &&& next.actions.drop_last() == view.actions
    &&& next.actions.last() is Text
}

/// Text operators become the actions that they name, with the numbers of their operands.
pub proof fn text_operators_become_their_actions(
    view: PlannerView,
    config: PlanConfig,
    operator: OperatorView,
    kind: OperatorKind,
    answer: AnswerView,
)
    requires
        !view.awaiting,
        operator.known == Some(kind),
        kind == OperatorKind::BeginText || kind == OperatorKind::EndText || kind
            == OperatorKind::SetCharacterSpacing || kind == OperatorKind::SetWordSpacing || kind
            == OperatorKind::SetHorizontalScaling || kind == OperatorKind::SetTextLeading || kind
            == OperatorKind::SetTextRise || kind == OperatorKind::MoveTextPosition || kind
            == OperatorKind::MoveTextPositionSetLeading || kind == OperatorKind::SetTextMatrix
            || kind == OperatorKind::MoveToNextTextLine,
    ensures
        planned(view, config, operator, answer) matches Ok(next) ==> {
            &&& appends_text(view, next)
            &&& match next.actions.last()->Text_0 {
                TextAction::Begin { source } => kind == OperatorKind::BeginText && source
                    == operator.source && !view.text_active && next.text_active,
                TextAction::End { source } => kind == OperatorKind::EndText && source
                    == operator.source && view.text_active && !next.text_active,
                TextAction::SetCharacterSpacing { value, .. } => kind
                    == OperatorKind::SetCharacterSpacing && value.scaled == operand_value(
                    operator,
                    0,
                ),
                TextAction::SetWordSpacing { value, .. } => kind == OperatorKind::SetWordSpacing
                    && value.scaled == operand_value(operator, 0),
                TextAction::SetHorizontalScaling { value, .. } => kind
                    == OperatorKind::SetHorizontalScaling && value.scaled == operand_value(
                    operator,
                    0,
                ),
                TextAction::SetLeading { value, .. } => kind == OperatorKind::SetTextLeading
                    && value.scaled == operand_value(operator, 0),
                TextAction::SetRise { value, .. } => kind == OperatorKind::SetTextRise
                    && value.scaled == operand_value(operator, 0),
                TextAction::MovePosition { tx, ty, set_leading, .. } => {
                    &&& kind == OperatorKind::MoveTextPosition && !set_leading || kind
                        == OperatorKind::MoveTextPositionSetLeading && set_leading
                    &&& tx.scaled == operand_value(operator, 0)
                    &&& ty.scaled == operand_value(operator, 1)
                },
                TextAction::SetMatrix { matrix, .. } => {
                    &&& kind == OperatorKind::SetTextMatrix
                    &&& matrix.a.scaled == operand_value(operator, 0)
                    &&& matrix.b.scaled == operand_value(operator, 1)
                    &&& matrix.c.scaled == operand_value(operator, 2)
                    &&& matrix.d.scaled == operand_value(operator, 3)
                    &&& matrix.e.scaled == operand_value(operator, 4)
                    &&& matrix.f.scaled == operand_value(operator, 5)
                },
                TextAction::NextLine { .. } => kind == OperatorKind::MoveToNextTextLine,
                _ => false,
            }
        },
{
    reveal(known_outcome);
    reveal(text_outcome);
    numbers_are_those_of_the_operands(
        operator.operands,
        operator.operands.len() as int,
        operator.source,
    );
    if let Ok(next) = planned(view, config, operator, answer) {
        assert(next.actions.drop_last() =~= view.actions);
        let count = operator.operands.len() as int;
        if count > 0 {
            assert(operand_number(operator.operands[0], operator.source) is Ok);
        }
        if count > 1 {
            assert(operand_number(operator.operands[1], operator.source) is Ok);
        }
        if count > 2 {
            assert(operand_number(operator.operands[2], operator.source) is Ok);
            assert(operand_number(operator.operands[3], operator.source) is Ok);
            assert(operand_number(operator.operands[4], operator.source) is Ok);
            assert(operand_number(operator.operands[5], operator.source) is Ok);
        }
    }
}

/// Selecting a font registers its name and keeps its size; the first one is remembered.
pub proof fn fonts_are_selected_by_name_and_size(
    view: PlannerView,
    config: PlanConfig,
    operator: OperatorView,
    answer: AnswerView,
)
    requires
        !view.awaiting,
        operator.known == Some(OperatorKind::SetTextFont),
        view.names.len() <= usize::MAX,
    ensures
        planned(view, config, operator, answer) matches Ok(next) ==> {
            &&& appends_text(view, next)
            &&& next.actions.last()->Text_0 matches TextAction::SetFont { name, size, .. } && {
                &&& operator.operands[0].value == OperandView::Name(next.names[name as int])
                &&& size.scaled == operand_value(operator, 1)
            }
            &&& next.font_selected
            &&& next.font_uses == view.font_uses + 1
            &&& next.first_font_source == Some(
                if view.first_font_source is Some {
                    view.first_font_source->0
                } else {
                    operator.source
                },
            )
        },
{
    reveal(known_outcome);
    reveal(text_outcome);
    if let Ok(next) = planned(view, config, operator, answer) {
        assert(next.actions.drop_last() =~= view.actions);
    }
}

/// Whether a piece of shown text is what an item of a text array denotes.
pub open spec fn shows_item(
    piece: TextShowItem,
    names: Seq<Seq<u8>>,
    value: LocatedView,
    source: ContentOperatorSource,
) -> bool {
    match value.value {
        OperandView::String { bytes, .. } => piece matches TextShowItem::Bytes(place) && place
            < names.len() && names[place as int] == bytes,
        _ => piece matches TextShowItem::Adjustment(number) && operand_number(value, source) is Ok
            && number.scaled == operand_number(value, source)->Ok_0.scaled,
    }
}

proof fn arrays_are_shown_in_order(
    names: Seq<Seq<u8>>,
    values: Seq<LocatedView>,
    count: int,
    source: ContentOperatorSource,
)
    requires
        0 <= count <= values.len(),
        names.len() + values.len() <= usize::MAX,
        array_fault(values, count, source) is None,
    ensures
        ({
            let (after, items) = array_items(names, values, count, source);
            &&& items.len() == count
            &&& names.len() <= after.len() <= names.len() + count
            &&& forall|k: int| 0 <= k < names.len() ==> after[k] == names[k]
            &&& forall|i: int|
                0 <= i < count ==> shows_item(#[trigger] items[i], after, values[i], source)
        }),
    decreases count,
{
    if count > 0 {
        arrays_are_shown_in_order(names, values, count - 1, source);
        let (front, before) = array_items(names, values, count - 1, source);
        let (after, items) = array_items(names, values, count, source);
        assert forall|i: int| 0 <= i < count implies shows_item(
            #[trigger] items[i],
            after,
            values[i],
            source,
        ) by {
            if i < count - 1 {
                assert(items[i] == before[i]);
                assert(shows_item(before[i], front, values[i], source));
            }
        }
    }
}

/// Whether an operator shows text.
pub open spec fn shows_text(kind: OperatorKind) -> bool {
    kind == OperatorKind::ShowText || kind == OperatorKind::ShowTextAdjusted || kind
        == OperatorKind::MoveNextLineShowText || kind
        == OperatorKind::SetSpacingMoveNextLineShowText
}

/// Shown text keeps the bytes of its string, or the items of its array in order; it is drawn with
/// the paint of areas under the current transform. Two operators move to the next line first, and
/// one of them sets the spacings: of words by its first operand, of characters by its second.
pub proof fn shown_text_is_that_of_the_operands(
    view: PlannerView,
    config: PlanConfig,
    operator: OperatorView,
    kind: OperatorKind,
    answer: AnswerView,
)
    requires
        !view.awaiting,
        operator.known == Some(kind),
        shows_text(kind),
        view.items.len() <= usize::MAX,
        view.names.len() + operator.operands[0].value->Array_0.len() <= usize::MAX,
        view.names.len() < usize::MAX,
    ensures
        planned(view, config, operator, answer) matches Ok(next) ==> {
            let spaced = kind == OperatorKind::SetSpacingMoveNextLineShowText;
            &&& appends_text(view, next)
            &&& view.font_selected
            &&& next.items.len() == view.items.len() + 1
            &&& next.items.drop_last() == view.items
            &&& next.actions.last()->Text_0 matches TextAction::Show {
                items,
                character_spacing,
                word_spacing,
                next_line,
                paint,
                ctm,
                source,
                ..
            } && {
                &&& items == view.items.len()
                &&& next_line <==> kind == OperatorKind::MoveNextLineShowText || spaced
                &&& paint == view.graphics.current.nonstroking
                &&& ctm == view.graphics.current.ctm
                &&& source == operator.source
                &&& if spaced {
                    &&& word_spacing matches Some(value) && value.scaled == operand_value(
                        operator,
                        0,
                    )
                    &&& character_spacing matches Some(value) && value.scaled == operand_value(
                        operator,
                        1,
                    )
                } else {
                    word_spacing is None && character_spacing is None
                }
            }
            &&& if kind == OperatorKind::ShowTextAdjusted {
                operator.operands[0].value matches OperandView::Array(values) && {
                    &&& next.items.last().len() == values.len()
                    &&& forall|i: int|
                        0 <= i < values.len() ==> shows_item(
                            #[trigger] next.items.last()[i],
                            next.names,
                            values[i],
                            operator.source,
                        )
                }
            } else {
                let string = operator.operands[if spaced {
                    2
                } else {
                    0
                }];
                &&& string.value is String
                &&& next.items.last().len() == 1
                &&& shows_item(next.items.last()[0], next.names, string, operator.source)
            }
        },
{
    reveal(known_outcome);
    reveal(text_outcome);
    if let Ok(next) = planned(view, config, operator, answer) {
        assert(next.actions.drop_last() =~= view.actions);
        assert(next.items.drop_last() =~= view.items);
        if kind == OperatorKind::ShowTextAdjusted {
            let values = operator.operands[0].value->Array_0;
            arrays_are_shown_in_order(view.names, values, values.len() as int, operator.source);
        } else if kind == OperatorKind::SetSpacingMoveNextLineShowText {
            numbers_are_those_of_the_operands(operator.operands, 2, operator.source);
            assert(operand_number(operator.operands[0], operator.source) is Ok);
            assert(operand_number(operator.operands[1], operator.source) is Ok);
        }
    }
}

/// A marked-content sequence without graphics becomes a pair of actions around its content: the
/// first one has its tag. With graphics it leaves no action. Either way only its depth is kept.
pub proof fn marked_content_keeps_its_tag(
    view: PlannerView,
    config: PlanConfig,
    operator: OperatorView,
    kind: OperatorKind,
    answer: AnswerView,
)
    requires
        !view.awaiting,
        operator.known == Some(kind),
        kind == OperatorKind::BeginMarkedContent || kind == OperatorKind::EndMarkedContent,
        view.names.len() <= usize::MAX,
        view.marked_depth < u32::MAX,
    ensures
        planned(view, config, operator, answer) matches Ok(next) ==> {
            &&& next.graphics == view.graphics
            &&& next.ctm == view.ctm
            &&& kind == OperatorKind::BeginMarkedContent ==> next.marked_depth == view.marked_depth
                + 1
            &&& kind == OperatorKind::EndMarkedContent ==> next.marked_depth + 1
                == view.marked_depth
            &&& if config.graphics is Some {
                next.actions == view.actions
            } else {
                &&& next.actions.len() == view.actions.len() + 1
                &&& next.actions.drop_last() == view.actions
                &&& match next.actions.last() {
                    ExecutionAction::BeginMarkedContent { tag, properties, .. } => {
                        &&& kind == OperatorKind::BeginMarkedContent
                        &&& properties is None
                        &&& operator.operands[0].value == OperandView::Name(
                            next.names[tag as int],
                        )
                    },
                    ExecutionAction::EndMarkedContent { .. } => kind
                        == OperatorKind::EndMarkedContent,
                    _ => false,
                }
            }
        },
{
    reveal(known_outcome);
    reveal(general_outcome);
    if let Ok(next) = planned(view, config, operator, answer) {
        if config.graphics is None {
            assert(next.actions.drop_last() =~= view.actions);
        }
    }
}

/// A property that was looked up is used by the operator that awaited it, and its object stands in
/// the action.
pub proof fn properties_are_used_by_their_operator(
    view: PlannerView,
    config: PlanConfig,
    operator: OperatorView,
    resource: ResourceProof,
)
    requires
        view.awaiting,
        view.names.len() <= usize::MAX,
        view.marked_depth < u32::MAX,
    ensures
        planned(view, config, operator, AnswerView::Property(Ok(resource))) matches Ok(next) ==> {
            &&& !next.awaiting
            &&& next.marked_depth == view.marked_depth + 1
            &&& next.property_uses.len() == view.property_uses.len() + 1
            &&& next.property_uses.drop_last() == view.property_uses
            &&& next.property_uses.last().source == operator.source
            &&& next.property_uses.last().resource == resource
            &&& config.graphics is None ==> {
                &&& next.actions.drop_last() == view.actions
                &&& next.actions.last() matches ExecutionAction::BeginMarkedContent {
                    tag,
                    properties,
                    ..
                } && properties == Some(resource.target) && operator.operands[0].value
                    == OperandView::Name(next.names[tag as int])
            }
        },
{
    let answer = AnswerView::Property(Ok(resource));
    if let Ok(next) = planned(view, config, operator, answer) {
        assert(next.property_uses.drop_last() =~= view.property_uses);
        if config.graphics is None {
            assert(next.actions.drop_last() =~= view.actions);
        }
    }
}

/// Compatibility sections nest: one that begins goes one deeper, and one that ends one back. Nothing
/// else changes.
pub proof fn compatibility_sections_nest(
    view: PlannerView,
    config: PlanConfig,
    operator: OperatorView,
    kind: OperatorKind,
    answer: AnswerView,
)
    requires
        !view.awaiting,
        operator.known == Some(kind),
        kind == OperatorKind::BeginCompatibility || kind == OperatorKind::EndCompatibility,
        view.compatibility_depth < u32::MAX,
    ensures
        planned(view, config, operator, answer) matches Ok(next) ==> {
            &&& next == (PlannerView {
                compatibility_depth: next.compatibility_depth,
                charges: next.charges,
                image_operators: next.image_operators,
                font_operators: next.font_operators,
                ..view
            })
            &&& kind == OperatorKind::BeginCompatibility ==> next.compatibility_depth
                == view.compatibility_depth + 1
            &&& kind == OperatorKind::EndCompatibility ==> next.compatibility_depth + 1
                == view.compatibility_depth
        },
{
    reveal(known_outcome);
    reveal(general_outcome);
}

} // verus!
