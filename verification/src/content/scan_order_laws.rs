//! What is scanned keeps the order of its source.

use vstd::prelude::*;

use crate::content::lexical::{delimiter, literal_end};
use crate::content::model::{decoded_span_parts, no_scan_work, ContentPosition, ContentScanStats};
use crate::content::scan_laws::{
    admitted_total, fixed_steps, hex_bounds, literal_bounds, name_body_advances, name_body_steps,
    name_steps, operand_steps, regular_steps, skip_steps, starts, within,
};
use crate::content::scan_model::{
    admit_bytes, array_at, array_items, charge, dictionary_at, dictionary_items, enter_container,
    fixed_token, hex_at, hex_stop, literal_at, name_at, name_body, operand_at, operators_from,
    primitive, publish, push_pending, record_operand, regular_token, scanned, skip_trivia,
    token_bytes, Cursor, Input,
};
use crate::content::view::{EntryView, LocatedView, OperandView, OperatorView};

verus! {

/// Whether a position is that of a byte of the input with so much left to read from it on.
#[verifier::opaque]
pub open spec fn stands_at(input: Input, position: ContentPosition, left: int) -> bool {
    exists|stream: int, offset: int|
        {
            &&& 0 <= stream < input.streams.len()
            &&& 0 <= offset < input.bytes(stream).len()
            &&& #[trigger] input.position(stream, offset) == Some(position)
            &&& left == input.tail(stream) - offset
        }
}

/// Whether operands start at these places, each one with less left to read than the one before.
pub open spec fn start_in_order(input: Input, operands: Seq<LocatedView>, lefts: Seq<int>) -> bool {
    &&& lefts.len() == operands.len()
    &&& forall|i: int|
        0 <= i < lefts.len() ==> stands_at(
            input,
            operands[i].extent.start,
            #[trigger] lefts[i],
        )
    &&& forall|i: int, j: int|
        #![trigger lefts[i], lefts[j]]
        0 <= i < j < lefts.len() ==> lefts[i] > lefts[j]
}

/// Whether the items of arrays, and the entries of dictionaries, stand in the order of the source,
/// in an operand and in whatever it holds.
pub open spec fn orderly(input: Input, operand: LocatedView) -> bool
    decreases operand,
{
    match operand.value {
        OperandView::Array(values) => {
            &&& exists|lefts: Seq<int>| #[trigger] start_in_order(input, values, lefts)
            &&& forall|i: int| 0 <= i < values.len() ==> orderly(input, #[trigger] values[i])
        },
        OperandView::Dictionary(entries) => {
            &&& exists|lefts: Seq<int>| #[trigger] entries_in_order(input, entries, lefts)
            &&& forall|i: int|
                0 <= i < entries.len() ==> orderly(input, (#[trigger] entries[i]).value)
        },
        _ => true,
    }
}

/// Whether the values of dictionary entries start at these places, each one with less left to read
/// than the one before.
pub open spec fn entries_in_order(input: Input, entries: Seq<EntryView>, lefts: Seq<int>) -> bool {
    &&& lefts.len() == entries.len()
    &&& forall|i: int|
        0 <= i < lefts.len() ==> stands_at(
            input,
            entries[i].value.extent.start,
            #[trigger] lefts[i],
        )
    &&& forall|i: int, j: int|
        #![trigger lefts[i], lefts[j]]
        0 <= i < j < lefts.len() ==> lefts[i] > lefts[j]
}

/// Whether an operator stands behind its operands, which stand in order: all of it from where `from`
/// is left to read to where `to` is.
pub open spec fn operator_in_order(
    input: Input,
    operator: OperatorView,
    from: int,
    to: int,
) -> bool {
    exists|lefts: Seq<int>, token: int|
        {
            &&& #[trigger] start_in_order(input, operator.operands, lefts)
            &&& #[trigger] stands_at(input, operator.source.span.spec_start_position(), token)
            &&& forall|i: int| 0 <= i < lefts.len() ==> from >= #[trigger] lefts[i] && lefts[i] > token
            &&& from >= token > to
        } && forall|i: int|
            0 <= i < operator.operands.len() ==> orderly(input, #[trigger] operator.operands[i])
}

/// Whether every stream can be addressed.
pub open spec fn addressed(input: Input) -> bool {
    forall|i: int|
        0 <= i < input.streams.len() ==> (#[trigger] input.streams[i]).bytes.len() <= u64::MAX
}

/// Whether an operand starts with `from` left to read at most, and more than `to`, and all that it
/// holds is in order.
spec fn placed(input: Input, operand: LocatedView, from: int, to: int) -> bool {
    &&& orderly(input, operand)
    &&& exists|left: int| #[trigger]
        stands_at(input, operand.extent.start, left) && from >= left > to
}

proof fn cursors_stand_at_their_byte(input: Input, cursor: Cursor)
    requires
        within(input, cursor),
        cursor.offset < input.bytes(cursor.stream).len(),
        addressed(input),
    ensures
        input.left(cursor) == input.tail(cursor.stream) - cursor.offset,
        input.at(cursor) is Some,
        stands_at(input, input.at(cursor)->0, input.left(cursor) as int),
{
    reveal(stands_at);
    assert(input.position(cursor.stream, cursor.offset) == Some(input.at(cursor)->0));
}

proof fn spans_start_at_their_cursor(input: Input, cursor: Cursor, end: int)
    requires
        within(input, cursor),
        cursor.offset < end <= input.bytes(cursor.stream).len(),
        addressed(input),
    ensures
        stands_at(
            input,
            input.span(cursor.stream, cursor.offset, end).spec_start_position(),
            input.left(cursor) as int,
        ),
{
    cursors_stand_at_their_byte(input, cursor);
    let stream = input.streams[cursor.stream];
    decoded_span_parts(stream.object, stream.ordinal, cursor.offset, end - cursor.offset);
    assert(input.span(cursor.stream, cursor.offset, end).spec_start_position() == input.at(
        cursor,
    )->0);
}

proof fn plain_operands_are_placed(input: Input, operand: LocatedView, left: int, next: Cursor)
    requires
        !(operand.value is Array),
        !(operand.value is Dictionary),
        stands_at(input, operand.extent.start, left),
        left > input.left(next),
    ensures
        placed(input, operand, left, input.left(next) as int),
{
}

proof fn order_grows(
    input: Input,
    operands: Seq<LocatedView>,
    lefts: Seq<int>,
    operand: LocatedView,
    left: int,
)
    requires
        start_in_order(input, operands, lefts),
        stands_at(input, operand.extent.start, left),
        forall|i: int| 0 <= i < lefts.len() ==> #[trigger] lefts[i] > left,
    ensures
        start_in_order(input, operands.push(operand), lefts.push(left)),
{
    let all = operands.push(operand);
    let more = lefts.push(left);
    assert forall|i: int| 0 <= i < more.len() implies stands_at(
        input,
        all[i].extent.start,
        #[trigger] more[i],
    ) by {
        if i < lefts.len() {
            assert(more[i] == lefts[i]);
        }
    }
}

proof fn entry_order_grows(
    input: Input,
    entries: Seq<EntryView>,
    lefts: Seq<int>,
    entry: EntryView,
    left: int,
)
    requires
        entries_in_order(input, entries, lefts),
        stands_at(input, entry.value.extent.start, left),
        forall|i: int| 0 <= i < lefts.len() ==> #[trigger] lefts[i] > left,
    ensures
        entries_in_order(input, entries.push(entry), lefts.push(left)),
{
    let all = entries.push(entry);
    let more = lefts.push(left);
    assert forall|i: int| 0 <= i < more.len() implies stands_at(
        input,
        all[i].value.extent.start,
        #[trigger] more[i],
    ) by {
        if i < lefts.len() {
            assert(more[i] == lefts[i]);
        }
    }
}

/// A token that is read from a cursor leaves less to read.
proof fn tokens_are_placed(input: Input, cursor: Cursor)
    requires
        starts(input, cursor),
        cursor.offset < input.bytes(cursor.stream).len(),
        addressed(input),
    ensures
        literal_at(input, cursor) matches Ok((value, next)) ==> placed(
            input,
            value,
            input.left(cursor) as int,
            input.left(next) as int,
        ),
        hex_at(input, cursor) matches Ok((value, next)) ==> placed(
            input,
            value,
            input.left(cursor) as int,
            input.left(next) as int,
        ),
        name_at(input, cursor) matches Ok((span, name, next)) ==> {
            &&& input.left(next) < input.left(cursor)
            &&& stands_at(input, span.spec_start_position(), input.left(cursor) as int)
        },
        regular_token(input, cursor) matches Ok((span, next)) ==> {
            &&& input.left(next) < input.left(cursor)
            &&& stands_at(input, span.spec_start_position(), input.left(cursor) as int)
        },
{
    let bytes = input.bytes(cursor.stream);
    cursors_stand_at_their_byte(input, cursor);
    literal_bounds(bytes, cursor.offset + 1, 1);
    hex_bounds(bytes, cursor.offset + 1);
    regular_steps(input, cursor);
    if let Some(end) = literal_end(bytes, cursor.offset + 1, 1) {
        spans_start_at_their_cursor(input, cursor, end);
        if let Ok((value, next)) = literal_at(input, cursor) {
            assert(next.stream == cursor.stream && next.offset == end);
            plain_operands_are_placed(input, value, input.left(cursor) as int, next);
        }
    }
    let stop = hex_stop(bytes, cursor.offset + 1);
    if stop < bytes.len() {
        spans_start_at_their_cursor(input, cursor, stop + 1);
        if let Ok((value, next)) = hex_at(input, cursor) {
            assert(next.stream == cursor.stream && next.offset == stop + 1);
            plain_operands_are_placed(input, value, input.left(cursor) as int, next);
        }
    }
    if let Ok(stats) = charge(input, cursor.stats, 1, input.at(cursor)) {
        let inside = Cursor { stream: cursor.stream, offset: cursor.offset + 1, stats };
        name_body_steps(input, inside);
        name_body_advances(input, inside);
        if let Ok(end) = name_body(input, inside) {
            spans_start_at_their_cursor(input, cursor, end.offset);
        }
    }
    if let Ok((span, next)) = regular_token(input, cursor) {
        spans_start_at_their_cursor(input, cursor, next.offset);
    }
}

proof fn brackets_are_placed(input: Input, cursor: Cursor, len: u64)
    requires
        starts(input, cursor),
        cursor.offset + len <= input.bytes(cursor.stream).len(),
        0 < len <= 2,
        addressed(input),
    ensures
        fixed_token(input, cursor, len) matches Ok((span, next)) ==> {
            &&& input.left(next) < input.left(cursor)
            &&& stands_at(input, span.spec_start_position(), input.left(cursor) as int)
        },
{
    cursors_stand_at_their_byte(input, cursor);
    spans_start_at_their_cursor(input, cursor, cursor.offset + len);
}

#[verifier::rlimit(40)]
#[verifier::spinoff_prover]
proof fn operands_are_placed(input: Input, cursor: Cursor, depth: u16)
    requires
        starts(input, cursor),
        addressed(input),
    ensures
        operand_at(input, cursor, depth) matches Ok((value, next)) ==> placed(
            input,
            value,
            input.left(cursor) as int,
            input.left(next) as int,
        ),
    decreases input.left(cursor), 2int,
{
    skip_steps(input, cursor);
    if let Ok(start) = skip_trivia(input, cursor) {
        if input.left(start) <= input.left(cursor) {
            if let Some(byte) = input.peek(start) {
                if byte == 0x5b {
                    arrays_are_placed(input, start, depth);
                } else if byte == 0x3c && input.followed_by(start, 0x3c) {
                    dictionaries_are_placed(input, start, depth);
                } else {
                    tokens_are_placed(input, start);
                    if let Ok((value, next)) = operand_at(input, cursor, depth) {
                        if byte != 0x28 && byte != 0x3c {
                            plain_operands_are_placed(
                                input,
                                value,
                                input.left(start) as int,
                                next,
                            );
                        }
                    }
                }
            }
        }
    }
}

proof fn arrays_of_orderly_items_are_orderly(input: Input, operand: LocatedView, lefts: Seq<int>)
    requires
        operand.value is Array,
        start_in_order(input, operand.value->Array_0, lefts),
        forall|i: int|
            0 <= i < operand.value->Array_0.len() ==> orderly(
                input,
                #[trigger] operand.value->Array_0[i],
            ),
    ensures
        orderly(input, operand),
{
    let values = operand.value->Array_0;
    assert(start_in_order(input, values, lefts));
    assert forall|i: int| 0 <= i < values.len() implies orderly(input, #[trigger] values[i]) by {}
}

proof fn arrays_are_placed(input: Input, cursor: Cursor, depth: u16)
    requires
        starts(input, cursor),
        cursor.offset < input.bytes(cursor.stream).len(),
        addressed(input),
    ensures
        array_at(input, cursor, depth) matches Ok((value, next)) ==> placed(
            input,
            value,
            input.left(cursor) as int,
            input.left(next) as int,
        ),
    decreases input.left(cursor), 1int,
{
    if let Ok(entered) = enter_container(input, cursor, depth) {
        fixed_steps(input, entered, 1);
        brackets_are_placed(input, entered, 1);
        if let Ok((_, inside)) = fixed_token(input, entered, 1) {
            if input.left(inside) < input.left(cursor) {
                let none = Seq::<int>::empty();
                assert(start_in_order(input, Seq::empty(), none));
                items_are_in_order(input, inside, (depth + 1) as u16, Seq::empty(), none);
                if let Ok((value, next)) = array_at(input, cursor, depth) {
                    let (all, _, _) = array_items(
                        input,
                        inside,
                        (depth + 1) as u16,
                        Seq::empty(),
                    )->Ok_0;
                    assert(value.value == OperandView::Array(all));
                    let lefts = choose|lefts: Seq<int>| #[trigger]
                        start_in_order(input, all, lefts);
                    arrays_of_orderly_items_are_orderly(input, value, lefts);
                    assert(stands_at(input, value.extent.start, input.left(cursor) as int));
                }
            }
        }
    }
}

proof fn items_are_in_order(
    input: Input,
    cursor: Cursor,
    depth: u16,
    values: Seq<LocatedView>,
    lefts: Seq<int>,
)
    requires
        starts(input, cursor),
        addressed(input),
        start_in_order(input, values, lefts),
        forall|i: int| 0 <= i < lefts.len() ==> #[trigger] lefts[i] > input.left(cursor),
        forall|i: int| 0 <= i < values.len() ==> orderly(input, #[trigger] values[i]),
    ensures
        array_items(input, cursor, depth, values) matches Ok((all, _, next)) ==> {
            &&& input.left(next) < input.left(cursor)
            &&& exists|lefts: Seq<int>| #[trigger] start_in_order(input, all, lefts)
            &&& forall|i: int| 0 <= i < all.len() ==> orderly(input, #[trigger] all[i])
        },
    decreases input.left(cursor), 3int,
{
    skip_steps(input, cursor);
    if let Ok(start) = skip_trivia(input, cursor) {
        if input.left(start) <= input.left(cursor) {
            if let Some(byte) = input.peek(start) {
                if byte == 0x5d {
                    brackets_are_placed(input, start, 1);
                    if let Ok((all, _, next)) = array_items(input, cursor, depth, values) {
                        assert(all == values);
                        assert(input.left(next) < input.left(start));
                        assert(start_in_order(input, all, lefts));
                    }
                } else if !(byte == 0x3e && input.followed_by(start, 0x3e)) {
                    operand_steps(input, start, depth);
                    operands_are_placed(input, start, depth);
                    if let Ok((value, next)) = operand_at(input, start, depth) {
                        if input.left(next) < input.left(cursor) {
                            let left = choose|left: int| #[trigger]
                                stands_at(input, value.extent.start, left) && input.left(start)
                                    >= left > input.left(next);
                            let more = lefts.push(left);
                            order_grows(input, values, lefts, value, left);
                            let all = values.push(value);
                            assert forall|i: int| 0 <= i < all.len() implies orderly(
                                input,
                                #[trigger] all[i],
                            ) by {
                                if i < values.len() {
                                    assert(all[i] == values[i]);
                                }
                            }
                            items_are_in_order(input, next, depth, values.push(value), more);
                            assert(array_items(input, cursor, depth, values) == array_items(
                                input,
                                next,
                                depth,
                                values.push(value),
                            ));
                        }
                    }
                }
            }
        }
    }
}

proof fn dictionaries_are_placed(input: Input, cursor: Cursor, depth: u16)
    requires
        starts(input, cursor),
        cursor.offset + 1 < input.bytes(cursor.stream).len(),
        addressed(input),
    ensures
        dictionary_at(input, cursor, depth) matches Ok((value, next)) ==> placed(
            input,
            value,
            input.left(cursor) as int,
            input.left(next) as int,
        ),
    decreases input.left(cursor), 1int,
{
    if let Ok(entered) = enter_container(input, cursor, depth) {
        fixed_steps(input, entered, 2);
        brackets_are_placed(input, entered, 2);
        if let Ok((_, inside)) = fixed_token(input, entered, 2) {
            if input.left(inside) < input.left(cursor) {
                let none = Seq::<int>::empty();
                assert(entries_in_order(input, Seq::empty(), none));
                entries_are_in_order(input, inside, (depth + 1) as u16, Seq::empty(), none);
                if let Ok((value, next)) = dictionary_at(input, cursor, depth) {
                    assert(orderly(input, value));
                    assert(stands_at(input, value.extent.start, input.left(cursor) as int));
                }
            }
        }
    }
}

proof fn entries_are_in_order(
    input: Input,
    cursor: Cursor,
    depth: u16,
    entries: Seq<EntryView>,
    lefts: Seq<int>,
)
    requires
        starts(input, cursor),
        addressed(input),
        entries_in_order(input, entries, lefts),
        forall|i: int| 0 <= i < lefts.len() ==> #[trigger] lefts[i] > input.left(cursor),
        forall|i: int| 0 <= i < entries.len() ==> orderly(input, (#[trigger] entries[i]).value),
    ensures
        dictionary_items(input, cursor, depth, entries) matches Ok((all, _, next)) ==> {
            &&& input.left(next) < input.left(cursor)
            &&& exists|lefts: Seq<int>| #[trigger] entries_in_order(input, all, lefts)
            &&& forall|i: int| 0 <= i < all.len() ==> orderly(input, (#[trigger] all[i]).value)
        },
    decreases input.left(cursor), 3int,
{
    skip_steps(input, cursor);
    if let Ok(start) = skip_trivia(input, cursor) {
        if input.left(start) <= input.left(cursor) {
            if let Some(byte) = input.peek(start) {
                if byte == 0x3e && input.followed_by(start, 0x3e) {
                    brackets_are_placed(input, start, 2);
                } else if byte == 0x2f {
                    name_steps(input, start);
                    tokens_are_placed(input, start);
                    if let Ok((key_span, key, keyed)) = name_at(input, start) {
                        if input.left(keyed) < input.left(cursor) {
                            operand_steps(input, keyed, depth);
                            operands_are_placed(input, keyed, depth);
                            if let Ok((value, next)) = operand_at(input, keyed, depth) {
                                if input.left(next) < input.left(cursor) {
                                    let left = choose|left: int| #[trigger]
                                        stands_at(input, value.extent.start, left) && input.left(
                                            keyed,
                                        ) >= left > input.left(next);
                                    let more = lefts.push(left);
                                    let all = entries.push(EntryView { key_span, key, value });
                                    entry_order_grows(
                                        input,
                                        entries,
                                        lefts,
                                        EntryView { key_span, key, value },
                                        left,
                                    );
                                    assert forall|i: int| 0 <= i < all.len() implies orderly(
                                        input,
                                        (#[trigger] all[i]).value,
                                    ) by {
                                        if i < entries.len() {
                                            assert(all[i] == entries[i]);
                                        }
                                    }
                                    entries_are_in_order(input, next, depth, all, more);
                                }
                            }
                        }
                    }
                }
            }
        }
    }
}

/// Whether operators stand in order between these places.
pub open spec fn operators_in_order(
    input: Input,
    operators: Seq<OperatorView>,
    ends: Seq<int>,
) -> bool {
    &&& ends.len() == operators.len() + 1
    &&& forall|i: int|
        0 <= i < operators.len() ==> operator_in_order(
            input,
            #[trigger] operators[i],
            ends[i],
            ends[i + 1],
        )
}

#[verifier::rlimit(60)]
#[verifier::spinoff_prover]
proof fn publishing_keeps_the_order(
    input: Input,
    cursor: Cursor,
    operators: Seq<OperatorView>,
    pending: Seq<LocatedView>,
    ends: Seq<int>,
    lefts: Seq<int>,
)
    requires
        starts(input, cursor),
        addressed(input),
        operators_in_order(input, operators, ends),
        start_in_order(input, pending, lefts),
        forall|i: int|
            0 <= i < lefts.len() ==> ends.last() >= #[trigger] lefts[i] && lefts[i] > input.left(
                cursor,
            ),
        ends.last() >= input.left(cursor),
        forall|i: int| 0 <= i < pending.len() ==> orderly(input, #[trigger] pending[i]),
    ensures
        operators_from(input, cursor, operators, pending) matches Ok((all, _)) ==> exists|
            ends: Seq<int>,
        | #[trigger]
            operators_in_order(input, all, ends),
    decreases input.left(cursor),
{
    skip_steps(input, cursor);
    if let Ok(start) = skip_trivia(input, cursor) {
        if input.left(start) <= input.left(cursor) {
            if input.peek(start) is None {
                if let Ok((all, _)) = operators_from(input, cursor, operators, pending) {
                    assert(all == operators);
                    assert(operators_in_order(input, all, ends));
                }
            }
            if let Some(byte) = input.peek(start) {
                if byte == 0x5b || byte == 0x28 || byte == 0x2f || byte == 0x3c {
                    operand_steps(input, start, 0);
                    operands_are_placed(input, start, 0);
                    if let Ok((operand, after)) = operand_at(input, start, 0) {
                        if let Ok((more, next)) = push_pending(input, after, pending, operand) {
                            if input.left(next) < input.left(cursor) {
                                let left = choose|left: int| #[trigger]
                                    stands_at(input, operand.extent.start, left) && input.left(
                                        start,
                                    ) >= left > input.left(after);
                                order_grows(input, pending, lefts, operand, left);
                                assert forall|i: int| 0 <= i < more.len() implies orderly(
                                    input,
                                    #[trigger] more[i],
                                ) by {
                                    if i < pending.len() {
                                        assert(more[i] == pending[i]);
                                    }
                                }
                                publishing_keeps_the_order(
                                    input,
                                    next,
                                    operators,
                                    more,
                                    ends,
                                    lefts.push(left),
                                );
                                assert(operators_from(input, cursor, operators, pending)
                                    == operators_from(input, next, operators, more));
                            }
                        }
                    }
                } else if !delimiter(byte) {
                    regular_steps(input, start);
                    tokens_are_placed(input, start);
                    if let Ok((span, next)) = regular_token(input, start) {
                        let token = token_bytes(input, start, next);
                        if input.left(next) < input.left(cursor) {
                            match primitive(token, span) {
                                Ok(Some(operand)) => {
                                    if let Ok(counted) = record_operand(
                                        next,
                                        Some(operand.extent.start),
                                    ) {
                                        if let Ok((more, last)) = push_pending(
                                            input,
                                            counted,
                                            pending,
                                            operand,
                                        ) {
                                            let left = input.left(start) as int;
                                            order_grows(input, pending, lefts, operand, left);
                                            assert forall|i: int| 0 <= i < more.len() implies
                                                orderly(input, #[trigger] more[i]) by {
                                                if i < pending.len() {
                                                    assert(more[i] == pending[i]);
                                                }
                                            }
                                            publishing_keeps_the_order(
                                                input,
                                                last,
                                                operators,
                                                more,
                                                ends,
                                                lefts.push(left),
                                            );
                                            assert(operators_from(
                                                input,
                                                cursor,
                                                operators,
                                                pending,
                                            ) == operators_from(input, last, operators, more));
                                        }
                                    }
                                },
                                Ok(None) => {
                                    if let Ok((operator, after)) = publish(
                                        input,
                                        next,
                                        token,
                                        span,
                                        pending,
                                    ) {
                                        let all = operators.push(operator);
                                        let reached = ends.push(input.left(next) as int);
                                        let here = input.left(start) as int;
                                        assert(stands_at(
                                            input,
                                            operator.source.span.spec_start_position(),
                                            here,
                                        ));
                                        assert(start_in_order(input, operator.operands, lefts));
                                        assert(operator_in_order(
                                            input,
                                            operator,
                                            ends.last(),
                                            input.left(next) as int,
                                        ));
                                        assert forall|i: int| 0 <= i < all.len() implies
                                            operator_in_order(
                                            input,
                                            #[trigger] all[i],
                                            reached[i],
                                            reached[i + 1],
                                        ) by {
                                            if i < operators.len() {
                                                assert(all[i] == operators[i]);
                                            }
                                        }
                                        let none = Seq::<int>::empty();
                                        assert(start_in_order(input, Seq::empty(), none));
                                        publishing_keeps_the_order(
                                            input,
                                            after,
                                            all,
                                            Seq::empty(),
                                            reached,
                                            none,
                                        );
                                        assert(operators_from(input, cursor, operators, pending)
                                            == operators_from(input, after, all, Seq::empty()));
                                    }
                                },
                                Err(_) => {},
                            }
                        }
                    }
                }
            }
        }
    }
}

/// A scan keeps the order of its source: operators follow each other, each one behind its operands,
/// which follow each other too, and so do the items of arrays and the entries of dictionaries.
pub proof fn scans_keep_the_order_of_their_source(input: Input)
    requires
        input.limits.admissible(),
        addressed(input),
    ensures
        scanned(input) matches Ok((operators, _)) ==> exists|ends: Seq<int>| #[trigger]
            operators_in_order(input, operators, ends),
{
    admitted_total(input, 0);
    if let Ok(total) = admit_bytes(input, 0) {
        let start = Cursor {
            stream: 0,
            offset: 0,
            stats: ContentScanStats {
                streams: input.streams.len() as u32,
                total_decoded_bytes: total,
                ..no_scan_work()
            },
        };
        let none = Seq::<int>::empty();
        let ends = seq![input.left(start) as int];
        assert(start_in_order(input, Seq::empty(), none));
        assert(operators_in_order(input, Seq::empty(), ends));
        publishing_keeps_the_order(input, start, Seq::empty(), Seq::empty(), ends, none);
    }
}

} // verus!
