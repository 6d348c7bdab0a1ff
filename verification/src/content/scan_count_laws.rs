//! Nothing that a scan reads is dropped, and nothing is made up.

use vstd::prelude::*;

use crate::content::lexical::{delimiter, whitespace};
use crate::content::model::{no_scan_work, ContentScanStats};
use crate::content::scan_model::{
    admit_bytes, array_at, array_items, charge, comment_len, dictionary_at, dictionary_items,
    enter_container, fixed_token, hex_at, literal_at, name_at, name_body, operand_at,
    operators_from, primitive, publish, push_pending, read_run, record_operand, regular_token,
    scanned, skip_trivia, token_bytes, Cursor, Input,
};
use crate::content::view::{EntryView, LocatedView, OperandView, OperatorView};

verus! {

/// What an operand weighs, where a plain one weighs one, an array or a dictionary `container` and
/// all that it holds, and each key of a dictionary `key`.
pub open spec fn weight(operand: LocatedView, container: nat, key: nat) -> nat
    decreases operand, 0nat,
{
    match operand.value {
        OperandView::Array(values) => container + weight_among(values, values.len(), container, key),
        OperandView::Dictionary(entries) => container + weight_of_entries(
            entries,
            entries.len(),
            container,
            key,
        ),
        _ => 1,
    }
}

/// What the first `count` operands weigh together.
pub open spec fn weight_among(
    values: Seq<LocatedView>,
    count: nat,
    container: nat,
    key: nat,
) -> nat
    decreases values, count,
{
    if count == 0 || count > values.len() {
        0
    } else {
        weight_among(values, (count - 1) as nat, container, key) + weight(
            values[count - 1],
            container,
            key,
        )
    }
}

/// What the first `count` entries weigh together.
pub open spec fn weight_of_entries(
    entries: Seq<EntryView>,
    count: nat,
    container: nat,
    key: nat,
) -> nat
    decreases entries, count,
{
    if count == 0 || count > entries.len() {
        0
    } else {
        weight_of_entries(entries, (count - 1) as nat, container, key) + key + weight(
            entries[count - 1].value,
            container,
            key,
        )
    }
}

/// Tokens that operands are made of: two brackets around all that a container holds, a name before
/// each value of a dictionary, and one for anything else.
pub open spec fn tokens_of(operands: Seq<LocatedView>) -> nat {
    weight_among(operands, operands.len(), 2, 1)
}

/// Operands that there are among operands: each one, and all that containers hold.
pub open spec fn operands_of(operands: Seq<LocatedView>) -> nat {
    weight_among(operands, operands.len(), 1, 0)
}

/// Tokens of operators and of their operands.
pub open spec fn tokens_of_all(operators: Seq<OperatorView>) -> nat
    decreases operators.len(),
{
    if operators.len() == 0 {
        0
    } else {
        tokens_of_all(operators.drop_last()) + 1 + tokens_of(operators.last().operands)
    }
}

/// Operands of operators.
pub open spec fn operands_of_all(operators: Seq<OperatorView>) -> nat
    decreases operators.len(),
{
    if operators.len() == 0 {
        0
    } else {
        operands_of_all(operators.drop_last()) + operands_of(operators.last().operands)
    }
}

proof fn earlier_weights_stay(
    values: Seq<LocatedView>,
    value: LocatedView,
    count: nat,
    container: nat,
    key: nat,
)
    requires
        count <= values.len(),
    ensures
        weight_among(values.push(value), count, container, key) == weight_among(
            values,
            count,
            container,
            key,
        ),
    decreases count,
{
    if count > 0 {
        earlier_weights_stay(values, value, (count - 1) as nat, container, key);
        assert(values.push(value)[count - 1] == values[count - 1]);
    }
}

proof fn weights_add_up(values: Seq<LocatedView>, value: LocatedView, container: nat, key: nat)
    ensures
        weight_among(values.push(value), values.push(value).len(), container, key) == weight_among(
            values,
            values.len(),
            container,
            key,
        ) + weight(value, container, key),
{
    let n = values.len();
    earlier_weights_stay(values, value, n, container, key);
    assert(values.push(value)[n as int] == value);
    assert(values.push(value).len() == n + 1);
}

proof fn earlier_entries_stay(
    entries: Seq<EntryView>,
    entry: EntryView,
    count: nat,
    container: nat,
    key: nat,
)
    requires
        count <= entries.len(),
    ensures
        weight_of_entries(entries.push(entry), count, container, key) == weight_of_entries(
            entries,
            count,
            container,
            key,
        ),
    decreases count,
{
    if count > 0 {
        earlier_entries_stay(entries, entry, (count - 1) as nat, container, key);
        assert(entries.push(entry)[count - 1] == entries[count - 1]);
    }
}

proof fn entries_add_up(entries: Seq<EntryView>, entry: EntryView, container: nat, key: nat)
    ensures
        weight_of_entries(entries.push(entry), entries.push(entry).len(), container, key)
            == weight_of_entries(entries, entries.len(), container, key) + key + weight(
            entry.value,
            container,
            key,
        ),
{
    let n = entries.len();
    earlier_entries_stay(entries, entry, n, container, key);
    assert(entries.push(entry)[n as int] == entry);
    assert(entries.push(entry).len() == n + 1);
}

/// Whether so many tokens and operands were counted between two cursors.
spec fn counted(from: Cursor, to: Cursor, tokens: int, operands: int) -> bool {
    &&& to.stats.tokens == from.stats.tokens + tokens
    &&& to.stats.operands == from.stats.operands + operands
}

proof fn trivia_counts_nothing(input: Input, cursor: Cursor)
    ensures
        skip_trivia(input, cursor) matches Ok(next) ==> counted(cursor, next, 0, 0),
    decreases input.streams.len() - cursor.stream, input.left(cursor),
{
    let bytes = input.bytes(cursor.stream);
    if 0 <= cursor.stream < input.streams.len() && cursor.offset >= 0 {
        if cursor.offset >= bytes.len() {
            trivia_counts_nothing(input, Cursor { stream: cursor.stream + 1, offset: 0, ..cursor });
        } else if whitespace(bytes[cursor.offset]) {
            if let Ok(next) = read_run(input, cursor, 1) {
                trivia_counts_nothing(input, next);
            }
        } else if bytes[cursor.offset] == 0x25 {
            assert(comment_len(bytes, cursor.offset) > 0);
            if let Ok(next) = read_run(input, cursor, comment_len(bytes, cursor.offset) as int) {
                trivia_counts_nothing(input, next);
            }
        }
    }
}

proof fn name_bodies_count_nothing(input: Input, cursor: Cursor)
    ensures
        name_body(input, cursor) matches Ok(next) ==> counted(cursor, next, 0, 0),
    decreases input.bytes(cursor.stream).len() - cursor.offset,
{
    let bytes = input.bytes(cursor.stream);
    let i = cursor.offset;
    if 0 <= i < bytes.len() && !delimiter(bytes[i]) {
        if let Ok(stats) = charge(input, cursor.stats, 1, input.at(cursor)) {
            if bytes[i] != 0x23 {
                name_bodies_count_nothing(
                    input,
                    Cursor { stream: cursor.stream, offset: i + 1, stats },
                );
            } else if i + 2 < bytes.len() {
                if let Ok(stats) = charge(
                    input,
                    stats,
                    2,
                    input.position(cursor.stream, i + 1),
                ) {
                    name_bodies_count_nothing(
                        input,
                        Cursor { stream: cursor.stream, offset: i + 3, stats },
                    );
                }
            }
        }
    }
}

proof fn tokens_count_once(input: Input, cursor: Cursor, len: u64)
    ensures
        regular_token(input, cursor) matches Ok((_, next)) ==> counted(cursor, next, 1, 0),
        fixed_token(input, cursor, len) matches Ok((_, next)) ==> counted(cursor, next, 1, 0),
        name_at(input, cursor) matches Ok((_, _, next)) ==> counted(cursor, next, 1, 0),
        literal_at(input, cursor) matches Ok((value, next)) ==> counted(cursor, next, 1, 0)
            && value.value is String,
        hex_at(input, cursor) matches Ok((value, next)) ==> counted(cursor, next, 1, 0)
            && value.value is String,
{
    if let Ok(stats) = charge(input, cursor.stats, 1, input.at(cursor)) {
        name_bodies_count_nothing(
            input,
            Cursor { stream: cursor.stream, offset: cursor.offset + 1, stats },
        );
    }
}

proof fn operands_count_what_they_hold(input: Input, cursor: Cursor, depth: u16)
    ensures
        operand_at(input, cursor, depth) matches Ok((value, next)) ==> counted(
            cursor,
            next,
            weight(value, 2, 1) as int,
            weight(value, 1, 0) as int,
        ),
    decreases input.left(cursor), 2int,
{
    trivia_counts_nothing(input, cursor);
    if let Ok(start) = skip_trivia(input, cursor) {
        if input.left(start) <= input.left(cursor) {
            if let Some(byte) = input.peek(start) {
                if byte == 0x5b {
                    arrays_count_what_they_hold(input, start, depth);
                } else if byte == 0x3c && input.followed_by(start, 0x3c) {
                    dictionaries_count_what_they_hold(input, start, depth);
                } else {
                    tokens_count_once(input, start, 0);
                }
            }
        }
    }
}

proof fn arrays_count_what_they_hold(input: Input, cursor: Cursor, depth: u16)
    ensures
        array_at(input, cursor, depth) matches Ok((value, next)) ==> counted(
            cursor,
            next,
            weight(value, 2, 1) as int,
            weight(value, 1, 0) - 1,
        ),
    decreases input.left(cursor), 1int,
{
    if let Ok(entered) = enter_container(input, cursor, depth) {
        tokens_count_once(input, entered, 1);
        if let Ok((_, inside)) = fixed_token(input, entered, 1) {
            if input.left(inside) < input.left(cursor) {
                items_are_all_counted(input, inside, (depth + 1) as u16, Seq::empty());
            }
        }
    }
}

proof fn items_are_all_counted(
    input: Input,
    cursor: Cursor,
    depth: u16,
    values: Seq<LocatedView>,
)
    ensures
        array_items(input, cursor, depth, values) matches Ok((all, _, next)) ==> counted(
            cursor,
            next,
            tokens_of(all) - tokens_of(values) + 1,
            operands_of(all) - operands_of(values),
        ),
    decreases input.left(cursor), 3int,
{
    trivia_counts_nothing(input, cursor);
    if let Ok(start) = skip_trivia(input, cursor) {
        if input.left(start) <= input.left(cursor) {
            if let Some(byte) = input.peek(start) {
                if byte == 0x5d {
                    tokens_count_once(input, start, 1);
                } else if !(byte == 0x3e && input.followed_by(start, 0x3e)) {
                    operands_count_what_they_hold(input, start, depth);
                    if let Ok((value, next)) = operand_at(input, start, depth) {
                        if input.left(next) < input.left(cursor) {
                            weights_add_up(values, value, 2, 1);
                            weights_add_up(values, value, 1, 0);
                            items_are_all_counted(input, next, depth, values.push(value));
                        }
                    }
                }
            }
        }
    }
}

proof fn dictionaries_count_what_they_hold(input: Input, cursor: Cursor, depth: u16)
    ensures
        dictionary_at(input, cursor, depth) matches Ok((value, next)) ==> counted(
            cursor,
            next,
            weight(value, 2, 1) as int,
            weight(value, 1, 0) - 1,
        ),
    decreases input.left(cursor), 1int,
{
    if let Ok(entered) = enter_container(input, cursor, depth) {
        tokens_count_once(input, entered, 2);
        if let Ok((_, inside)) = fixed_token(input, entered, 2) {
            if input.left(inside) < input.left(cursor) {
                entries_are_all_counted(input, inside, (depth + 1) as u16, Seq::empty());
            }
        }
    }
}

proof fn entries_are_all_counted(
    input: Input,
    cursor: Cursor,
    depth: u16,
    entries: Seq<EntryView>,
)
    ensures
        dictionary_items(input, cursor, depth, entries) matches Ok((all, _, next)) ==> counted(
            cursor,
            next,
            weight_of_entries(all, all.len(), 2, 1) - weight_of_entries(
                entries,
                entries.len(),
                2,
                1,
            ) + 1,
            weight_of_entries(all, all.len(), 1, 0) - weight_of_entries(
                entries,
                entries.len(),
                1,
                0,
            ),
        ),
    decreases input.left(cursor), 3int,
{
    trivia_counts_nothing(input, cursor);
    if let Ok(start) = skip_trivia(input, cursor) {
        if input.left(start) <= input.left(cursor) {
            if let Some(byte) = input.peek(start) {
                if byte == 0x3e && input.followed_by(start, 0x3e) {
                    tokens_count_once(input, start, 2);
                } else if byte == 0x2f {
                    tokens_count_once(input, start, 0);
                    if let Ok((key_span, key, keyed)) = name_at(input, start) {
                        if input.left(keyed) < input.left(cursor) {
                            operands_count_what_they_hold(input, keyed, depth);
                            if let Ok((value, next)) = operand_at(input, keyed, depth) {
                                if input.left(next) < input.left(cursor) {
                                    let entry = EntryView { key_span, key, value };
                                    entries_add_up(entries, entry, 2, 1);
                                    entries_add_up(entries, entry, 1, 0);
                                    entries_are_all_counted(
                                        input,
                                        next,
                                        depth,
                                        entries.push(entry),
                                    );
                                }
                            }
                        }
                    }
                }
            }
        }
    }
}

#[verifier::rlimit(40)]
#[verifier::spinoff_prover]
proof fn operators_are_all_counted(
    input: Input,
    cursor: Cursor,
    operators: Seq<OperatorView>,
    pending: Seq<LocatedView>,
)
    ensures
        operators_from(input, cursor, operators, pending) matches Ok((all, stats)) ==> {
            &&& stats.tokens == cursor.stats.tokens + tokens_of_all(all) - tokens_of_all(operators)
                - tokens_of(pending)
            &&& stats.operands == cursor.stats.operands + operands_of_all(all) - operands_of_all(
                operators,
            ) - operands_of(pending)
        },
    decreases input.left(cursor),
{
    trivia_counts_nothing(input, cursor);
    if let Ok(start) = skip_trivia(input, cursor) {
        if input.left(start) <= input.left(cursor) {
            if let Some(byte) = input.peek(start) {
                if byte == 0x5b || byte == 0x28 || byte == 0x2f || byte == 0x3c {
                    operands_count_what_they_hold(input, start, 0);
                    if let Ok((operand, after)) = operand_at(input, start, 0) {
                        if let Ok((more, next)) = push_pending(input, after, pending, operand) {
                            if input.left(next) < input.left(cursor) {
                                weights_add_up(pending, operand, 2, 1);
                                weights_add_up(pending, operand, 1, 0);
                                operators_are_all_counted(input, next, operators, more);
                            }
                        }
                    }
                } else if !delimiter(byte) {
                    tokens_count_once(input, start, 0);
                    if let Ok((span, next)) = regular_token(input, start) {
                        let token = token_bytes(input, start, next);
                        if input.left(next) < input.left(cursor) {
                            match primitive(token, span) {
                                Ok(Some(operand)) => {
                                    if let Ok(recorded) = record_operand(
                                        next,
                                        Some(operand.extent.start),
                                    ) {
                                        if let Ok((more, last)) = push_pending(
                                            input,
                                            recorded,
                                            pending,
                                            operand,
                                        ) {
                                            weights_add_up(pending, operand, 2, 1);
                                            weights_add_up(pending, operand, 1, 0);
                                            operators_are_all_counted(
                                                input,
                                                last,
                                                operators,
                                                more,
                                            );
                                        }
                                    }
                                },
                                Ok(None) => {
                                    if let Ok((operator, after)) = publish(
                                        input,
                                        next,
                                        token,
                                        span,
                                        pending,
                                    ) {
                                        let all = operators.push(operator);
                                        assert(all.drop_last() =~= operators);
                                        assert(operator.operands == pending);
                                        operators_are_all_counted(input, after, all, Seq::empty());
                                    }
                                },
                                Err(_) => {},
                            }
                        }
                    }
                }
            }
        }
    }
}

/// Every token of a complete scan belongs to one of its operators, to an operand of one, or to what
/// such an operand holds, and the count of operands is that of all of them: no token is dropped, and
/// none is made up.
pub proof fn no_token_is_dropped(input: Input)
    ensures
        scanned(input) matches Ok((operators, stats)) ==> {
            &&& stats.tokens == tokens_of_all(operators)
            &&& stats.operands == operands_of_all(operators)
        },
{
    if let Ok(total) = admit_bytes(input, 0) {
        let start = Cursor {
            stream: 0,
            offset: 0,
            stats: ContentScanStats {
                streams: input.streams.len() as u32,
                total_decoded_bytes: total,
                ..no_scan_work()
            },
        };
        operators_are_all_counted(input, start, Seq::empty(), Seq::empty());
    }
}

} // verus!
