//! What holds of every complete scan.

use vstd::prelude::*;

use crate::content::error::{ContentError, ContentErrorCode, ContentLimitKind};
use crate::content::lexical::{
    hex_value_of, literal_element_len, literal_end, literal_value, name_value, scanned_number,
    ParsedNumber,
};
use crate::content::limits::ContentLimits;
use crate::content::model::{
    no_scan_work, span_extent, ContentProgram, ContentScanStats, ContentStringKind,
    DecodedContentStream, DecodedSpan,
};
use crate::content::scan_model::{
    admit_bytes, array_at, array_items, charge, comment_len, dictionary_at, dictionary_items,
    enter_container, fixed_token, hex_at, hex_stop, literal_at, name_at, name_body, operand_at,
    operators_from, primitive, publish, push_pending, read_run, record_operand, regular_len,
    regular_token, scanned, skip_trivia, token_bytes, token_to, total_bytes, Cursor, Input,
};
use crate::content::scanner::{
    is_refused_request, is_scan_outcome, scan_input, ContentCancellation, NeverCancelled,
};
use crate::content::view::{EntryView, LocatedView, OperandView, OperatorView};

verus! {

/// Bytes from stream `i` on.
pub open spec fn tail_bytes(input: Input, i: int) -> nat
    decreases input.streams.len() - i,
{
    if i < 0 || i >= input.streams.len() {
        0
    } else {
        (input.streams[i].bytes.len() + tail_bytes(input, i + 1)) as nat
    }
}

/// Bytes that a cursor has not passed yet.
pub open spec fn unread(input: Input, cursor: Cursor) -> int {
    tail_bytes(input, cursor.stream) - cursor.offset
}

/// Whether a cursor lies within its stream, or at the very end.
pub open spec fn within(input: Input, cursor: Cursor) -> bool {
    &&& 0 <= cursor.stream <= input.streams.len()
    &&& 0 <= cursor.offset <= input.bytes(cursor.stream).len()
}

/// What every reading step keeps: each byte costs one unit and each token one more, and operators
/// are counted by publication only.
pub open spec fn steps(input: Input, from: Cursor, to: Cursor) -> bool {
    &&& within(input, to)
    &&& to.stats.fuel - to.stats.tokens + unread(input, to) == from.stats.fuel - from.stats.tokens
        + unread(input, from)
    &&& to.stats.operators == from.stats.operators
    &&& to.stats.unknown_operators == from.stats.unknown_operators
    &&& to.stats.total_decoded_bytes == from.stats.total_decoded_bytes
    &&& to.stats.fuel <= input.limits.max_fuel
    &&& to.stats.tokens <= input.limits.max_tokens
}

/// Whether a cursor is one that a scan reaches: within the input and within the budgets.
pub open spec fn starts(input: Input, cursor: Cursor) -> bool {
    &&& input.limits.admissible()
    &&& within(input, cursor)
    &&& cursor.stats.fuel <= input.limits.max_fuel
    &&& cursor.stats.tokens <= input.limits.max_tokens
}

proof fn comment_bounds(bytes: Seq<u8>, i: int)
    requires
        0 <= i <= bytes.len(),
    ensures
        i + comment_len(bytes, i) <= bytes.len(),
    decreases bytes.len() - i,
{
    if i < bytes.len() {
        comment_bounds(bytes, i + 1);
    }
}

pub(crate) proof fn regular_bounds(bytes: Seq<u8>, i: int)
    requires
        0 <= i <= bytes.len(),
    ensures
        i + regular_len(bytes, i) <= bytes.len(),
    decreases bytes.len() - i,
{
    if i < bytes.len() {
        regular_bounds(bytes, i + 1);
    }
}

pub(crate) proof fn hex_bounds(bytes: Seq<u8>, i: int)
    requires
        0 <= i <= bytes.len(),
    ensures
        i <= hex_stop(bytes, i) <= bytes.len(),
    decreases bytes.len() - i,
{
    if i < bytes.len() {
        hex_bounds(bytes, i + 1);
    }
}

pub(crate) proof fn literal_bounds(bytes: Seq<u8>, i: int, open: int)
    requires
        0 <= i,
    ensures
        literal_end(bytes, i, open) matches Some(end) ==> i < end <= bytes.len(),
    decreases bytes.len() - i,
{
    if i < bytes.len() {
        if bytes[i] == 0x28 {
            literal_bounds(bytes, i + 1, open + 1);
        } else if bytes[i] == 0x29 {
            if open != 1 {
                literal_bounds(bytes, i + 1, open - 1);
            }
        } else {
            literal_bounds(bytes, i + literal_element_len(bytes, i), open);
        }
    }
}

pub(crate) proof fn skip_steps(input: Input, cursor: Cursor)
    requires
        starts(input, cursor),
    ensures
        skip_trivia(input, cursor) matches Ok(next) ==> steps(input, cursor, next),
    decreases input.streams.len() - cursor.stream, input.left(cursor),
{
    let bytes = input.bytes(cursor.stream);
    if cursor.stream < input.streams.len() {
        if cursor.offset >= bytes.len() {
            skip_steps(input, Cursor { stream: cursor.stream + 1, offset: 0, ..cursor });
        } else if crate::content::lexical::whitespace(bytes[cursor.offset]) {
            if let Ok(next) = read_run(input, cursor, 1) {
                skip_steps(input, next);
            }
        } else if bytes[cursor.offset] == 0x25 {
            comment_bounds(bytes, cursor.offset);
            if let Ok(next) = read_run(input, cursor, comment_len(bytes, cursor.offset) as int) {
                skip_steps(input, next);
            }
        }
    }
}

/// A token that was read to the cursor from `from`.
proof fn token_steps(input: Input, from: Cursor, cursor: Cursor, start: int)
    requires
        starts(input, from),
        steps(input, from, cursor),
    ensures
        token_to(input, cursor, start) matches Ok((_, next)) ==> steps(input, from, next)
            && next.stream == cursor.stream && next.offset == cursor.offset,
{
}

pub(crate) proof fn regular_steps(input: Input, cursor: Cursor)
    requires
        starts(input, cursor),
    ensures
        regular_token(input, cursor) matches Ok((span, next)) ==> {
            &&& steps(input, cursor, next)
            &&& next.stream == cursor.stream
            &&& span == input.span(cursor.stream, cursor.offset, next.offset)
            &&& cursor.offset < next.offset
        },
{
    let bytes = input.bytes(cursor.stream);
    regular_bounds(bytes, cursor.offset);
    if let Ok(next) = read_run(input, cursor, regular_len(bytes, cursor.offset) as int) {
        token_steps(input, cursor, next, cursor.offset);
    }
}

pub(crate) proof fn name_body_steps(input: Input, cursor: Cursor)
    requires
        starts(input, cursor),
    ensures
        name_body(input, cursor) matches Ok(next) ==> steps(input, cursor, next) && next.stream
            == cursor.stream,
    decreases input.bytes(cursor.stream).len() - cursor.offset,
{
    let bytes = input.bytes(cursor.stream);
    let i = cursor.offset;
    if i < bytes.len() && !crate::content::lexical::delimiter(bytes[i]) {
        if let Ok(stats) = charge(input, cursor.stats, 1, input.at(cursor)) {
            if bytes[i] != 0x23 {
                name_body_steps(input, Cursor { stream: cursor.stream, offset: i + 1, stats });
            } else if i + 2 < bytes.len() {
                if let Ok(stats) = charge(
                    input,
                    stats,
                    2,
                    input.position(cursor.stream, i + 1),
                ) {
                    name_body_steps(
                        input,
                        Cursor { stream: cursor.stream, offset: i + 3, stats },
                    );
                }
            }
        }
    }
}

pub(crate) proof fn name_steps(input: Input, cursor: Cursor)
    requires
        starts(input, cursor),
        cursor.offset < input.bytes(cursor.stream).len(),
    ensures
        name_at(input, cursor) matches Ok((_, _, next)) ==> steps(input, cursor, next),
{
    if let Ok(stats) = charge(input, cursor.stats, 1, input.at(cursor)) {
        let inside = Cursor { stream: cursor.stream, offset: cursor.offset + 1, stats };
        name_body_steps(input, inside);
        if let Ok(end) = name_body(input, inside) {
            token_steps(input, cursor, end, cursor.offset);
        }
    }
}

pub(crate) proof fn string_steps(input: Input, cursor: Cursor)
    requires
        starts(input, cursor),
        cursor.offset < input.bytes(cursor.stream).len(),
    ensures
        literal_at(input, cursor) matches Ok((_, next)) ==> steps(input, cursor, next),
        hex_at(input, cursor) matches Ok((_, next)) ==> steps(input, cursor, next),
{
    let bytes = input.bytes(cursor.stream);
    literal_bounds(bytes, cursor.offset + 1, 1);
    hex_bounds(bytes, cursor.offset + 1);
    if let Some(end) = literal_end(bytes, cursor.offset + 1, 1) {
        if let Ok(next) = read_run(input, cursor, end - cursor.offset) {
            token_steps(input, cursor, next, cursor.offset);
        }
    }
    let stop = hex_stop(bytes, cursor.offset + 1);
    if stop < bytes.len() {
        if let Ok(next) = read_run(input, cursor, stop + 1 - cursor.offset) {
            token_steps(input, cursor, next, cursor.offset);
        }
    }
}

pub(crate) proof fn fixed_steps(input: Input, cursor: Cursor, len: u64)
    requires
        starts(input, cursor),
        cursor.offset + len <= input.bytes(cursor.stream).len(),
        len <= 2,
    ensures
        fixed_token(input, cursor, len) matches Ok((_, next)) ==> steps(input, cursor, next),
{
    if let Ok(stats) = charge(input, cursor.stats, len, input.at(cursor)) {
        let next = Cursor { stream: cursor.stream, offset: cursor.offset + len, stats };
        token_steps(input, cursor, next, cursor.offset);
    }
}

pub(crate) proof fn operand_steps(input: Input, cursor: Cursor, depth: u16)
    requires
        starts(input, cursor),
    ensures
        operand_at(input, cursor, depth) matches Ok((_, next)) ==> steps(input, cursor, next),
    decreases input.left(cursor), 2int,
{
    skip_steps(input, cursor);
    if let Ok(start) = skip_trivia(input, cursor) {
        if input.left(start) <= input.left(cursor) {
            if let Some(byte) = input.peek(start) {
                if byte == 0x5b {
                    array_steps(input, start, depth);
                } else if byte == 0x3c && input.followed_by(start, 0x3c) {
                    dictionary_steps(input, start, depth);
                } else if byte == 0x28 || byte == 0x3c {
                    string_steps(input, start);
                } else if byte == 0x2f {
                    name_steps(input, start);
                } else {
                    regular_steps(input, start);
                }
            }
        }
    }
}

pub(crate) proof fn array_steps(input: Input, cursor: Cursor, depth: u16)
    requires
        starts(input, cursor),
        cursor.offset < input.bytes(cursor.stream).len(),
    ensures
        array_at(input, cursor, depth) matches Ok((_, next)) ==> steps(input, cursor, next),
    decreases input.left(cursor), 1int,
{
    if let Ok(entered) = enter_container(input, cursor, depth) {
        fixed_steps(input, entered, 1);
        if let Ok((_, inside)) = fixed_token(input, entered, 1) {
            if input.left(inside) < input.left(cursor) {
                array_item_steps(input, inside, (depth + 1) as u16, Seq::empty());
            }
        }
    }
}

pub(crate) proof fn array_item_steps(input: Input, cursor: Cursor, depth: u16, values: Seq<LocatedView>)
    requires
        starts(input, cursor),
    ensures
        array_items(input, cursor, depth, values) matches Ok((_, _, next)) ==> steps(
            input,
            cursor,
            next,
        ),
    decreases input.left(cursor), 3int,
{
    skip_steps(input, cursor);
    if let Ok(start) = skip_trivia(input, cursor) {
        if input.left(start) <= input.left(cursor) {
            if let Some(byte) = input.peek(start) {
                if byte == 0x5d {
                    fixed_steps(input, start, 1);
                } else if !(byte == 0x3e && input.followed_by(start, 0x3e)) {
                    operand_steps(input, start, depth);
                    if let Ok((value, next)) = operand_at(input, start, depth) {
                        if input.left(next) < input.left(cursor) {
                            array_item_steps(input, next, depth, values.push(value));
                        }
                    }
                }
            }
        }
    }
}

pub(crate) proof fn dictionary_steps(input: Input, cursor: Cursor, depth: u16)
    requires
        starts(input, cursor),
        cursor.offset + 1 < input.bytes(cursor.stream).len(),
    ensures
        dictionary_at(input, cursor, depth) matches Ok((_, next)) ==> steps(input, cursor, next),
    decreases input.left(cursor), 1int,
{
    if let Ok(entered) = enter_container(input, cursor, depth) {
        fixed_steps(input, entered, 2);
        if let Ok((_, inside)) = fixed_token(input, entered, 2) {
            if input.left(inside) < input.left(cursor) {
                dictionary_item_steps(input, inside, (depth + 1) as u16, Seq::empty());
            }
        }
    }
}

pub(crate) proof fn dictionary_item_steps(
    input: Input,
    cursor: Cursor,
    depth: u16,
    entries: Seq<EntryView>,
)
    requires
        starts(input, cursor),
    ensures
        dictionary_items(input, cursor, depth, entries) matches Ok((_, _, next)) ==> steps(
            input,
            cursor,
            next,
        ),
    decreases input.left(cursor), 3int,
{
    skip_steps(input, cursor);
    if let Ok(start) = skip_trivia(input, cursor) {
        if input.left(start) <= input.left(cursor) {
            if let Some(byte) = input.peek(start) {
                if byte == 0x3e && input.followed_by(start, 0x3e) {
                    fixed_steps(input, start, 2);
                } else if byte == 0x2f {
                    name_steps(input, start);
                    if let Ok((key_span, key, keyed)) = name_at(input, start) {
                        if input.left(keyed) < input.left(cursor) {
                            operand_steps(input, keyed, depth);
                            if let Ok((value, next)) = operand_at(input, keyed, depth) {
                                if input.left(next) < input.left(cursor) {
                                    dictionary_item_steps(
                                        input,
                                        next,
                                        depth,
                                        entries.push(EntryView { key_span, key, value }),
                                    );
                                }
                            }
                        }
                    }
                }
            }
        }
    }
}

/// Whether an operator is evidenced: its ordinal is its place, and its token is exactly the bytes
/// at its span, in the stream that the span names.
pub open spec fn evidenced(input: Input, operator: OperatorView, place: int) -> bool {
    &&& operator.source.page_operator_ordinal == place
    &&& exists|stream: int, start: int, end: int| #[trigger]
        token_here(input, operator, stream, start, end)
}

/// Whether an operator token is the bytes from `start` up to `end` of one stream.
pub open spec fn token_here(
    input: Input,
    operator: OperatorView,
    stream: int,
    start: int,
    end: int,
) -> bool {
    &&& 0 <= stream < input.streams.len()
    &&& 0 <= start < end <= input.bytes(stream).len()
    &&& operator.source.span == input.span(stream, start, end)
    &&& operator.token == input.bytes(stream).subrange(start, end)
}

spec fn all_evidenced(input: Input, operators: Seq<OperatorView>) -> bool {
    forall|i: int|
        0 <= i < operators.len() ==> evidenced(input, #[trigger] operators[i], i)
}

/// Whether the final statistics account for everything that was read from `cursor` on.
spec fn settles(input: Input, cursor: Cursor, stats: ContentScanStats) -> bool {
    &&& stats.fuel - stats.tokens == cursor.stats.fuel - cursor.stats.tokens + unread(input, cursor)
    &&& stats.total_decoded_bytes == cursor.stats.total_decoded_bytes
    &&& stats.fuel <= input.limits.max_fuel
    &&& stats.tokens <= input.limits.max_tokens
}

proof fn operators_settle(
    input: Input,
    cursor: Cursor,
    operators: Seq<OperatorView>,
    pending: Seq<LocatedView>,
)
    requires
        starts(input, cursor),
        all_evidenced(input, operators),
        operators.len() == cursor.stats.operators,
        cursor.stats.operators <= input.limits.max_operators,
    ensures
        operators_from(input, cursor, operators, pending) matches Ok((all, stats)) ==> {
            &&& all_evidenced(input, all)
            &&& all.len() == stats.operators
            &&& stats.operators <= input.limits.max_operators
            &&& settles(input, cursor, stats)
        },
    decreases input.left(cursor),
{
    skip_steps(input, cursor);
    if let Ok(start) = skip_trivia(input, cursor) {
        if input.left(start) <= input.left(cursor) {
            match input.peek(start) {
                None => {
                    skip_ends(input, cursor);
                },
                Some(byte) => {
                    if byte == 0x5b || byte == 0x28 || byte == 0x2f || byte == 0x3c {
                        operand_steps(input, start, 0);
                        if let Ok((operand, next)) = operand_at(input, start, 0) {
                            if let Ok((pending, next)) = push_pending(
                                input,
                                next,
                                pending,
                                operand,
                            ) {
                                if input.left(next) < input.left(cursor) {
                                    operators_settle(input, next, operators, pending);
                                }
                            }
                        }
                    } else if !crate::content::lexical::delimiter(byte) {
                        regular_steps(input, start);
                        if let Ok((span, next)) = regular_token(input, start) {
                            let token = token_bytes(input, start, next);
                            if input.left(next) < input.left(cursor) {
                                match primitive(token, span) {
                                    Ok(Some(operand)) => {
                                        if let Ok(counted) = record_operand(
                                            next,
                                            Some(operand.extent.start),
                                        ) {
                                            if let Ok((pending, next)) = push_pending(
                                                input,
                                                counted,
                                                pending,
                                                operand,
                                            ) {
                                                operators_settle(input, next, operators, pending);
                                            }
                                        }
                                    },
                                    Ok(None) => {
                                        if let Ok((operator, after)) = publish(
                                            input,
                                            next,
                                            token,
                                            span,
                                            pending,
                                        ) {
                                            let all = operators.push(operator);
                                            assert(token_here(
                                                input,
                                                operator,
                                                start.stream,
                                                start.offset,
                                                next.offset,
                                            ));
                                            assert forall|i: int| 0 <= i < all.len() implies
                                                evidenced(input, #[trigger] all[i], i) by {
                                                if i < operators.len() {
                                                    assert(all[i] == operators[i]);
                                                }
                                            }
                                            operators_settle(input, after, all, Seq::empty());
                                        }
                                    },
                                    Err(_) => {},
                                }
                            }
                        }
                    }
                },
            }
        }
    }
}

/// Where nothing is left to peek at, nothing is left unread.
proof fn skip_ends(input: Input, cursor: Cursor)
    requires
        starts(input, cursor),
    ensures
        skip_trivia(input, cursor) matches Ok(next) ==> input.peek(next) is None ==> unread(
            input,
            next,
        ) == 0,
    decreases input.streams.len() - cursor.stream, input.left(cursor),
{
    let bytes = input.bytes(cursor.stream);
    if cursor.stream < input.streams.len() {
        if cursor.offset >= bytes.len() {
            skip_ends(input, Cursor { stream: cursor.stream + 1, offset: 0, ..cursor });
        } else if crate::content::lexical::whitespace(bytes[cursor.offset]) {
            if let Ok(next) = read_run(input, cursor, 1) {
                skip_ends(input, next);
            }
        } else if bytes[cursor.offset] == 0x25 {
            comment_bounds(bytes, cursor.offset);
            if let Ok(next) = read_run(input, cursor, comment_len(bytes, cursor.offset) as int) {
                skip_ends(input, next);
            }
        }
    }
}

proof fn totals_agree(input: Input, i: int)
    requires
        0 <= i <= input.streams.len(),
    ensures
        total_bytes(input.streams, i) + tail_bytes(input, i) == tail_bytes(input, 0),
        total_bytes(input.streams, i) <= tail_bytes(input, 0),
    decreases i,
{
    if i > 0 {
        totals_agree(input, i - 1);
    }
}

pub(crate) proof fn admitted_total(input: Input, i: int)
    requires
        0 <= i <= input.streams.len(),
        input.limits.admissible(),
        total_bytes(input.streams, i) <= input.limits.max_total_decoded_bytes,
    ensures
        admit_bytes(input, i) matches Ok(total) ==> total == tail_bytes(input, 0) && total
            <= input.limits.max_total_decoded_bytes,
    decreases input.streams.len() - i,
{
    totals_agree(input, i);
    if i < input.streams.len() && total_bytes(input.streams, i) + input.streams[i].bytes.len()
        <= input.limits.max_total_decoded_bytes {
        admitted_total(input, i + 1);
    }
}

/// A complete scan reads every byte once: its work is one unit for each decoded byte and one more
/// for each token. It counts every operator, and stays within its budgets.
pub proof fn scan_work_is_linear(input: Input)
    requires
        input.limits.admissible(),
        scanned(input) is Ok,
    ensures
        ({
            let (operators, stats) = scanned(input)->Ok_0;
            &&& stats.total_decoded_bytes == tail_bytes(input, 0)
            &&& stats.fuel == stats.total_decoded_bytes + stats.tokens
            &&& stats.operators == operators.len()
            &&& stats.fuel <= input.limits.max_fuel
            &&& stats.tokens <= input.limits.max_tokens
            &&& stats.operators <= input.limits.max_operators
            &&& stats.total_decoded_bytes <= input.limits.max_total_decoded_bytes
        }),
{
    scan_settles(input);
}

/// Every published operator carries its page-global place, and its token is exactly the bytes at
/// its span.
pub proof fn operators_are_evidenced(input: Input, place: int)
    requires
        input.limits.admissible(),
        scanned(input) is Ok,
        0 <= place < scanned(input)->Ok_0.0.len(),
    ensures
        evidenced(input, scanned(input)->Ok_0.0[place], place),
{
    scan_settles(input);
}

proof fn scan_settles(input: Input)
    requires
        input.limits.admissible(),
        scanned(input) is Ok,
    ensures
        ({
            let (operators, stats) = scanned(input)->Ok_0;
            &&& all_evidenced(input, operators)
            &&& stats.total_decoded_bytes == tail_bytes(input, 0)
            &&& stats.fuel == stats.total_decoded_bytes + stats.tokens
            &&& stats.operators == operators.len()
            &&& stats.fuel <= input.limits.max_fuel
            &&& stats.tokens <= input.limits.max_tokens
            &&& stats.operators <= input.limits.max_operators
            &&& stats.total_decoded_bytes <= input.limits.max_total_decoded_bytes
        }),
{
    admitted_total(input, 0);
    let total = admit_bytes(input, 0)->Ok_0;
    let start = Cursor {
        stream: 0,
        offset: 0,
        stats: ContentScanStats {
            streams: input.streams.len() as u32,
            total_decoded_bytes: total,
            ..no_scan_work()
        },
    };
    operators_settle(input, start, Seq::empty(), Seq::empty());
}

/// Whether an operand that holds no others is what the bytes from `start` up to `end` of one stream
/// denote. A real number keeps those bytes; a name and a string are those bytes decoded.
pub open spec fn denoted(
    input: Input,
    operand: LocatedView,
    stream: int,
    start: int,
    end: int,
) -> bool {
    let token = input.bytes(stream).subrange(start, end);
    &&& 0 <= stream < input.streams.len()
    &&& 0 <= start < end <= input.bytes(stream).len()
    &&& operand.extent == span_extent(input.span(stream, start, end))
    &&& match operand.value {
        OperandView::Integer(value) => scanned_number(token) == Some(ParsedNumber::Integer(value)),
        OperandView::Real(lexeme) => lexeme == token && scanned_number(token) == Some(
            ParsedNumber::Real,
        ),
        OperandView::Name(name) => token[0] == 0x2f && name == name_value(
            token.subrange(1, token.len() as int),
            0,
        ),
        OperandView::String { bytes, kind } => match kind {
            ContentStringKind::Literal => token[0] == 0x28 && bytes == literal_value(
                token.subrange(1, token.len() - 1),
                0,
            ),
            ContentStringKind::Hexadecimal => token[0] == 0x3c && token.last() == 0x3e && bytes
                == hex_value_of(token.subrange(1, token.len() - 1)),
        },
        OperandView::Null => token == seq![0x6eu8, 0x75, 0x6c, 0x6c],
        OperandView::Boolean(value) => token == (if value {
            seq![0x74u8, 0x72, 0x75, 0x65]
        } else {
            seq![0x66u8, 0x61, 0x6c, 0x73, 0x65]
        }),
        _ => false,
    }
}

/// Whether an operand is what bytes of the input denote, and so is everything in it.
pub open spec fn operand_denoted(input: Input, operand: LocatedView) -> bool
    decreases operand,
{
    match operand.value {
        OperandView::Array(values) => forall|i: int|
            0 <= i < values.len() ==> operand_denoted(input, #[trigger] values[i]),
        OperandView::Dictionary(entries) => forall|i: int|
            0 <= i < entries.len() ==> {
                let entry = #[trigger] entries[i];
                &&& key_denoted(input, entry.key, entry.key_span)
                &&& operand_denoted(input, entry.value)
            },
        _ => exists|stream: int, start: int, end: int| #[trigger]
            denoted(input, operand, stream, start, end),
    }
}

/// Whether a dictionary key is what the bytes at its span denote.
pub open spec fn key_denoted(input: Input, key: Seq<u8>, span: DecodedSpan) -> bool {
    exists|stream: int, start: int, end: int| #[trigger]
        denoted(
            input,
            LocatedView { extent: span_extent(span), value: OperandView::Name(key) },
            stream,
            start,
            end,
        )
}

spec fn all_denoted(input: Input, operands: Seq<LocatedView>) -> bool {
    forall|i: int| 0 <= i < operands.len() ==> operand_denoted(input, #[trigger] operands[i])
}

spec fn operators_denoted(input: Input, operators: Seq<OperatorView>) -> bool {
    forall|i: int| 0 <= i < operators.len() ==> all_denoted(input, (#[trigger] operators[i]).operands)
}

/// How many of the first `count` operators no table names.
pub open spec fn unknown_among(operators: Seq<OperatorView>, count: int) -> int
    decreases count,
{
    if count <= 0 {
        0
    } else {
        unknown_among(operators, count - 1) + (if operators[count - 1].known is None {
            1int
        } else {
            0int
        })
    }
}

proof fn unknown_prefix(left: Seq<OperatorView>, right: Seq<OperatorView>, count: int)
    requires
        0 <= count <= left.len(),
        count <= right.len(),
        forall|i: int| 0 <= i < count ==> left[i] == right[i],
    ensures
        unknown_among(left, count) == unknown_among(right, count),
    decreases count,
{
    if count > 0 {
        unknown_prefix(left, right, count - 1);
    }
}

proof fn name_denotes(input: Input, cursor: Cursor)
    requires
        starts(input, cursor),
        cursor.stream < input.streams.len(),
        cursor.offset < input.bytes(cursor.stream).len(),
        input.bytes(cursor.stream)[cursor.offset] == 0x2f,
    ensures
        name_at(input, cursor) matches Ok((span, name, _)) ==> key_denoted(input, name, span),
{
    if let Ok(stats) = charge(input, cursor.stats, 1, input.at(cursor)) {
        let inside = Cursor { stream: cursor.stream, offset: cursor.offset + 1, stats };
        name_body_steps(input, inside);
        name_body_advances(input, inside);
        if let Ok(end) = name_body(input, inside) {
            token_steps(input, cursor, end, cursor.offset);
            let bytes = input.bytes(cursor.stream);
            let token = bytes.subrange(cursor.offset, end.offset);
            assert(token.subrange(1, token.len() as int) =~= bytes.subrange(
                cursor.offset + 1,
                end.offset,
            ));
            if let Ok((span, name, _)) = name_at(input, cursor) {
                assert(denoted(
                    input,
                    LocatedView { extent: span_extent(span), value: OperandView::Name(name) },
                    cursor.stream,
                    cursor.offset,
                    end.offset,
                ));
            }
        }
    }
}

pub(crate) proof fn name_body_advances(input: Input, cursor: Cursor)
    ensures
        name_body(input, cursor) matches Ok(next) ==> cursor.offset <= next.offset,
    decreases input.bytes(cursor.stream).len() - cursor.offset,
{
    let bytes = input.bytes(cursor.stream);
    let i = cursor.offset;
    if 0 <= i < bytes.len() && !crate::content::lexical::delimiter(bytes[i]) {
        if let Ok(stats) = charge(input, cursor.stats, 1, input.at(cursor)) {
            if bytes[i] != 0x23 {
                name_body_advances(input, Cursor { stream: cursor.stream, offset: i + 1, stats });
            } else if i + 2 < bytes.len() {
                if let Ok(stats) = charge(
                    input,
                    stats,
                    2,
                    input.position(cursor.stream, i + 1),
                ) {
                    name_body_advances(
                        input,
                        Cursor { stream: cursor.stream, offset: i + 3, stats },
                    );
                }
            }
        }
    }
}

proof fn string_denotes(input: Input, cursor: Cursor)
    requires
        starts(input, cursor),
        cursor.stream < input.streams.len(),
        cursor.offset < input.bytes(cursor.stream).len(),
    ensures
        input.bytes(cursor.stream)[cursor.offset] == 0x28 ==> (literal_at(input, cursor) matches Ok(
            (value, _),
        ) ==> operand_denoted(input, value)),
        input.bytes(cursor.stream)[cursor.offset] == 0x3c ==> (hex_at(input, cursor) matches Ok(
            (value, _),
        ) ==> operand_denoted(input, value)),
{
    let bytes = input.bytes(cursor.stream);
    literal_bounds(bytes, cursor.offset + 1, 1);
    hex_bounds(bytes, cursor.offset + 1);
    if let Some(end) = literal_end(bytes, cursor.offset + 1, 1) {
        if let Ok((value, _)) = literal_at(input, cursor) {
            if bytes[cursor.offset] == 0x28 {
                let token = bytes.subrange(cursor.offset, end);
                assert(token.subrange(1, token.len() - 1) =~= bytes.subrange(
                    cursor.offset + 1,
                    end - 1,
                ));
                assert(denoted(input, value, cursor.stream, cursor.offset, end));
            }
        }
    }
    let stop = hex_stop(bytes, cursor.offset + 1);
    if stop < bytes.len() {
        if let Ok((value, _)) = hex_at(input, cursor) {
            if bytes[cursor.offset] == 0x3c {
                let token = bytes.subrange(cursor.offset, stop + 1);
                assert(token.subrange(1, token.len() - 1) =~= bytes.subrange(
                    cursor.offset + 1,
                    stop,
                ));
                assert(denoted(input, value, cursor.stream, cursor.offset, stop + 1));
            }
        }
    }
}

proof fn regular_denotes(input: Input, cursor: Cursor)
    requires
        starts(input, cursor),
        cursor.stream < input.streams.len(),
    ensures
        regular_token(input, cursor) matches Ok((span, next)) ==> (primitive(
            token_bytes(input, cursor, next),
            span,
        ) matches Ok(Some(operand)) ==> operand_denoted(input, operand)),
{
    regular_steps(input, cursor);
    if let Ok((span, next)) = regular_token(input, cursor) {
        if let Ok(Some(operand)) = primitive(token_bytes(input, cursor, next), span) {
            assert(denoted(input, operand, cursor.stream, cursor.offset, next.offset));
        }
    }
}

proof fn operand_denotes(input: Input, cursor: Cursor, depth: u16)
    requires
        starts(input, cursor),
    ensures
        operand_at(input, cursor, depth) matches Ok((value, _)) ==> operand_denoted(input, value),
    decreases input.left(cursor), 2int,
{
    skip_steps(input, cursor);
    if let Ok(start) = skip_trivia(input, cursor) {
        if input.left(start) <= input.left(cursor) {
            if let Some(byte) = input.peek(start) {
                if byte == 0x5b {
                    array_denotes(input, start, depth);
                } else if byte == 0x3c && input.followed_by(start, 0x3c) {
                    dictionary_denotes(input, start, depth);
                } else if byte == 0x28 || byte == 0x3c {
                    string_denotes(input, start);
                } else if byte == 0x2f {
                    name_denotes(input, start);
                } else {
                    regular_denotes(input, start);
                }
            }
        }
    }
}

proof fn array_denotes(input: Input, cursor: Cursor, depth: u16)
    requires
        starts(input, cursor),
        cursor.offset < input.bytes(cursor.stream).len(),
    ensures
        array_at(input, cursor, depth) matches Ok((value, _)) ==> operand_denoted(input, value),
    decreases input.left(cursor), 1int,
{
    if let Ok(entered) = enter_container(input, cursor, depth) {
        fixed_steps(input, entered, 1);
        if let Ok((_, inside)) = fixed_token(input, entered, 1) {
            if input.left(inside) < input.left(cursor) {
                array_items_denote(input, inside, (depth + 1) as u16, Seq::empty());
            }
        }
    }
}

proof fn array_items_denote(input: Input, cursor: Cursor, depth: u16, values: Seq<LocatedView>)
    requires
        starts(input, cursor),
        all_denoted(input, values),
    ensures
        array_items(input, cursor, depth, values) matches Ok((all, _, _)) ==> all_denoted(
            input,
            all,
        ),
    decreases input.left(cursor), 3int,
{
    skip_steps(input, cursor);
    if let Ok(start) = skip_trivia(input, cursor) {
        if input.left(start) <= input.left(cursor) {
            if let Some(byte) = input.peek(start) {
                if byte != 0x5d && !(byte == 0x3e && input.followed_by(start, 0x3e)) {
                    operand_steps(input, start, depth);
                    operand_denotes(input, start, depth);
                    if let Ok((value, next)) = operand_at(input, start, depth) {
                        if input.left(next) < input.left(cursor) {
                            array_items_denote(input, next, depth, values.push(value));
                        }
                    }
                }
            }
        }
    }
}

spec fn entries_denoted(input: Input, entries: Seq<EntryView>) -> bool {
    forall|i: int|
        0 <= i < entries.len() ==> {
            let entry = #[trigger] entries[i];
            &&& key_denoted(input, entry.key, entry.key_span)
            &&& operand_denoted(input, entry.value)
        }
}

proof fn dictionary_denotes(input: Input, cursor: Cursor, depth: u16)
    requires
        starts(input, cursor),
        cursor.offset + 1 < input.bytes(cursor.stream).len(),
    ensures
        dictionary_at(input, cursor, depth) matches Ok((value, _)) ==> operand_denoted(
            input,
            value,
        ),
    decreases input.left(cursor), 1int,
{
    if let Ok(entered) = enter_container(input, cursor, depth) {
        fixed_steps(input, entered, 2);
        if let Ok((_, inside)) = fixed_token(input, entered, 2) {
            if input.left(inside) < input.left(cursor) {
                dictionary_items_denote(input, inside, (depth + 1) as u16, Seq::empty());
            }
        }
    }
}

proof fn dictionary_items_denote(
    input: Input,
    cursor: Cursor,
    depth: u16,
    entries: Seq<EntryView>,
)
    requires
        starts(input, cursor),
        entries_denoted(input, entries),
    ensures
        dictionary_items(input, cursor, depth, entries) matches Ok((all, _, _)) ==> entries_denoted(
            input,
            all,
        ),
    decreases input.left(cursor), 3int,
{
    skip_steps(input, cursor);
    if let Ok(start) = skip_trivia(input, cursor) {
        if input.left(start) <= input.left(cursor) {
            if let Some(byte) = input.peek(start) {
                if byte == 0x2f {
                    name_steps(input, start);
                    name_denotes(input, start);
                    if let Ok((key_span, key, keyed)) = name_at(input, start) {
                        if input.left(keyed) < input.left(cursor) {
                            operand_steps(input, keyed, depth);
                            operand_denotes(input, keyed, depth);
                            if let Ok((value, next)) = operand_at(input, keyed, depth) {
                                if input.left(next) < input.left(cursor) {
                                    dictionary_items_denote(
                                        input,
                                        next,
                                        depth,
                                        entries.push(EntryView { key_span, key, value }),
                                    );
                                }
                            }
                        }
                    }
                }
            }
        }
    }
}

proof fn operators_denote(
    input: Input,
    cursor: Cursor,
    operators: Seq<OperatorView>,
    pending: Seq<LocatedView>,
)
    requires
        starts(input, cursor),
        operators_denoted(input, operators),
        all_denoted(input, pending),
        cursor.stats.unknown_operators == unknown_among(operators, operators.len() as int),
    ensures
        operators_from(input, cursor, operators, pending) matches Ok((all, stats)) ==> {
            &&& operators_denoted(input, all)
            &&& stats.unknown_operators == unknown_among(all, all.len() as int)
        },
    decreases input.left(cursor),
{
    skip_steps(input, cursor);
    if let Ok(start) = skip_trivia(input, cursor) {
        if input.left(start) <= input.left(cursor) {
            if let Some(byte) = input.peek(start) {
                if byte == 0x5b || byte == 0x28 || byte == 0x2f || byte == 0x3c {
                    operand_steps(input, start, 0);
                    operand_denotes(input, start, 0);
                    if let Ok((operand, next)) = operand_at(input, start, 0) {
                        if let Ok((pending, next)) = push_pending(input, next, pending, operand) {
                            if input.left(next) < input.left(cursor) {
                                operators_denote(input, next, operators, pending);
                            }
                        }
                    }
                } else if !crate::content::lexical::delimiter(byte) {
                    regular_steps(input, start);
                    regular_denotes(input, start);
                    if let Ok((span, next)) = regular_token(input, start) {
                        let token = token_bytes(input, start, next);
                        if input.left(next) < input.left(cursor) {
                            match primitive(token, span) {
                                Ok(Some(operand)) => {
                                    if let Ok(counted) = record_operand(
                                        next,
                                        Some(operand.extent.start),
                                    ) {
                                        if let Ok((pending, next)) = push_pending(
                                            input,
                                            counted,
                                            pending,
                                            operand,
                                        ) {
                                            operators_denote(input, next, operators, pending);
                                        }
                                    }
                                },
                                Ok(None) => {
                                    if let Ok((operator, after)) = publish(
                                        input,
                                        next,
                                        token,
                                        span,
                                        pending,
                                    ) {
                                        let all = operators.push(operator);
                                        unknown_prefix(all, operators, operators.len() as int);
                                        operators_denote(input, after, all, Seq::empty());
                                    }
                                },
                                Err(_) => {},
                            }
                        }
                    }
                }
            }
        }
    }
}

/// Every operand of every published operator is what bytes of the input denote, at its extent: a
/// real number keeps its bytes, and a name and a string are their tokens decoded.
pub proof fn operands_are_their_tokens(input: Input, place: int, i: int)
    requires
        input.limits.admissible(),
        scanned(input) is Ok,
        0 <= place < scanned(input)->Ok_0.0.len(),
        0 <= i < scanned(input)->Ok_0.0[place].operands.len(),
    ensures
        operand_denoted(input, scanned(input)->Ok_0.0[place].operands[i]),
{
    scan_denotes(input);
}

/// The statistic counts the published operators that no table names.
pub proof fn unknown_operators_are_counted(input: Input)
    requires
        input.limits.admissible(),
        scanned(input) is Ok,
    ensures
        ({
            let (operators, stats) = scanned(input)->Ok_0;
            stats.unknown_operators == unknown_among(operators, operators.len() as int)
        }),
{
    scan_denotes(input);
}

proof fn scan_denotes(input: Input)
    requires
        input.limits.admissible(),
        scanned(input) is Ok,
    ensures
        ({
            let (operators, stats) = scanned(input)->Ok_0;
            &&& operators_denoted(input, operators)
            &&& stats.unknown_operators == unknown_among(operators, operators.len() as int)
        }),
{
    admitted_total(input, 0);
    let total = admit_bytes(input, 0)->Ok_0;
    let start = Cursor {
        stream: 0,
        offset: 0,
        stats: ContentScanStats {
            streams: input.streams.len() as u32,
            total_decoded_bytes: total,
            ..no_scan_work()
        },
    };
    operators_denote(input, start, Seq::empty(), Seq::empty());
}

/// Whether a failure that names a budget reports a charge within its ceiling, and a step beyond it.
pub open spec fn exceeds_its_budget(error: ContentError) -> bool {
    error.limit matches Some(limit) ==> limit.kind == ContentLimitKind::Allocation || (limit.consumed
        <= limit.limit && limit.consumed + limit.attempted > limit.limit)
}

proof fn skip_exceeds(input: Input, cursor: Cursor)
    requires
        starts(input, cursor),
    ensures
        skip_trivia(input, cursor) matches Err(error) ==> exceeds_its_budget(error),
    decreases input.streams.len() - cursor.stream, input.left(cursor),
{
    let bytes = input.bytes(cursor.stream);
    if cursor.stream < input.streams.len() {
        if cursor.offset >= bytes.len() {
            skip_exceeds(input, Cursor { stream: cursor.stream + 1, offset: 0, ..cursor });
        } else if crate::content::lexical::whitespace(bytes[cursor.offset]) {
            if let Ok(next) = read_run(input, cursor, 1) {
                skip_exceeds(input, next);
            }
        } else if bytes[cursor.offset] == 0x25 {
            comment_bounds(bytes, cursor.offset);
            if let Ok(next) = read_run(input, cursor, comment_len(bytes, cursor.offset) as int) {
                skip_exceeds(input, next);
            }
        }
    }
}

proof fn name_exceeds(input: Input, cursor: Cursor)
    requires
        starts(input, cursor),
        cursor.offset < input.bytes(cursor.stream).len(),
    ensures
        name_at(input, cursor) matches Err(error) ==> exceeds_its_budget(error),
{
    if let Ok(stats) = charge(input, cursor.stats, 1, input.at(cursor)) {
        let inside = Cursor { stream: cursor.stream, offset: cursor.offset + 1, stats };
        name_body_steps(input, inside);
        name_body_exceeds(input, inside);
    }
}

proof fn name_body_exceeds(input: Input, cursor: Cursor)
    requires
        starts(input, cursor),
    ensures
        name_body(input, cursor) matches Err(error) ==> exceeds_its_budget(error),
    decreases input.bytes(cursor.stream).len() - cursor.offset,
{
    let bytes = input.bytes(cursor.stream);
    let i = cursor.offset;
    if i < bytes.len() && !crate::content::lexical::delimiter(bytes[i]) {
        if let Ok(stats) = charge(input, cursor.stats, 1, input.at(cursor)) {
            if bytes[i] != 0x23 {
                name_body_exceeds(input, Cursor { stream: cursor.stream, offset: i + 1, stats });
            } else if i + 2 < bytes.len() {
                if let Ok(stats) = charge(
                    input,
                    stats,
                    2,
                    input.position(cursor.stream, i + 1),
                ) {
                    name_body_exceeds(
                        input,
                        Cursor { stream: cursor.stream, offset: i + 3, stats },
                    );
                }
            }
        }
    }
}

proof fn string_exceeds(input: Input, cursor: Cursor)
    requires
        starts(input, cursor),
        cursor.offset < input.bytes(cursor.stream).len(),
    ensures
        literal_at(input, cursor) matches Err(error) ==> exceeds_its_budget(error),
        hex_at(input, cursor) matches Err(error) ==> exceeds_its_budget(error),
{
    let bytes = input.bytes(cursor.stream);
    literal_bounds(bytes, cursor.offset + 1, 1);
    hex_bounds(bytes, cursor.offset + 1);
}

proof fn regular_exceeds(input: Input, cursor: Cursor)
    requires
        starts(input, cursor),
    ensures
        regular_token(input, cursor) matches Err(error) ==> exceeds_its_budget(error),
{
    regular_bounds(input.bytes(cursor.stream), cursor.offset);
}

proof fn operand_exceeds(input: Input, cursor: Cursor, depth: u16)
    requires
        starts(input, cursor),
        depth <= input.limits.max_nesting_depth,
    ensures
        operand_at(input, cursor, depth) matches Err(error) ==> exceeds_its_budget(error),
    decreases input.left(cursor), 2int,
{
    skip_steps(input, cursor);
    skip_exceeds(input, cursor);
    if let Ok(start) = skip_trivia(input, cursor) {
        if input.left(start) <= input.left(cursor) {
            if let Some(byte) = input.peek(start) {
                if byte == 0x5b {
                    array_exceeds(input, start, depth);
                } else if byte == 0x3c && input.followed_by(start, 0x3c) {
                    dictionary_exceeds(input, start, depth);
                } else if byte == 0x28 || byte == 0x3c {
                    string_exceeds(input, start);
                } else if byte == 0x2f {
                    name_exceeds(input, start);
                } else {
                    regular_exceeds(input, start);
                }
            }
        }
    }
}

proof fn array_exceeds(input: Input, cursor: Cursor, depth: u16)
    requires
        starts(input, cursor),
        cursor.offset < input.bytes(cursor.stream).len(),
        depth <= input.limits.max_nesting_depth,
    ensures
        array_at(input, cursor, depth) matches Err(error) ==> exceeds_its_budget(error),
    decreases input.left(cursor), 1int,
{
    if let Ok(entered) = enter_container(input, cursor, depth) {
        fixed_steps(input, entered, 1);
        if let Ok((_, inside)) = fixed_token(input, entered, 1) {
            if input.left(inside) < input.left(cursor) {
                array_items_exceed(input, inside, (depth + 1) as u16, Seq::empty());
            }
        }
    }
}

proof fn array_items_exceed(input: Input, cursor: Cursor, depth: u16, values: Seq<LocatedView>)
    requires
        starts(input, cursor),
        depth <= input.limits.max_nesting_depth,
    ensures
        array_items(input, cursor, depth, values) matches Err(error) ==> exceeds_its_budget(error),
    decreases input.left(cursor), 3int,
{
    skip_steps(input, cursor);
    skip_exceeds(input, cursor);
    if let Ok(start) = skip_trivia(input, cursor) {
        if input.left(start) <= input.left(cursor) {
            if let Some(byte) = input.peek(start) {
                if byte != 0x5d && !(byte == 0x3e && input.followed_by(start, 0x3e)) {
                    operand_steps(input, start, depth);
                    operand_exceeds(input, start, depth);
                    if let Ok((value, next)) = operand_at(input, start, depth) {
                        if input.left(next) < input.left(cursor) {
                            array_items_exceed(input, next, depth, values.push(value));
                        }
                    }
                }
            }
        }
    }
}

proof fn dictionary_exceeds(input: Input, cursor: Cursor, depth: u16)
    requires
        starts(input, cursor),
        cursor.offset + 1 < input.bytes(cursor.stream).len(),
        depth <= input.limits.max_nesting_depth,
    ensures
        dictionary_at(input, cursor, depth) matches Err(error) ==> exceeds_its_budget(error),
    decreases input.left(cursor), 1int,
{
    if let Ok(entered) = enter_container(input, cursor, depth) {
        fixed_steps(input, entered, 2);
        if let Ok((_, inside)) = fixed_token(input, entered, 2) {
            if input.left(inside) < input.left(cursor) {
                dictionary_items_exceed(input, inside, (depth + 1) as u16, Seq::empty());
            }
        }
    }
}

proof fn dictionary_items_exceed(
    input: Input,
    cursor: Cursor,
    depth: u16,
    entries: Seq<EntryView>,
)
    requires
        starts(input, cursor),
        depth <= input.limits.max_nesting_depth,
    ensures
        dictionary_items(input, cursor, depth, entries) matches Err(error) ==> exceeds_its_budget(
            error,
        ),
    decreases input.left(cursor), 3int,
{
    skip_steps(input, cursor);
    skip_exceeds(input, cursor);
    if let Ok(start) = skip_trivia(input, cursor) {
        if input.left(start) <= input.left(cursor) {
            if let Some(byte) = input.peek(start) {
                if byte == 0x2f {
                    name_steps(input, start);
                    name_exceeds(input, start);
                    if let Ok((key_span, key, keyed)) = name_at(input, start) {
                        if input.left(keyed) < input.left(cursor) {
                            operand_steps(input, keyed, depth);
                            operand_exceeds(input, keyed, depth);
                            if let Ok((value, next)) = operand_at(input, keyed, depth) {
                                if input.left(next) < input.left(cursor) {
                                    dictionary_items_exceed(
                                        input,
                                        next,
                                        depth,
                                        entries.push(EntryView { key_span, key, value }),
                                    );
                                }
                            }
                        }
                    }
                }
            }
        }
    }
}

proof fn operators_exceed(
    input: Input,
    cursor: Cursor,
    operators: Seq<OperatorView>,
    pending: Seq<LocatedView>,
)
    requires
        starts(input, cursor),
        cursor.stats.operators <= input.limits.max_operators,
        pending.len() <= input.limits.max_operands_per_operator,
    ensures
        operators_from(input, cursor, operators, pending) matches Err(error) ==> exceeds_its_budget(
            error,
        ),
    decreases input.left(cursor),
{
    skip_steps(input, cursor);
    skip_exceeds(input, cursor);
    if let Ok(start) = skip_trivia(input, cursor) {
        if input.left(start) <= input.left(cursor) {
            if let Some(byte) = input.peek(start) {
                if byte == 0x5b || byte == 0x28 || byte == 0x2f || byte == 0x3c {
                    operand_steps(input, start, 0);
                    operand_exceeds(input, start, 0);
                    if let Ok((operand, next)) = operand_at(input, start, 0) {
                        if let Ok((pending, next)) = push_pending(input, next, pending, operand) {
                            if input.left(next) < input.left(cursor) {
                                operators_exceed(input, next, operators, pending);
                            }
                        }
                    }
                } else if !crate::content::lexical::delimiter(byte) {
                    regular_steps(input, start);
                    regular_exceeds(input, start);
                    if let Ok((span, next)) = regular_token(input, start) {
                        let token = token_bytes(input, start, next);
                        if input.left(next) < input.left(cursor) {
                            match primitive(token, span) {
                                Ok(Some(operand)) => {
                                    if let Ok(counted) = record_operand(
                                        next,
                                        Some(operand.extent.start),
                                    ) {
                                        if let Ok((pending, next)) = push_pending(
                                            input,
                                            counted,
                                            pending,
                                            operand,
                                        ) {
                                            operators_exceed(input, next, operators, pending);
                                        }
                                    }
                                },
                                Ok(None) => {
                                    if let Ok((operator, after)) = publish(
                                        input,
                                        next,
                                        token,
                                        span,
                                        pending,
                                    ) {
                                        operators_exceed(
                                            input,
                                            after,
                                            operators.push(operator),
                                            Seq::empty(),
                                        );
                                    }
                                },
                                Err(_) => {},
                            }
                        }
                    }
                }
            }
        }
    }
}

proof fn admission_exceeds(input: Input, i: int)
    requires
        0 <= i <= input.streams.len(),
        input.limits.admissible(),
        total_bytes(input.streams, i) <= input.limits.max_total_decoded_bytes,
        forall|k: int| 0 <= k < input.streams.len() ==> (#[trigger] input.streams[k]).bytes.len()
            <= u64::MAX,
    ensures
        admit_bytes(input, i) matches Err(error) ==> exceeds_its_budget(error),
    decreases input.streams.len() - i,
{
    if i < input.streams.len() && total_bytes(input.streams, i) + input.streams[i].bytes.len()
        <= input.limits.max_total_decoded_bytes {
        admission_exceeds(input, i + 1);
    }
}

/// A scan that a budget stops had charged no more than that budget before, and would have passed it.
pub proof fn scan_failures_exceed_their_budget(input: Input)
    requires
        input.limits.admissible(),
        input.streams.len() <= u64::MAX,
        forall|k: int| 0 <= k < input.streams.len() ==> (#[trigger] input.streams[k]).bytes.len()
            <= u64::MAX,
    ensures
        scanned(input) matches Err(error) ==> exceeds_its_budget(error),
{
    admission_exceeds(input, 0);
    admitted_total(input, 0);
    if let Ok(total) = admit_bytes(input, 0) {
        let start = Cursor {
            stream: 0,
            offset: 0,
            stats: ContentScanStats {
                streams: input.streams.len() as u32,
                total_decoded_bytes: total,
                ..no_scan_work()
            },
        };
        operators_exceed(input, start, Seq::empty(), Seq::empty());
    }
}

/// A scan under the cancellation that never stops is not cancelled: it ends in what its content
/// denotes, unless the retained budget or the allocator refuses what it asks for.
pub proof fn scans_that_nobody_cancels_are_not_cancelled(
    streams: Seq<DecodedContentStream<'_>>,
    limits: ContentLimits,
    cancellation: &NeverCancelled,
    outcome: Result<ContentProgram, ContentError>,
)
    requires
        is_scan_outcome(
            streams,
            limits,
            outcome,
            call_ensures(NeverCancelled::is_cancelled, (cancellation,), true),
            call_ensures(NeverCancelled::is_cancelled, (cancellation,), false),
        ),
    ensures
        outcome matches Err(error) ==> {
            let expected = scanned(scan_input(streams, limits));
            ||| error.code == ContentErrorCode::ResourceLimit && is_refused_request(error, limits@)
            ||| expected is Err && expected->Err_0 == error
        },
{
}

} // verus!
