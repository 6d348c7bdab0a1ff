//! What a content scan publishes, and what it charges on the way.

use vstd::prelude::*;

use crate::content::error::{
    content_failure, content_resource, ContentError, ContentErrorCode, ContentLimitKind,
};
use crate::content::lexical::{
    delimiter, hex_of, hex_value_of, literal_end, literal_value, name_value, number_start,
    scanned_number, whitespace, ParsedNumber,
};
use crate::content::limits::ContentLimitConfig;
use crate::content::model::{
    decoded_span, span_extent, ContentExtent, ContentOperatorSource, ContentPosition,
    ContentScanStats, ContentStringKind, DecodedSpan, ObjectRef,
};
use crate::content::operator::kind_of_token;
use crate::content::view::{EntryView, LocatedView, OperandView, OperatorView};

verus! {

/// One decoded stream.
pub struct StreamView {
    pub object: ObjectRef,
    pub ordinal: u32,
    pub bytes: Seq<u8>,
}

/// Where a scan stands, and what it has charged.
pub struct Cursor {
    pub stream: int,
    pub offset: int,
    pub stats: ContentScanStats,
}

/// What a scan reads, and the budgets that it is held to.
pub struct Input {
    pub streams: Seq<StreamView>,
    pub limits: ContentLimitConfig,
}

impl Input {
    /// The bytes of one stream.
    pub open spec fn bytes(self, stream: int) -> Seq<u8> {
        if 0 <= stream < self.streams.len() {
            self.streams[stream].bytes
        } else {
            Seq::empty()
        }
    }

    /// A position in one stream.
    pub open spec fn position(self, stream: int, offset: int) -> Option<ContentPosition> {
        if 0 <= stream < self.streams.len() {
            Some(
                ContentPosition {
                    object: self.streams[stream].object,
                    stream_ordinal: self.streams[stream].ordinal,
                    decoded_offset: offset as u64,
                },
            )
        } else {
            None
        }
    }

    /// The end of the last stream.
    pub open spec fn final_position(self) -> Option<ContentPosition> {
        let last = self.streams.len() - 1;
        self.position(last, self.bytes(last).len() as int)
    }

    /// A span in one stream.
    pub open spec fn span(self, stream: int, start: int, end: int) -> DecodedSpan {
        decoded_span(
            self.streams[stream].object,
            self.streams[stream].ordinal,
            start,
            end - start,
        )
    }

    /// Bytes and stream ends from stream `i` on.
    pub open spec fn tail(self, i: int) -> nat
        decreases self.streams.len() - i,
    {
        if i < 0 || i >= self.streams.len() {
            0
        } else {
            (self.streams[i].bytes.len() + 1 + self.tail(i + 1)) as nat
        }
    }

    /// How much is left to read.
    pub open spec fn left(self, cursor: Cursor) -> nat {
        if self.tail(cursor.stream) > cursor.offset {
            (self.tail(cursor.stream) - cursor.offset) as nat
        } else {
            0
        }
    }

    /// The position of a cursor.
    pub open spec fn at(self, cursor: Cursor) -> Option<ContentPosition> {
        self.position(cursor.stream, cursor.offset)
    }

    /// The next byte.
    pub open spec fn peek(self, cursor: Cursor) -> Option<u8> {
        if 0 <= cursor.offset < self.bytes(cursor.stream).len() {
            Some(self.bytes(cursor.stream)[cursor.offset])
        } else {
            None
        }
    }

    /// Whether the byte after the next one is `byte`.
    pub open spec fn followed_by(self, cursor: Cursor, byte: u8) -> bool {
        0 <= cursor.offset + 1 < self.bytes(cursor.stream).len() && self.bytes(
            cursor.stream,
        )[cursor.offset + 1] == byte
    }
}

/// Charges work at one position.
pub open spec fn charge(
    input: Input,
    stats: ContentScanStats,
    amount: u64,
    position: Option<ContentPosition>,
) -> Result<ContentScanStats, ContentError> {
    if stats.fuel + amount > input.limits.max_fuel {
        Err(
            content_resource(
                ContentLimitKind::Fuel,
                input.limits.max_fuel,
                stats.fuel,
                amount,
                position,
            ),
        )
    } else {
        Ok(ContentScanStats { fuel: (stats.fuel + amount) as u64, ..stats })
    }
}

/// Reads `count` bytes at one unit of work each; fails at the first byte that the budget does not
/// cover.
pub open spec fn read_run(input: Input, cursor: Cursor, count: int) -> Result<
    Cursor,
    ContentError,
> {
    let max = input.limits.max_fuel;
    if cursor.stats.fuel + count > max {
        Err(
            content_resource(
                ContentLimitKind::Fuel,
                max,
                max,
                1,
                input.position(cursor.stream, cursor.offset + (max - cursor.stats.fuel)),
            ),
        )
    } else {
        Ok(
            Cursor {
                stream: cursor.stream,
                offset: cursor.offset + count,
                stats: ContentScanStats {
                    fuel: (cursor.stats.fuel + count) as u64,
                    ..cursor.stats
                },
            },
        )
    }
}

/// Charges one token.
pub open spec fn charge_token(input: Input, stats: ContentScanStats, span: DecodedSpan) -> Result<
    ContentScanStats,
    ContentError,
> {
    let start = Some(span.spec_start_position());
    if span.spec_len() > input.limits.max_token_bytes {
        Err(
            content_resource(
                ContentLimitKind::TokenBytes,
                input.limits.max_token_bytes,
                0,
                span.spec_len(),
                start,
            ),
        )
    } else if stats.tokens >= input.limits.max_tokens {
        Err(
            content_resource(
                ContentLimitKind::Tokens,
                input.limits.max_tokens,
                stats.tokens,
                1,
                start,
            ),
        )
    } else {
        match charge(input, stats, 1, start) {
            Err(error) => Err(error),
            Ok(charged) => Ok(
                ContentScanStats {
                    tokens: (charged.tokens + 1) as u64,
                    max_token_bytes: if charged.max_token_bytes < span.spec_len() {
                        span.spec_len()
                    } else {
                        charged.max_token_bytes
                    },
                    ..charged
                },
            ),
        }
    }
}

/// A token that ends at the cursor.
pub open spec fn token_to(input: Input, cursor: Cursor, start: int) -> Result<
    (DecodedSpan, Cursor),
    ContentError,
> {
    let span = input.span(cursor.stream, start, cursor.offset);
    match charge_token(input, cursor.stats, span) {
        Err(error) => Err(error),
        Ok(stats) => Ok((span, Cursor { stats, ..cursor })),
    }
}

/// Length of the comment at `i`, with its end of line.
pub open spec fn comment_len(bytes: Seq<u8>, i: int) -> nat
    decreases bytes.len() - i,
{
    if i < 0 || i >= bytes.len() {
        0
    } else if bytes[i] == 13 || bytes[i] == 10 {
        1
    } else {
        1 + comment_len(bytes, i + 1)
    }
}

/// Skips white space, comments and stream boundaries.
pub open spec fn skip_trivia(input: Input, cursor: Cursor) -> Result<Cursor, ContentError>
    decreases input.streams.len() - cursor.stream, input.left(cursor),
{
    let bytes = input.bytes(cursor.stream);
    if cursor.stream < 0 || cursor.offset < 0 || cursor.stream >= input.streams.len() {
        Ok(cursor)
    } else if cursor.offset >= bytes.len() {
        skip_trivia(input, Cursor { stream: cursor.stream + 1, offset: 0, ..cursor })
    } else if whitespace(bytes[cursor.offset]) {
        match read_run(input, cursor, 1) {
            Err(error) => Err(error),
            Ok(next) => skip_trivia(input, next),
        }
    } else if bytes[cursor.offset] == 0x25 {
        match read_run(input, cursor, comment_len(bytes, cursor.offset) as int) {
            Err(error) => Err(error),
            Ok(next) => skip_trivia(input, next),
        }
    } else {
        Ok(cursor)
    }
}

/// Length of the regular token at `i`.
pub open spec fn regular_len(bytes: Seq<u8>, i: int) -> nat
    decreases bytes.len() - i,
{
    if i < 0 || i >= bytes.len() || delimiter(bytes[i]) {
        0
    } else {
        1 + regular_len(bytes, i + 1)
    }
}

/// Reads one regular token.
pub open spec fn regular_token(input: Input, cursor: Cursor) -> Result<
    (DecodedSpan, Cursor),
    ContentError,
> {
    let len = regular_len(input.bytes(cursor.stream), cursor.offset);
    if len == 0 {
        Err(content_failure(ContentErrorCode::MalformedToken, input.at(cursor)))
    } else {
        match read_run(input, cursor, len as int) {
            Err(error) => Err(error),
            Ok(next) => token_to(input, next, cursor.offset),
        }
    }
}

/// Reads one delimiter token of `len` bytes.
pub open spec fn fixed_token(input: Input, cursor: Cursor, len: u64) -> Result<
    (DecodedSpan, Cursor),
    ContentError,
> {
    match charge(input, cursor.stats, len, input.at(cursor)) {
        Err(error) => Err(error),
        Ok(stats) => token_to(
            input,
            Cursor { stream: cursor.stream, offset: cursor.offset + len, stats },
            cursor.offset,
        ),
    }
}

/// Reads the bytes of a name behind its slash.
pub open spec fn name_body(input: Input, cursor: Cursor) -> Result<Cursor, ContentError>
    decreases input.bytes(cursor.stream).len() - cursor.offset,
{
    let bytes = input.bytes(cursor.stream);
    let i = cursor.offset;
    if i < 0 || i >= bytes.len() || delimiter(bytes[i]) {
        Ok(cursor)
    } else {
        match charge(input, cursor.stats, 1, input.at(cursor)) {
            Err(error) => Err(error),
            Ok(stats) => if bytes[i] != 0x23 {
                name_body(input, Cursor { stream: cursor.stream, offset: i + 1, stats })
            } else if i + 2 >= bytes.len() || hex_of(bytes[i + 1]) is None || hex_of(
                bytes[i + 2],
            ) is None {
                Err(content_failure(ContentErrorCode::InvalidNameEscape, input.at(cursor)))
            } else {
                match charge(input, stats, 2, input.position(cursor.stream, i + 1)) {
                    Err(error) => Err(error),
                    Ok(stats) => name_body(
                        input,
                        Cursor { stream: cursor.stream, offset: i + 3, stats },
                    ),
                }
            },
        }
    }
}

/// Reads one name.
pub open spec fn name_at(input: Input, cursor: Cursor) -> Result<
    (DecodedSpan, Seq<u8>, Cursor),
    ContentError,
> {
    match charge(input, cursor.stats, 1, input.at(cursor)) {
        Err(error) => Err(error),
        Ok(stats) => match name_body(
            input,
            Cursor { stream: cursor.stream, offset: cursor.offset + 1, stats },
        ) {
            Err(error) => Err(error),
            Ok(end) => match token_to(input, end, cursor.offset) {
                Err(error) => Err(error),
                Ok((span, next)) => Ok(
                    (
                        span,
                        name_value(
                            input.bytes(cursor.stream).subrange(cursor.offset + 1, end.offset),
                            0,
                        ),
                        next,
                    ),
                ),
            },
        },
    }
}

/// Reads one literal string.
pub open spec fn literal_at(input: Input, cursor: Cursor) -> Result<
    (LocatedView, Cursor),
    ContentError,
> {
    let bytes = input.bytes(cursor.stream);
    match literal_end(bytes, cursor.offset + 1, 1) {
        None => match read_run(input, cursor, bytes.len() - cursor.offset) {
            Err(error) => Err(error),
            Ok(end) => Err(content_failure(ContentErrorCode::UnterminatedString, input.at(end))),
        },
        Some(end) => match read_run(input, cursor, end - cursor.offset) {
            Err(error) => Err(error),
            Ok(next) => match token_to(input, next, cursor.offset) {
                Err(error) => Err(error),
                Ok((span, next)) => Ok(
                    (
                        LocatedView {
                            extent: span_extent(span),
                            value: OperandView::String {
                                bytes: literal_value(
                                    bytes.subrange(cursor.offset + 1, end - 1),
                                    0,
                                ),
                                kind: ContentStringKind::Literal,
                            },
                        },
                        next,
                    ),
                ),
            },
        },
    }
}

/// Position of the first byte from `i` on that cannot stand inside a hexadecimal string: its
/// closing bracket, or a byte that is neither white space nor a digit.
pub open spec fn hex_stop(bytes: Seq<u8>, i: int) -> int
    decreases bytes.len() - i,
{
    if i < 0 || i >= bytes.len() || (!whitespace(bytes[i]) && hex_of(bytes[i]) is None) {
        i
    } else {
        hex_stop(bytes, i + 1)
    }
}

/// Reads one hexadecimal string.
pub open spec fn hex_at(input: Input, cursor: Cursor) -> Result<
    (LocatedView, Cursor),
    ContentError,
> {
    let bytes = input.bytes(cursor.stream);
    let stop = hex_stop(bytes, cursor.offset + 1);
    if stop >= bytes.len() {
        match read_run(input, cursor, bytes.len() - cursor.offset) {
            Err(error) => Err(error),
            Ok(end) => Err(content_failure(ContentErrorCode::UnterminatedString, input.at(end))),
        }
    } else {
        match read_run(input, cursor, stop + 1 - cursor.offset) {
            Err(error) => Err(error),
            Ok(next) => if bytes[stop] != 0x3e {
                Err(
                    content_failure(
                        ContentErrorCode::InvalidHexString,
                        input.position(cursor.stream, stop),
                    ),
                )
            } else {
                match token_to(input, next, cursor.offset) {
                    Err(error) => Err(error),
                    Ok((span, next)) => Ok(
                        (
                            LocatedView {
                                extent: span_extent(span),
                                value: OperandView::String {
                                    bytes: hex_value_of(bytes.subrange(cursor.offset + 1, stop)),
                                    kind: ContentStringKind::Hexadecimal,
                                },
                            },
                            next,
                        ),
                    ),
                }
            },
        }
    }
}

/// The operand that a regular token is, unless it is an operator.
pub open spec fn primitive(raw: Seq<u8>, span: DecodedSpan) -> Result<
    Option<LocatedView>,
    ContentError,
> {
    let extent = span_extent(span);
    if raw == seq![0x6eu8, 0x75, 0x6c, 0x6c] {
        Ok(Some(LocatedView { extent, value: OperandView::Null }))
    } else if raw == seq![0x74u8, 0x72, 0x75, 0x65] {
        Ok(Some(LocatedView { extent, value: OperandView::Boolean(true) }))
    } else if raw == seq![0x66u8, 0x61, 0x6c, 0x73, 0x65] {
        Ok(Some(LocatedView { extent, value: OperandView::Boolean(false) }))
    } else if raw.len() > 0 && number_start(raw[0]) {
        match scanned_number(raw) {
            Some(ParsedNumber::Integer(value)) => Ok(
                Some(LocatedView { extent, value: OperandView::Integer(value) }),
            ),
            Some(ParsedNumber::Real) => Ok(
                Some(LocatedView { extent, value: OperandView::Real(raw) }),
            ),
            None => Err(
                content_failure(ContentErrorCode::InvalidNumber, Some(span.spec_start_position())),
            ),
        }
    } else {
        Ok(None)
    }
}

/// The bytes of a token that was read between two cursors.
pub open spec fn token_bytes(input: Input, from: Cursor, to: Cursor) -> Seq<u8> {
    input.bytes(from.stream).subrange(from.offset, to.offset)
}

/// Counts one operand.
pub open spec fn record_operand(cursor: Cursor, position: Option<ContentPosition>) -> Result<
    Cursor,
    ContentError,
> {
    if cursor.stats.operands == u64::MAX {
        Err(content_failure(ContentErrorCode::InternalState, position))
    } else {
        Ok(
            Cursor {
                stats: ContentScanStats {
                    operands: (cursor.stats.operands + 1) as u64,
                    ..cursor.stats
                },
                ..cursor
            },
        )
    }
}

/// Enters an array or a dictionary.
pub open spec fn enter_container(input: Input, cursor: Cursor, depth: u16) -> Result<
    Cursor,
    ContentError,
> {
    if depth + 1 > input.limits.max_nesting_depth {
        Err(
            content_resource(
                ContentLimitKind::NestingDepth,
                input.limits.max_nesting_depth as u64,
                depth as u64,
                1,
                input.at(cursor),
            ),
        )
    } else {
        Ok(
            Cursor {
                stats: ContentScanStats {
                    max_nesting_depth: if cursor.stats.max_nesting_depth < depth + 1 {
                        (depth + 1) as u16
                    } else {
                        cursor.stats.max_nesting_depth
                    },
                    ..cursor.stats
                },
                ..cursor
            },
        )
    }
}

/// A failure that no input gives.
pub open spec fn impossible() -> ContentError {
    content_failure(ContentErrorCode::InternalState, None)
}

/// Reads one operand, containers with everything in them.
pub open spec fn operand_at(input: Input, cursor: Cursor, depth: u16) -> Result<
    (LocatedView, Cursor),
    ContentError,
>
    decreases input.left(cursor), 2int,
{
    match skip_trivia(input, cursor) {
        Err(error) => Err(error),
        Ok(start) => if input.left(start) > input.left(cursor) {
            Err(impossible())
        } else {
            let position = input.at(start);
            let read = match input.peek(start) {
                None => Err(content_failure(ContentErrorCode::MismatchedDelimiter, position)),
                Some(byte) => if byte == 0x5b {
                    array_at(input, start, depth)
                } else if byte == 0x3c && input.followed_by(start, 0x3c) {
                    dictionary_at(input, start, depth)
                } else if byte == 0x28 {
                    literal_at(input, start)
                } else if byte == 0x3c {
                    hex_at(input, start)
                } else if byte == 0x2f {
                    match name_at(input, start) {
                        Err(error) => Err(error),
                        Ok((span, name, next)) => Ok(
                            (
                                LocatedView {
                                    extent: span_extent(span),
                                    value: OperandView::Name(name),
                                },
                                next,
                            ),
                        ),
                    }
                } else if byte == 0x5d || byte == 0x3e {
                    Err(content_failure(ContentErrorCode::MismatchedDelimiter, position))
                } else if byte == 0x29 || byte == 0x7b || byte == 0x7d {
                    Err(content_failure(ContentErrorCode::MalformedToken, position))
                } else {
                    match regular_token(input, start) {
                        Err(error) => Err(error),
                        Ok((span, next)) => match primitive(
                            token_bytes(input, start, next),
                            span,
                        ) {
                            Err(error) => Err(error),
                            Ok(Some(value)) => Ok((value, next)),
                            Ok(None) => Err(
                                content_failure(
                                    ContentErrorCode::MalformedToken,
                                    Some(span.spec_start_position()),
                                ),
                            ),
                        },
                    }
                },
            };
            match read {
                Err(error) => Err(error),
                Ok((value, next)) => match record_operand(next, position) {
                    Err(error) => Err(error),
                    Ok(counted) => Ok((value, counted)),
                },
            }
        },
    }
}

/// Reads one array.
pub open spec fn array_at(input: Input, cursor: Cursor, depth: u16) -> Result<
    (LocatedView, Cursor),
    ContentError,
>
    decreases input.left(cursor), 1int,
{
    match enter_container(input, cursor, depth) {
        Err(error) => Err(error),
        Ok(entered) => match fixed_token(input, entered, 1) {
            Err(error) => Err(error),
            Ok((open, inside)) => if input.left(inside) >= input.left(cursor) {
                Err(impossible())
            } else {
                match array_items(input, inside, (depth + 1) as u16, Seq::empty()) {
                    Err(error) => Err(error),
                    Ok((values, close, next)) => Ok(
                        (
                            LocatedView {
                                extent: ContentExtent {
                                    start: open.spec_start_position(),
                                    end_exclusive: close.spec_end_position(),
                                },
                                value: OperandView::Array(values),
                            },
                            next,
                        ),
                    ),
                }
            },
        },
    }
}

/// Reads the items of an array and its closing bracket.
pub open spec fn array_items(
    input: Input,
    cursor: Cursor,
    depth: u16,
    values: Seq<LocatedView>,
) -> Result<(Seq<LocatedView>, DecodedSpan, Cursor), ContentError>
    decreases input.left(cursor), 3int,
{
    match skip_trivia(input, cursor) {
        Err(error) => Err(error),
        Ok(start) => if input.left(start) > input.left(cursor) {
            Err(impossible())
        } else {
            match input.peek(start) {
                None => Err(
                    content_failure(
                        ContentErrorCode::MismatchedDelimiter,
                        input.final_position(),
                    ),
                ),
                Some(byte) => if byte == 0x5d {
                    match fixed_token(input, start, 1) {
                        Err(error) => Err(error),
                        Ok((close, next)) => Ok((values, close, next)),
                    }
                } else if byte == 0x3e && input.followed_by(start, 0x3e) {
                    Err(content_failure(ContentErrorCode::MismatchedDelimiter, input.at(start)))
                } else {
                    match operand_at(input, start, depth) {
                        Err(error) => Err(error),
                        Ok((value, next)) => if input.left(next) >= input.left(cursor) {
                            Err(impossible())
                        } else {
                            array_items(input, next, depth, values.push(value))
                        },
                    }
                },
            }
        },
    }
}

/// Reads one dictionary.
pub open spec fn dictionary_at(input: Input, cursor: Cursor, depth: u16) -> Result<
    (LocatedView, Cursor),
    ContentError,
>
    decreases input.left(cursor), 1int,
{
    match enter_container(input, cursor, depth) {
        Err(error) => Err(error),
        Ok(entered) => match fixed_token(input, entered, 2) {
            Err(error) => Err(error),
            Ok((open, inside)) => if input.left(inside) >= input.left(cursor) {
                Err(impossible())
            } else {
                match dictionary_items(input, inside, (depth + 1) as u16, Seq::empty()) {
                    Err(error) => Err(error),
                    Ok((entries, close, next)) => Ok(
                        (
                            LocatedView {
                                extent: ContentExtent {
                                    start: open.spec_start_position(),
                                    end_exclusive: close.spec_end_position(),
                                },
                                value: OperandView::Dictionary(entries),
                            },
                            next,
                        ),
                    ),
                }
            },
        },
    }
}

/// Reads the entries of a dictionary and its closing brackets.
pub open spec fn dictionary_items(
    input: Input,
    cursor: Cursor,
    depth: u16,
    entries: Seq<EntryView>,
) -> Result<(Seq<EntryView>, DecodedSpan, Cursor), ContentError>
    decreases input.left(cursor), 3int,
{
    match skip_trivia(input, cursor) {
        Err(error) => Err(error),
        Ok(start) => if input.left(start) > input.left(cursor) {
            Err(impossible())
        } else {
            match input.peek(start) {
                None => Err(
                    content_failure(
                        ContentErrorCode::MismatchedDelimiter,
                        input.final_position(),
                    ),
                ),
                Some(byte) => if byte == 0x3e && input.followed_by(start, 0x3e) {
                    match fixed_token(input, start, 2) {
                        Err(error) => Err(error),
                        Ok((close, next)) => Ok((entries, close, next)),
                    }
                } else if byte == 0x5d {
                    Err(content_failure(ContentErrorCode::MismatchedDelimiter, input.at(start)))
                } else if byte != 0x2f {
                    Err(content_failure(ContentErrorCode::InvalidDictionaryKey, input.at(start)))
                } else {
                    match name_at(input, start) {
                        Err(error) => Err(error),
                        Ok((key_span, key, keyed)) => if input.left(keyed) >= input.left(cursor) {
                            Err(impossible())
                        } else {
                            match operand_at(input, keyed, depth) {
                                Err(error) => Err(error),
                                Ok((value, next)) => if input.left(next) >= input.left(cursor) {
                                    Err(impossible())
                                } else {
                                    dictionary_items(
                                        input,
                                        next,
                                        depth,
                                        entries.push(EntryView { key_span, key, value }),
                                    )
                                },
                            }
                        },
                    }
                },
            }
        },
    }
}

/// Puts one operand before the next operator.
pub open spec fn push_pending(
    input: Input,
    cursor: Cursor,
    pending: Seq<LocatedView>,
    operand: LocatedView,
) -> Result<(Seq<LocatedView>, Cursor), ContentError> {
    if pending.len() >= input.limits.max_operands_per_operator {
        Err(
            content_resource(
                ContentLimitKind::OperandsPerOperator,
                input.limits.max_operands_per_operator as u64,
                pending.len() as u64,
                1,
                Some(operand.extent.start),
            ),
        )
    } else {
        Ok(
            (
                pending.push(operand),
                Cursor {
                    stats: ContentScanStats {
                        max_operands_per_operator: if cursor.stats.max_operands_per_operator
                            < pending.len() + 1 {
                            (pending.len() + 1) as u32
                        } else {
                            cursor.stats.max_operands_per_operator
                        },
                        ..cursor.stats
                    },
                    ..cursor
                },
            ),
        )
    }
}

/// Publishes one operator with its operands.
pub open spec fn publish(
    input: Input,
    cursor: Cursor,
    token: Seq<u8>,
    span: DecodedSpan,
    pending: Seq<LocatedView>,
) -> Result<(OperatorView, Cursor), ContentError> {
    let start = Some(span.spec_start_position());
    let unknown = kind_of_token(token) is None;
    if cursor.stats.operators >= input.limits.max_operators {
        Err(
            content_resource(
                ContentLimitKind::Operators,
                input.limits.max_operators,
                cursor.stats.operators,
                1,
                start,
            ),
        )
    } else if unknown && cursor.stats.unknown_operators == u64::MAX {
        Err(content_failure(ContentErrorCode::InternalState, start))
    } else {
        Ok(
            (
                OperatorView {
                    token,
                    known: kind_of_token(token),
                    operands: pending,
                    source: ContentOperatorSource {
                        span,
                        page_operator_ordinal: cursor.stats.operators,
                    },
                },
                Cursor {
                    stats: ContentScanStats {
                        operators: (cursor.stats.operators + 1) as u64,
                        unknown_operators: if unknown {
                            (cursor.stats.unknown_operators + 1) as u64
                        } else {
                            cursor.stats.unknown_operators
                        },
                        ..cursor.stats
                    },
                    ..cursor
                },
            ),
        )
    }
}

/// Reads operators to the end of the last stream.
pub open spec fn operators_from(
    input: Input,
    cursor: Cursor,
    operators: Seq<OperatorView>,
    pending: Seq<LocatedView>,
) -> Result<(Seq<OperatorView>, ContentScanStats), ContentError>
    decreases input.left(cursor),
{
    match skip_trivia(input, cursor) {
        Err(error) => Err(error),
        Ok(start) => if input.left(start) > input.left(cursor) {
            Err(impossible())
        } else {
            match input.peek(start) {
                None => if pending.len() > 0 {
                    Err(
                        content_failure(
                            ContentErrorCode::DanglingOperands,
                            input.final_position(),
                        ),
                    )
                } else {
                    Ok((operators, start.stats))
                },
                Some(byte) => if byte == 0x5b || byte == 0x28 || byte == 0x2f || byte == 0x3c {
                    match operand_at(input, start, 0) {
                        Err(error) => Err(error),
                        Ok((operand, next)) => match push_pending(input, next, pending, operand) {
                            Err(error) => Err(error),
                            Ok((pending, next)) => if input.left(next) >= input.left(cursor) {
                                Err(impossible())
                            } else {
                                operators_from(input, next, operators, pending)
                            },
                        },
                    }
                } else if delimiter(byte) {
                    Err(
                        content_failure(
                            if byte == 0x5d || byte == 0x3e {
                                ContentErrorCode::MismatchedDelimiter
                            } else {
                                ContentErrorCode::MalformedToken
                            },
                            input.at(start),
                        ),
                    )
                } else {
                    match regular_token(input, start) {
                        Err(error) => Err(error),
                        Ok((span, next)) => {
                            let token = token_bytes(input, start, next);
                            if input.left(next) >= input.left(cursor) {
                                Err(impossible())
                            } else {
                                match primitive(token, span) {
                                    Err(error) => Err(error),
                                    Ok(Some(operand)) => match record_operand(
                                        next,
                                        Some(operand.extent.start),
                                    ) {
                                        Err(error) => Err(error),
                                        Ok(counted) => match push_pending(
                                            input,
                                            counted,
                                            pending,
                                            operand,
                                        ) {
                                            Err(error) => Err(error),
                                            Ok((pending, next)) => operators_from(
                                                input,
                                                next,
                                                operators,
                                                pending,
                                            ),
                                        },
                                    },
                                    Ok(None) => match publish(input, next, token, span, pending) {
                                        Err(error) => Err(error),
                                        Ok((operator, next)) => operators_from(
                                            input,
                                            next,
                                            operators.push(operator),
                                            Seq::empty(),
                                        ),
                                    },
                                }
                            }
                        },
                    }
                },
            }
        },
    }
}

/// Bytes of the first `count` streams.
pub open spec fn total_bytes(streams: Seq<StreamView>, count: int) -> nat
    decreases count,
{
    if count <= 0 || count > streams.len() {
        0
    } else {
        total_bytes(streams, count - 1) + streams[count - 1].bytes.len()
    }
}

/// Admits streams from `i` on against the byte budget.
pub open spec fn admit_bytes(input: Input, i: int) -> Result<u64, ContentError>
    decreases input.streams.len() - i,
{
    let total = total_bytes(input.streams, i);
    if i < 0 || i >= input.streams.len() {
        Ok(total as u64)
    } else if total + input.streams[i].bytes.len() > input.limits.max_total_decoded_bytes {
        Err(
            content_resource(
                ContentLimitKind::TotalDecodedBytes,
                input.limits.max_total_decoded_bytes,
                total as u64,
                input.streams[i].bytes.len() as u64,
                input.position(i, 0),
            ),
        )
    } else {
        admit_bytes(input, i + 1)
    }
}

/// What a scan of the whole input publishes, memory and cancellation aside.
pub open spec fn scanned(input: Input) -> Result<
    (Seq<OperatorView>, ContentScanStats),
    ContentError,
> {
    let count = input.streams.len();
    let none = crate::content::model::no_scan_work();
    if count > input.limits.max_streams {
        Err(
            content_resource(
                ContentLimitKind::Streams,
                input.limits.max_streams as u64,
                0,
                count as u64,
                None,
            ),
        )
    } else {
        match admit_bytes(input, 0) {
            Err(error) => Err(error),
            Ok(total) => operators_from(
                input,
                Cursor {
                    stream: 0,
                    offset: 0,
                    stats: ContentScanStats {
                        streams: count as u32,
                        total_decoded_bytes: total,
                        ..none
                    },
                },
                Seq::empty(),
                Seq::empty(),
            ),
        }
    }
}

} // verus!
