//! Bounded scanner of ordered content streams.

use std::sync::Arc;

use vstd::prelude::*;

use crate::content::error::{
    content_failure, content_resource, ContentError, ContentErrorCode, ContentLimitKind,
};
use crate::content::lexical::{
    decode_hex, decode_literal, hex_of, hex_value, is_delimiter, is_number_start, is_octal,
    is_pdf_whitespace, literal_element_len, literal_end, name_value, number_start, parse_number,
    whitespace, ParsedNumber,
};
use crate::content::limits::{ContentLimitConfig, ContentLimits};
use crate::content::model::{
    no_scan_work, ContentDictionaryEntry, ContentExtent, ContentName, ContentOperand,
    ContentOperator, ContentOperatorSource, ContentPosition, ContentProgram, ContentReal,
    ContentScanStats, ContentString, ContentStringKind, DecodedContentStream, DecodedSpan,
    LocatedOperand, ScannedOperator,
};
use crate::content::operator::{found_operators_have_the_token, OperatorKind};
use crate::content::scan_model::{
    admit_bytes, array_at, array_items, charge, charge_token, comment_len, dictionary_at,
    dictionary_items, enter_container, fixed_token, hex_at, hex_stop, literal_at, name_at,
    name_body, operand_at, operators_from, primitive, publish, push_pending, read_run,
    record_operand, regular_len, regular_token, scanned, skip_trivia, token_bytes, token_to,
    total_bytes, Cursor, Input, StreamView,
};
use crate::content::view::{
    array_view, dictionary_view, entry_view, entry_views, located_view, operand_views,
    operator_view, operator_views, LocatedView, OperandView,
};
use crate::memory::{capacity_of, share, try_reserve_exact};

verus! {

/// Work units between two cancellation probes.
pub const CANCELLATION_PROBE_INTERVAL: u64 = 256;

/// Cooperative cancellation supplied by the owning runtime.
pub trait ContentCancellation: Send + Sync {
    /// Reports whether scanning must stop before publication.
    fn is_cancelled(&self) -> bool;
}

/// Cancellation probe that never stops scanning.
#[derive(Clone, Copy, Debug, PartialEq, Eq)]
pub struct NeverCancelled;

impl ContentCancellation for NeverCancelled {
    fn is_cancelled(&self) -> (cancelled: bool)
        ensures
            !cancelled,
    {
        false
    }
}

/// The elements that a full vector of a capacity grows by: its capacity, or two where it has none.
pub open spec fn slot_growth(capacity: int) -> int {
    if capacity == 0 {
        2
    } else {
        capacity
    }
}

/// Computes the elements that a full vector grows by.
pub fn grow_slots(capacity: usize) -> (additional: usize)
    ensures
        additional == slot_growth(capacity as int),
{
    if capacity == 0 {
        2
    } else {
        capacity
    }
}

/// Whether `bytes` are what a full vector of some capacity asks for.
pub open spec fn is_slot_request<T>(bytes: int) -> bool {
    exists|capacity: usize|
        bytes == #[trigger] slot_growth(capacity as int) * vstd::layout::size_of::<T>()
}

/// Whether `bytes` are what a scan asks for at once: room for the bytes of one token, or for more
/// operands, dictionary entries or operators.
pub open spec fn is_scan_request(bytes: int, limits: ContentLimitConfig) -> bool {
    ||| 0 <= bytes <= limits.max_token_bytes
    ||| is_slot_request::<LocatedOperand>(bytes)
    ||| is_slot_request::<ContentDictionaryEntry>(bytes)
    ||| is_slot_request::<ScannedOperator>(bytes)
}

/// What becomes of a request for memory, with `retained` bytes held: the total that is held then,
/// given what the allocator granted, if it did. What would pass the retained budget is not asked
/// for, and a grant beyond it is not held.
pub open spec fn request_outcome(
    limits: ContentLimitConfig,
    retained: u64,
    request: u64,
    granted: Option<u64>,
    position: Option<ContentPosition>,
) -> Result<u64, ContentError> {
    let ceiling = limits.max_retained_bytes;
    if retained + request > ceiling {
        Err(
            content_resource(
                ContentLimitKind::RetainedBytes,
                ceiling,
                retained,
                request,
                position,
            ),
        )
    } else {
        match granted {
            None => Err(
                content_resource(ContentLimitKind::Allocation, ceiling, retained, request, position),
            ),
            Some(granted) => {
                let held = if granted < request {
                    request
                } else {
                    granted
                };
                if retained + held > ceiling {
                    Err(
                        content_resource(
                            ContentLimitKind::RetainedBytes,
                            ceiling,
                            retained,
                            held,
                            position,
                        ),
                    )
                } else {
                    Ok((retained + held) as u64)
                }
            },
        }
    }
}

/// Decides what becomes of a request for memory that the retained budget admits.
pub fn settle_request(
    limits: ContentLimits,
    retained: u64,
    request: u64,
    granted: Option<u64>,
    position: Option<ContentPosition>,
) -> (result: Result<u64, ContentError>)
    requires
        retained <= limits@.max_retained_bytes,
    ensures
        result == request_outcome(limits@, retained, request, granted, position),
{
    let ceiling: u64 = limits.max_retained_bytes();
    if request > ceiling - retained {
        return Err(
            ContentError::resource(
                ContentLimitKind::RetainedBytes,
                ceiling,
                retained,
                request,
                position,
            ),
        );
    }
    match granted {
        None => Err(
            ContentError::resource(
                ContentLimitKind::Allocation,
                ceiling,
                retained,
                request,
                position,
            ),
        ),
        Some(granted) => {
            let held: u64 = if granted < request {
                request
            } else {
                granted
            };
            if held > ceiling - retained {
                return Err(
                    ContentError::resource(
                        ContentLimitKind::RetainedBytes,
                        ceiling,
                        retained,
                        held,
                        position,
                    ),
                );
            }
            Ok(retained + held)
        },
    }
}

/// Whether a failure is that of a request of `request` bytes, whatever the allocator granted.
pub open spec fn is_request_failure(
    error: ContentError,
    limits: ContentLimitConfig,
    request: int,
) -> bool {
    error.limit matches Some(limit) && {
        &&& error.code == ContentErrorCode::ResourceLimit
        &&& limit.limit == limits.max_retained_bytes
        &&& limit.consumed <= limit.limit
        &&& if limit.consumed + request > limit.limit {
            limit.kind == ContentLimitKind::RetainedBytes && limit.attempted == request
        } else {
            ||| limit.kind == ContentLimitKind::Allocation && limit.attempted == request
            ||| limit.kind == ContentLimitKind::RetainedBytes && limit.attempted > request
                && limit.consumed + limit.attempted > limit.limit
        }
    }
}

/// Whether a failure was decided by the runtime or by memory, not by the content: its cancellation
/// may have been asked for, what a scan asked for would have passed the retained budget, or the
/// allocator refused what the budget admitted.
pub open spec fn is_outside_failure(
    error: ContentError,
    limits: ContentLimitConfig,
    cancelled: bool,
) -> bool {
    match error.code {
        ContentErrorCode::Cancelled => cancelled && error.limit is None,
        ContentErrorCode::ResourceLimit => is_refused_request(error, limits),
        _ => false,
    }
}

/// Whether a failure is that of something that a scan asks for.
#[verifier::opaque]
pub open spec fn is_refused_request(error: ContentError, limits: ContentLimitConfig) -> bool {
    exists|request: int| #[trigger]
        is_scan_request(request, limits) && is_request_failure(error, limits, request)
}

proof fn refused_requests_are_outside(
    error: ContentError,
    limits: ContentLimitConfig,
    request: int,
    cancelled: bool,
)
    requires
        is_scan_request(request, limits),
        is_request_failure(error, limits, request),
    ensures
        is_outside_failure(error, limits, cancelled),
{
    reveal(is_refused_request);
}

/// Whether a scan asks for room for more elements of a type.
spec fn is_scanned<T>() -> bool {
    forall|bytes: int, limits: ContentLimitConfig| #[trigger]
        is_slot_request::<T>(bytes) ==> #[trigger] is_scan_request(bytes, limits)
}

/// Whether statistics show what had been charged when a failure was found: where it names a budget
/// of work or of memory, that budget's charge is the one that it reports.
pub open spec fn charged(error: ContentError, stats: ContentScanStats) -> bool {
    error.limit matches Some(limit) ==> match limit.kind {
        ContentLimitKind::Streams => work_of(stats) == no_scan_work(),
        ContentLimitKind::Tokens => stats.tokens == limit.consumed,
        ContentLimitKind::Operators => stats.operators == limit.consumed,
        ContentLimitKind::Fuel => stats.fuel == limit.consumed,
        ContentLimitKind::RetainedBytes => stats.retained_bytes == limit.consumed,
        ContentLimitKind::Allocation => stats.retained_bytes == limit.consumed,
        _ => true,
    }
}

/// Whether statistics are those of a failed scan: they show what had been charged, within the
/// budgets.
pub open spec fn is_failed_work(
    error: ContentError,
    stats: ContentScanStats,
    limits: ContentLimitConfig,
) -> bool {
    &&& charged(error, stats)
    &&& stats.tokens <= limits.max_tokens
    &&& stats.operators <= limits.max_operators
    &&& stats.fuel <= limits.max_fuel
    &&& stats.retained_bytes <= limits.max_retained_bytes
}

/// The value of one stream.
pub open spec fn stream_view(stream: DecodedContentStream<'_>) -> StreamView {
    StreamView { object: stream.object, ordinal: stream.ordinal, bytes: stream.decoded@ }
}

/// The values of ordered streams.
pub open spec fn stream_views(streams: Seq<DecodedContentStream<'_>>) -> Seq<StreamView> {
    streams.map_values(|stream: DecodedContentStream<'_>| stream_view(stream))
}

/// The input of a scan.
pub open spec fn scan_input(
    streams: Seq<DecodedContentStream<'_>>,
    limits: ContentLimits,
) -> Input {
    Input { streams: stream_views(streams), limits: limits@ }
}

/// Whether every stream carries its zero-based place as its ordinal.
pub open spec fn in_order(streams: Seq<DecodedContentStream<'_>>) -> bool {
    forall|i: int| 0 <= i < streams.len() ==> (#[trigger] streams[i]).ordinal == i
}

/// Statistics without the capacity that the allocator reported.
pub open spec fn work_of(stats: ContentScanStats) -> ContentScanStats {
    ContentScanStats { retained_bytes: 0, ..stats }
}

/// Whether the allocator may grant this: it may grant or refuse anything.
spec fn is_granted(granted: Option<u64>) -> bool {
    true
}

/// Whether a vector of `len` elements of a capacity got room for one more: without a request where
/// it is not full, and as the request for its growth was answered where it is.
spec fn slot_settled<T>(
    limits: ContentLimitConfig,
    retained: u64,
    len: nat,
    capacity: usize,
    granted: Option<u64>,
    position: Option<ContentPosition>,
    result: Result<(), ContentError>,
    after: u64,
) -> bool {
    if len < capacity {
        result is Ok && after == retained
    } else {
        match request_outcome(
            limits,
            retained,
            (slot_growth(capacity as int) * vstd::layout::size_of::<T>()) as u64,
            granted,
            position,
        ) {
            Ok(total) => result is Ok && after == total,
            Err(error) => result == Err::<(), ContentError>(error) && after == retained,
        }
    }
}

#[derive(Clone, Copy)]
struct RawToken {
    stream_index: usize,
    start: usize,
    end: usize,
    span: DecodedSpan,
}

struct Runner<'a, C: ContentCancellation> {
    streams: &'a [DecodedContentStream<'a>],
    limits: ContentLimits,
    cancellation: &'a C,
    stream_index: usize,
    offset: usize,
    stats: ContentScanStats,
}

impl<'a, C: ContentCancellation> Runner<'a, C> {
    spec fn input(&self) -> Input {
        scan_input(self.streams@, self.limits)
    }

    spec fn cursor(&self) -> Cursor {
        Cursor {
            stream: self.stream_index as int,
            offset: self.offset as int,
            stats: work_of(self.stats),
        }
    }

    spec fn well_formed(&self) -> bool {
        &&& self.limits@.admissible()
        &&& self.stream_index <= self.streams@.len()
        &&& self.stream_index < self.streams@.len() ==> self.offset
            <= self.streams@[self.stream_index as int].decoded@.len()
        &&& self.stream_index == self.streams@.len() ==> self.offset == 0
        &&& self.stats.fuel <= self.limits@.max_fuel
        &&& self.stats.tokens <= self.limits@.max_tokens
        &&& self.stats.operators <= self.limits@.max_operators
        &&& self.stats.retained_bytes <= self.limits@.max_retained_bytes
    }

    spec fn same_scan(&self, other: &Self) -> bool {
        &&& self.streams@ == other.streams@
        &&& self.limits == other.limits
        &&& self.cancellation == other.cancellation
    }

    /// Whether the cancellation may give this answer.
    spec fn answers(&self, cancelled: bool) -> bool {
        call_ensures(C::is_cancelled, (self.cancellation,), cancelled)
    }

    spec fn is_outside(&self, error: ContentError) -> bool {
        is_outside_failure(error, self.limits@, self.answers(true))
    }

    fn new(
        streams: &'a [DecodedContentStream<'a>],
        limits: ContentLimits,
        cancellation: &'a C,
    ) -> (runner: Self)
        ensures
            runner.well_formed(),
            runner.input() == scan_input(streams@, limits),
            runner.cursor() == (Cursor { stream: 0, offset: 0, stats: no_scan_work() }),
            runner.limits == limits,
            runner.cancellation == cancellation,
    {
        let _ceiling: u64 = limits.max_fuel();
        Self {
            streams,
            limits,
            cancellation,
            stream_index: 0,
            offset: 0,
            stats: ContentScanStats::default(),
        }
    }

    fn check_cancelled(&self, position: Option<ContentPosition>) -> (result: Result<
        (),
        ContentError,
    >)
        ensures
            match result {
                Ok(_) => self.answers(false),
                Err(error) => self.answers(true) && error == content_failure(
                    ContentErrorCode::Cancelled,
                    position,
                ),
            },
    {
        if self.cancellation.is_cancelled() {
            Err(ContentError::for_code(ContentErrorCode::Cancelled, position))
        } else {
            Ok(())
        }
    }

    fn position(&self, stream_index: usize, offset: usize) -> (position: Option<ContentPosition>)
        ensures
            position == self.input().position(stream_index as int, offset as int),
    {
        if stream_index < self.streams.len() {
            let stream = self.streams[stream_index];
            assert(self.input().streams[stream_index as int] == stream_view(stream));
            Some(ContentPosition::new(stream.object, stream.ordinal, offset as u64))
        } else {
            None
        }
    }

    fn current_position(&self) -> (position: Option<ContentPosition>)
        ensures
            position == self.input().at(self.cursor()),
    {
        self.position(self.stream_index, self.offset)
    }

    fn final_position(&self) -> (position: Option<ContentPosition>)
        ensures
            position == self.input().final_position(),
    {
        let count: usize = self.streams.len();
        if count == 0 {
            return None;
        }
        let len: usize = self.streams[count - 1].decoded.len();
        assert(self.input().streams[count - 1] == stream_view(self.streams@[count - 1]));
        self.position(count - 1, len)
    }

    fn peek(&self) -> (byte: Option<u8>)
        ensures
            byte == self.input().peek(self.cursor()),
    {
        if self.stream_index < self.streams.len() {
            assert(self.input().streams[self.stream_index as int] == stream_view(
                self.streams@[self.stream_index as int],
            ));
            let bytes = self.streams[self.stream_index].decoded;
            if self.offset < bytes.len() {
                return Some(bytes[self.offset]);
            }
        }
        None
    }

    fn peek_next_is(&self, byte: u8) -> (yes: bool)
        ensures
            yes == self.input().followed_by(self.cursor(), byte),
    {
        if self.stream_index < self.streams.len() {
            assert(self.input().streams[self.stream_index as int] == stream_view(
                self.streams@[self.stream_index as int],
            ));
            let bytes = self.streams[self.stream_index].decoded;
            if self.offset < bytes.len() && self.offset + 1 < bytes.len() {
                return bytes[self.offset + 1] == byte;
            }
        }
        false
    }

    fn charge_fuel(&mut self, amount: u64, position: Option<ContentPosition>) -> (result: Result<
        (),
        ContentError,
    >)
        requires
            old(self).well_formed(),
            amount <= 2,
        ensures
            final(self).well_formed(),
            final(self).same_scan(old(self)),
            result matches Err(error) ==> charged(error, final(self).stats),
            final(self).stream_index == old(self).stream_index,
            final(self).offset == old(self).offset,
            match result {
                Ok(_) => charge(old(self).input(), old(self).cursor().stats, amount, position)
                    == Ok::<ContentScanStats, ContentError>(final(self).cursor().stats)
                    && final(self).stats == (ContentScanStats {
                    fuel: (old(self).stats.fuel + amount) as u64,
                    ..old(self).stats
                }),
                Err(error) => old(self).is_outside(error) || charge(
                    old(self).input(),
                    old(self).cursor().stats,
                    amount,
                    position,
                ) == Err::<ContentScanStats, ContentError>(error),
            },
    {
        let next: u64 = self.stats.fuel + amount;
        if self.stats.fuel.is_multiple_of(CANCELLATION_PROBE_INTERVAL) || next
            / CANCELLATION_PROBE_INTERVAL > self.stats.fuel / CANCELLATION_PROBE_INTERVAL {
            match self.check_cancelled(position) {
                Ok(_) => {},
                Err(error) => {
                    return Err(error);
                },
            }
        }
        if next > self.limits.max_fuel() {
            return Err(
                ContentError::resource(
                    ContentLimitKind::Fuel,
                    self.limits.max_fuel(),
                    self.stats.fuel,
                    amount,
                    position,
                ),
            );
        }
        self.stats.fuel = next;
        Ok(())
    }

    spec fn charged_from(&self, before: &Self, count: int) -> bool {
        &&& self.same_scan(before)
        &&& self.stats == (ContentScanStats {
            fuel: (before.stats.fuel + count) as u64,
            ..before.stats
        })
        &&& self.stats.fuel == before.stats.fuel + count
    }

    /// Skips white space, comments and stream boundaries.
    fn skip_trivia(&mut self) -> (result: Result<(), ContentError>)
        requires
            old(self).well_formed(),
        ensures
            final(self).well_formed(),
            final(self).same_scan(old(self)),
            result matches Err(error) ==> charged(error, final(self).stats),
            match result {
                Ok(_) => {
                    &&& skip_trivia(old(self).input(), old(self).cursor()) == Ok::<
                        Cursor,
                        ContentError,
                    >(final(self).cursor())
                    &&& final(self).input().left(final(self).cursor()) <= old(self).input().left(
                        old(self).cursor(),
                    )
                    &&& final(self).stream_index < final(self).streams@.len()
                        ==> final(self).offset
                        < final(self).streams@[final(self).stream_index as int].decoded@.len()
                    &&& final(self).stats.retained_bytes == old(self).stats.retained_bytes
                },
                Err(error) => old(self).is_outside(error) || skip_trivia(
                    old(self).input(),
                    old(self).cursor(),
                ) == Err::<Cursor, ContentError>(error),
            },
    {
        let ghost input = self.input();
        let ghost target = skip_trivia(input, self.cursor());
        let ghost size = input.left(self.cursor());
        loop
            invariant
                self.well_formed(),
                self.same_scan(old(self)),
                self.input() == input,
                skip_trivia(input, self.cursor()) == target,
                target == skip_trivia(old(self).input(), old(self).cursor()),
                size == old(self).input().left(old(self).cursor()),
                input == old(self).input(),
                input.left(self.cursor()) <= size,
                self.stats.retained_bytes == old(self).stats.retained_bytes,
            decreases self.streams@.len() - self.stream_index, input.left(self.cursor()),
        {
            if self.stream_index >= self.streams.len() {
                return Ok(());
            }
            assert(input.streams[self.stream_index as int] == stream_view(
                self.streams@[self.stream_index as int],
            ));
            let bytes = self.streams[self.stream_index].decoded;
            assert(bytes@ == input.bytes(self.stream_index as int));
            if self.offset == bytes.len() {
                self.stream_index = self.stream_index + 1;
                self.offset = 0;
                continue ;
            }
            let byte: u8 = bytes[self.offset];
            if is_pdf_whitespace(byte) {
                let position = self.current_position();
                match self.charge_fuel(1, position) {
                    Ok(_) => {},
                    Err(error) => {
                        return Err(error);
                    },
                }
                self.offset = self.offset + 1;
                continue ;
            }
            if byte == 0x25 {
                match self.skip_comment() {
                    Ok(_) => {},
                    Err(error) => {
                        return Err(error);
                    },
                }
                continue ;
            }
            return Ok(());
        }
    }

    /// Skips the comment at the cursor, with its end of line.
    fn skip_comment(&mut self) -> (result: Result<(), ContentError>)
        requires
            old(self).well_formed(),
            old(self).stream_index < old(self).streams@.len(),
            old(self).offset < old(self).streams@[old(self).stream_index as int].decoded@.len(),
        ensures
            final(self).well_formed(),
            final(self).same_scan(old(self)),
            result matches Err(error) ==> charged(error, final(self).stats),
            ({
                let input = old(self).input();
                let cursor = old(self).cursor();
                let count = comment_len(input.bytes(cursor.stream), cursor.offset) as int;
                match result {
                    Ok(_) => {
                        &&& read_run(input, cursor, count) == Ok::<Cursor, ContentError>(
                            final(self).cursor(),
                        )
                        &&& count > 0
                        &&& final(self).stream_index == old(self).stream_index
                        &&& final(self).stats.retained_bytes == old(self).stats.retained_bytes
                    },
                    Err(error) => old(self).is_outside(error) || read_run(input, cursor, count)
                        == Err::<Cursor, ContentError>(error),
                }
            }),
    {
        let ghost input = self.input();
        assert(input.streams[self.stream_index as int] == stream_view(
            self.streams@[self.stream_index as int],
        ));
        let bytes = self.streams[self.stream_index].decoded;
        let start: usize = self.offset;
        let ghost count = comment_len(bytes@, start as int);
        let mut ended = false;
        while !ended && self.offset < bytes.len()
            invariant
                self.well_formed(),
                self.charged_from(old(self), self.offset - start),
                self.stream_index == old(self).stream_index,
                self.stream_index < self.streams@.len(),
                bytes@ == self.streams@[self.stream_index as int].decoded@,
                bytes@ == input.bytes(self.stream_index as int),
                input == old(self).input(),
                start == old(self).offset,
                start <= self.offset <= bytes@.len(),
                count == comment_len(bytes@, start as int),
                count == (self.offset - start) + (if ended {
                    0
                } else {
                    comment_len(bytes@, self.offset as int)
                }),
                self.stats.retained_bytes == old(self).stats.retained_bytes,
                old(self).well_formed(),
            decreases bytes@.len() - self.offset,
        {
            let byte: u8 = bytes[self.offset];
            let position = self.current_position();
            match self.charge_fuel(1, position) {
                Ok(_) => {},
                Err(error) => {
                    return Err(error);
                },
            }
            self.offset = self.offset + 1;
            ended = byte == 13 || byte == 10;
        }
        Ok(())
    }

    fn make_span(&self, stream_index: usize, start: usize, end: usize) -> (span: DecodedSpan)
        requires
            stream_index < self.streams@.len(),
            start <= end,
        ensures
            span == self.input().span(stream_index as int, start as int, end as int),
            span.spec_start() == start,
            span.spec_len() == end - start,
    {
        let stream = self.streams[stream_index];
        assert(self.input().streams[stream_index as int] == stream_view(stream));
        DecodedSpan::new(stream.object, stream.ordinal, start as u64, (end - start) as u64)
    }

    /// Charges the token that ends at the cursor.
    fn charge_token(&mut self, start: usize) -> (result: Result<DecodedSpan, ContentError>)
        requires
            old(self).well_formed(),
            old(self).stream_index < old(self).streams@.len(),
            start <= old(self).offset,
        ensures
            final(self).well_formed(),
            final(self).same_scan(old(self)),
            result matches Err(error) ==> charged(error, final(self).stats),
            final(self).stream_index == old(self).stream_index,
            final(self).offset == old(self).offset,
            match result {
                Ok(span) => token_to(old(self).input(), old(self).cursor(), start as int) == Ok::<
                    (DecodedSpan, Cursor),
                    ContentError,
                >((span, final(self).cursor())) && span.spec_start() == start && span.spec_len()
                    == old(self).offset - start && span.spec_len()
                    <= old(self).limits@.max_token_bytes && final(self).stats.retained_bytes
                    == old(self).stats.retained_bytes,
                Err(error) => old(self).is_outside(error) || token_to(
                    old(self).input(),
                    old(self).cursor(),
                    start as int,
                ) == Err::<(DecodedSpan, Cursor), ContentError>(error),
            },
    {
        let span = self.make_span(self.stream_index, start, self.offset);
        if span.decoded_len() > self.limits.max_token_bytes() {
            return Err(
                ContentError::resource(
                    ContentLimitKind::TokenBytes,
                    self.limits.max_token_bytes(),
                    0,
                    span.decoded_len(),
                    Some(span.start()),
                ),
            );
        }
        if self.stats.tokens >= self.limits.max_tokens() {
            return Err(
                ContentError::resource(
                    ContentLimitKind::Tokens,
                    self.limits.max_tokens(),
                    self.stats.tokens,
                    1,
                    Some(span.start()),
                ),
            );
        }
        match self.charge_fuel(1, Some(span.start())) {
            Ok(_) => {},
            Err(error) => {
                return Err(error);
            },
        }
        self.stats.tokens = self.stats.tokens + 1;
        if self.stats.max_token_bytes < span.decoded_len() {
            self.stats.max_token_bytes = span.decoded_len();
        }
        Ok(span)
    }

    /// Reads one regular token.
    fn scan_regular(&mut self) -> (result: Result<RawToken, ContentError>)
        requires
            old(self).well_formed(),
            old(self).stream_index < old(self).streams@.len(),
        ensures
            final(self).well_formed(),
            final(self).same_scan(old(self)),
            result matches Err(error) ==> charged(error, final(self).stats),
            match result {
                Ok(token) => {
                    &&& regular_token(old(self).input(), old(self).cursor()) == Ok::<
                        (DecodedSpan, Cursor),
                        ContentError,
                    >((token.span, final(self).cursor()))
                    &&& token.stream_index == old(self).stream_index
                    &&& final(self).stream_index == old(self).stream_index
                    &&& token.start == old(self).offset
                    &&& token.end == final(self).offset
                    &&& token.end - token.start <= old(self).limits@.max_token_bytes
                    &&& token.start < token.end <= old(
                        self,
                    ).streams@[token.stream_index as int].decoded@.len()
                    &&& final(self).input().left(final(self).cursor()) < old(self).input().left(
                        old(self).cursor(),
                    )
                    &&& final(self).stats.retained_bytes == old(self).stats.retained_bytes
                },
                Err(error) => old(self).is_outside(error) || regular_token(
                    old(self).input(),
                    old(self).cursor(),
                ) == Err::<(DecodedSpan, Cursor), ContentError>(error),
            },
    {
        let ghost input = self.input();
        assert(input.streams[self.stream_index as int] == stream_view(
            self.streams@[self.stream_index as int],
        ));
        let bytes = self.streams[self.stream_index].decoded;
        let stream_index: usize = self.stream_index;
        let start: usize = self.offset;
        let ghost count = regular_len(bytes@, start as int);
        while self.offset < bytes.len() && !is_delimiter(bytes[self.offset])
            invariant
                self.well_formed(),
                self.charged_from(old(self), self.offset - start),
                self.stream_index == old(self).stream_index,
                self.stream_index < self.streams@.len(),
                bytes@ == self.streams@[self.stream_index as int].decoded@,
                bytes@ == input.bytes(self.stream_index as int),
                input == old(self).input(),
                start == old(self).offset,
                start <= self.offset <= bytes@.len(),
                count == regular_len(bytes@, start as int),
                count == (self.offset - start) + regular_len(bytes@, self.offset as int),
                old(self).well_formed(),
            decreases bytes@.len() - self.offset,
        {
            let position = self.current_position();
            match self.charge_fuel(1, position) {
                Ok(_) => {},
                Err(error) => {
                    return Err(error);
                },
            }
            self.offset = self.offset + 1;
        }
        let end: usize = self.offset;
        if end == start {
            return Err(
                ContentError::for_code(
                    ContentErrorCode::MalformedToken,
                    self.position(stream_index, start),
                ),
            );
        }
        match self.charge_token(start) {
            Ok(span) => Ok(RawToken { stream_index, start, end, span }),
            Err(error) => Err(error),
        }
    }

    /// Reads one delimiter token.
    fn scan_fixed(&mut self, len: usize) -> (result: Result<DecodedSpan, ContentError>)
        requires
            old(self).well_formed(),
            1 <= len <= 2,
            old(self).stream_index < old(self).streams@.len(),
            old(self).offset + len <= old(
                self,
            ).streams@[old(self).stream_index as int].decoded@.len(),
        ensures
            final(self).well_formed(),
            final(self).same_scan(old(self)),
            result matches Err(error) ==> charged(error, final(self).stats),
            match result {
                Ok(span) => {
                    &&& fixed_token(old(self).input(), old(self).cursor(), len as u64) == Ok::<
                        (DecodedSpan, Cursor),
                        ContentError,
                    >((span, final(self).cursor()))
                    &&& final(self).input().left(final(self).cursor()) < old(self).input().left(
                        old(self).cursor(),
                    )
                },
                Err(error) => old(self).is_outside(error) || fixed_token(
                    old(self).input(),
                    old(self).cursor(),
                    len as u64,
                ) == Err::<(DecodedSpan, Cursor), ContentError>(error),
            },
    {
        let start: usize = self.offset;
        assert(self.input().streams[self.stream_index as int] == stream_view(
            self.streams@[self.stream_index as int],
        ));
        let position = self.current_position();
        match self.charge_fuel(len as u64, position) {
            Ok(_) => {},
            Err(error) => {
                return Err(error);
            },
        }
        let _size: usize = self.streams[self.stream_index].decoded.len();
        self.offset = start + len;
        self.charge_token(start)
    }

    /// Makes room for one more element, geometrically, within the retained budget.
    fn reserve_slot<T>(&mut self, values: &mut Vec<T>, position: Option<ContentPosition>) -> (result:
        Result<(), ContentError>)
        requires
            old(self).well_formed(),
            is_scanned::<T>(),
        ensures
            final(self).well_formed(),
            final(self).same_scan(old(self)),
            result matches Err(error) ==> charged(error, final(self).stats),
            final(self).cursor() == old(self).cursor(),
            final(values)@ == old(values)@,
            exists|capacity: usize, granted: Option<u64>|
                #![trigger call_ensures(capacity_of::<T>, (&*old(values),), capacity), is_granted(granted)]
                call_ensures(capacity_of::<T>, (&*old(values),), capacity) && is_granted(granted)
                    && slot_settled::<T>(
                    old(self).limits@,
                    old(self).stats.retained_bytes,
                    old(values)@.len(),
                    capacity,
                    granted,
                    position,
                    result,
                    final(self).stats.retained_bytes,
                ),
            result matches Err(error) ==> old(self).is_outside(error),
    {
        let capacity: usize = capacity_of(values);
        if values.len() < capacity {
            assert(is_granted(None));
            return Ok(());
        }
        let additional: usize = grow_slots(capacity);
        vstd::layout::layout_for_type_is_valid::<T>();
        let request: u64 = capacity_bytes::<T>(additional);
        if request > self.limits.max_retained_bytes() - self.stats.retained_bytes {
            assert(is_granted(None));
            let error = ContentError::resource(
                ContentLimitKind::RetainedBytes,
                self.limits.max_retained_bytes(),
                self.stats.retained_bytes,
                request,
                position,
            );
            proof {
                assert(slot_growth(capacity as int) * vstd::layout::size_of::<T>() == request);
                assert(is_slot_request::<T>(request as int));
                assert(is_scan_request(request as int, self.limits@));
                refused_requests_are_outside(
                    error,
                    self.limits@,
                    request as int,
                    self.answers(true),
                );
            }
            return Err(error);
        }
        let granted: Option<u64> = if try_reserve_exact(values, additional) {
            let after: usize = capacity_of(values);
            let actual: usize = after.saturating_sub(capacity);
            assert(actual * vstd::layout::size_of::<T>() <= after * vstd::layout::size_of::<T>())
                by (nonlinear_arith)
                requires
                    actual <= after,
            ;
            Some(capacity_bytes::<T>(actual))
        } else {
            None
        };
        assert(is_granted(granted));
        assert(slot_growth(capacity as int) * vstd::layout::size_of::<T>() == request);
        let settled = settle_request(
            self.limits,
            self.stats.retained_bytes,
            request,
            granted,
            position,
        );
        match settled {
            Ok(total) => {
                self.stats.retained_bytes = total;
                Ok(())
            },
            Err(error) => {
                proof {
                    assert(is_slot_request::<T>(request as int));
                    assert(is_scan_request(request as int, self.limits@));
                    refused_requests_are_outside(
                        error,
                        self.limits@,
                        request as int,
                        self.answers(true),
                    );
                }
                Err(error)
            },
        }
    }

    /// An empty vector with room for `capacity` bytes, within the retained budget.
    fn allocate_bytes(&mut self, capacity: usize, position: Option<ContentPosition>) -> (result:
        Result<Vec<u8>, ContentError>)
        requires
            old(self).well_formed(),
            capacity <= old(self).limits@.max_token_bytes,
        ensures
            final(self).well_formed(),
            final(self).same_scan(old(self)),
            result matches Err(error) ==> charged(error, final(self).stats),
            final(self).cursor() == old(self).cursor(),
            result matches Ok(bytes) ==> bytes@.len() == 0 && final(self).stats.retained_bytes
                >= old(self).stats.retained_bytes + capacity,
            result matches Err(error) ==> is_request_failure(
                error,
                old(self).limits@,
                capacity as int,
            ) && old(self).is_outside(error),
    {
        assert(is_scan_request(capacity as int, self.limits@));
        let request: u64 = capacity as u64;
        let mut output: Vec<u8> = Vec::new();
        if request > self.limits.max_retained_bytes() - self.stats.retained_bytes {
            let error = ContentError::resource(
                ContentLimitKind::RetainedBytes,
                self.limits.max_retained_bytes(),
                self.stats.retained_bytes,
                request,
                position,
            );
            proof {
                refused_requests_are_outside(
                    error,
                    self.limits@,
                    capacity as int,
                    self.answers(true),
                );
            }
            return Err(error);
        }
        let granted: Option<u64> = if try_reserve_exact(&mut output, capacity) {
            Some(capacity_of(&output) as u64)
        } else {
            None
        };
        let settled = settle_request(
            self.limits,
            self.stats.retained_bytes,
            request,
            granted,
            position,
        );
        match settled {
            Ok(total) => {
                self.stats.retained_bytes = total;
                Ok(output)
            },
            Err(error) => {
                proof {
                    refused_requests_are_outside(
                        error,
                        self.limits@,
                        capacity as int,
                        self.answers(true),
                    );
                }
                Err(error)
            },
        }
    }

    /// Copies the bytes of a token.
    fn copy_token_bytes(&mut self, token: RawToken) -> (result: Result<Vec<u8>, ContentError>)
        requires
            old(self).well_formed(),
            token.stream_index < old(self).streams@.len(),
            token.start <= token.end <= old(
                self,
            ).streams@[token.stream_index as int].decoded@.len(),
            token.end - token.start <= old(self).limits@.max_token_bytes,
        ensures
            final(self).well_formed(),
            final(self).same_scan(old(self)),
            result matches Err(error) ==> charged(error, final(self).stats),
            final(self).cursor() == old(self).cursor(),
            result matches Ok(bytes) ==> bytes@ == old(self).input().bytes(
                token.stream_index as int,
            ).subrange(token.start as int, token.end as int),
            result matches Err(error) ==> old(self).is_outside(error),
    {
        assert(self.input().streams[token.stream_index as int] == stream_view(
            self.streams@[token.stream_index as int],
        ));
        let mut copy: Vec<u8> = match self.allocate_bytes(
            token.end - token.start,
            Some(token.span.start()),
        ) {
            Ok(copy) => copy,
            Err(error) => {
                return Err(error);
            },
        };
        let bytes = self.streams[token.stream_index].decoded;
        let mut i: usize = token.start;
        while i < token.end
            invariant
                token.start <= i <= token.end <= bytes@.len(),
                copy@ =~= bytes@.subrange(token.start as int, i as int),
            decreases token.end - i,
        {
            copy.push(bytes[i]);
            i = i + 1;
        }
        Ok(copy)
    }

    /// Reads one name.
    fn scan_name(&mut self) -> (result: Result<(DecodedSpan, ContentName), ContentError>)
        requires
            old(self).well_formed(),
            old(self).stream_index < old(self).streams@.len(),
            old(self).offset < old(self).streams@[old(self).stream_index as int].decoded@.len(),
        ensures
            final(self).well_formed(),
            final(self).same_scan(old(self)),
            result matches Err(error) ==> charged(error, final(self).stats),
            match result {
                Ok((span, name)) => {
                    &&& name_at(old(self).input(), old(self).cursor()) == Ok::<
                        (DecodedSpan, Seq<u8>, Cursor),
                        ContentError,
                    >((span, name@, final(self).cursor()))
                    &&& final(self).input().left(final(self).cursor()) < old(self).input().left(
                        old(self).cursor(),
                    )
                },
                Err(error) => old(self).is_outside(error) || name_at(
                    old(self).input(),
                    old(self).cursor(),
                ) == Err::<(DecodedSpan, Seq<u8>, Cursor), ContentError>(error),
            },
    {
        let ghost input = self.input();
        assert(input.streams[self.stream_index as int] == stream_view(
            self.streams@[self.stream_index as int],
        ));
        let bytes = self.streams[self.stream_index].decoded;
        let stream_index: usize = self.stream_index;
        let start: usize = self.offset;
        let size: usize = bytes.len();
        let position = self.current_position();
        match self.charge_fuel(1, position) {
            Ok(_) => {},
            Err(error) => {
                return Err(error);
            },
        }
        self.offset = start + 1;
        let ghost target = name_body(input, self.cursor());
        let ghost work = self.stats;
        let mut decoded_len: usize = 0;
        while self.offset < bytes.len() && !is_delimiter(bytes[self.offset])
            invariant
                self.well_formed(),
                self.same_scan(old(self)),
                self.stream_index == stream_index,
                stream_index == old(self).stream_index,
                stream_index < self.streams@.len(),
                bytes@ == self.streams@[stream_index as int].decoded@,
                bytes@ == input.bytes(stream_index as int),
                input == old(self).input(),
                start < self.offset <= bytes@.len(),
                decoded_len <= self.offset - start,
                target == name_body(input, self.cursor()),
                charge(input, old(self).cursor().stats, 1, input.at(old(self).cursor())) == Ok::<
                    ContentScanStats,
                    ContentError,
                >(work_of(work)),
                target == name_body(
                    input,
                    Cursor {
                        stream: stream_index as int,
                        offset: start + 1,
                        stats: work_of(work),
                    },
                ),
                start == old(self).offset,
                size == bytes@.len(),
                escapes_ok(bytes@.subrange(start + 1, self.offset as int), 0),
            decreases bytes@.len() - self.offset,
        {
            let index: usize = self.offset;
            let ghost read = bytes@.subrange(start + 1, index as int);
            let position = self.current_position();
            match self.charge_fuel(1, position) {
                Ok(_) => {},
                Err(error) => {
                    return Err(error);
                },
            }
            if bytes[index] == 0x23 {
                if bytes.len() - index <= 2 || hex_value(bytes[index + 1]).is_none() || hex_value(
                    bytes[index + 2],
                ).is_none() {
                    return Err(
                        ContentError::for_code(
                            ContentErrorCode::InvalidNameEscape,
                            self.position(stream_index, index),
                        ),
                    );
                }
                let next = self.position(stream_index, index + 1);
                match self.charge_fuel(2, next) {
                    Ok(_) => {},
                    Err(error) => {
                        return Err(error);
                    },
                }
                self.offset = index + 3;
                proof {
                    let more = bytes@.subrange(index as int, index + 3);
                    assert(bytes@.subrange(start + 1, index + 3) =~= read + more);
                    reveal_with_fuel(escapes_ok, 3);
                    escapes_grow(read, more, 0);
                }
            } else {
                self.offset = index + 1;
                proof {
                    let more = bytes@.subrange(index as int, index + 1);
                    assert(bytes@.subrange(start + 1, index + 1) =~= read + more);
                    reveal_with_fuel(escapes_ok, 3);
                    escapes_grow(read, more, 0);
                }
            }
            decoded_len = decoded_len + 1;
        }
        let end: usize = self.offset;
        let span = match self.charge_token(start) {
            Ok(span) => span,
            Err(error) => {
                return Err(error);
            },
        };
        let mut decoded: Vec<u8> = match self.allocate_bytes(decoded_len, Some(span.start())) {
            Ok(decoded) => decoded,
            Err(error) => {
                return Err(error);
            },
        };
        let ghost raw = bytes@.subrange(start + 1, end as int);
        let mut source: usize = start + 1;
        assert(decoded@ + name_value(raw, 0) =~= name_value(raw, 0));
        while source < end
            invariant
                start + 1 <= source <= end <= bytes@.len(),
                raw == bytes@.subrange(start + 1, end as int),
                escapes_ok(raw, source - start - 1),
                decoded@ + name_value(raw, source - start - 1) == name_value(raw, 0),
            decreases end - source,
        {
            let ghost at = source - start - 1;
            let ghost earlier = decoded@;
            if bytes[source] == 0x23 {
                assert(raw[at] == 0x23);
                assert(raw[at + 1] == bytes@[source + 1] && raw[at + 2] == bytes@[source + 2]);
                match (hex_value(bytes[source + 1]), hex_value(bytes[source + 2])) {
                    (Some(high), Some(low)) => {
                        let byte: u8 = high * 16 + low;
                        decoded.push(byte);
                        assert(earlier + name_value(raw, at) =~= decoded@ + name_value(
                            raw,
                            at + 3,
                        ));
                    },
                    _ => {
                        assert(false);
                    },
                }
                source = source + 3;
            } else {
                decoded.push(bytes[source]);
                assert(earlier + name_value(raw, at) =~= decoded@ + name_value(raw, at + 1));
                source = source + 1;
            }
        }
        assert(decoded@ + name_value(raw, source - start - 1) =~= decoded@);
        Ok((span, ContentName::new(decoded)))
    }

    /// Reads one literal string.
    fn parse_literal_string(&mut self) -> (result: Result<LocatedOperand, ContentError>)
        requires
            old(self).well_formed(),
            old(self).stream_index < old(self).streams@.len(),
            old(self).offset < old(self).streams@[old(self).stream_index as int].decoded@.len(),
        ensures
            final(self).well_formed(),
            final(self).same_scan(old(self)),
            result matches Err(error) ==> charged(error, final(self).stats),
            match result {
                Ok(operand) => {
                    &&& literal_at(old(self).input(), old(self).cursor()) == Ok::<
                        (LocatedView, Cursor),
                        ContentError,
                    >((located_view(operand), final(self).cursor()))
                    &&& final(self).input().left(final(self).cursor()) < old(self).input().left(
                        old(self).cursor(),
                    )
                },
                Err(error) => old(self).is_outside(error) || literal_at(
                    old(self).input(),
                    old(self).cursor(),
                ) == Err::<(LocatedView, Cursor), ContentError>(error),
            },
    {
        let ghost input = self.input();
        assert(input.streams[self.stream_index as int] == stream_view(
            self.streams@[self.stream_index as int],
        ));
        let bytes = self.streams[self.stream_index].decoded;
        let stream_index: usize = self.stream_index;
        let start: usize = self.offset;
        let ghost target = literal_end(bytes@, start + 1, 1);
        let ghost before = *self;
        proof {
            literal_end_bounds(bytes@, start + 1, 1);
        }
        match self.read_byte() {
            Ok(_) => {},
            Err(error) => {
                return Err(error);
            },
        }
        let mut open: usize = 1;
        let mut decoded_len: usize = 0;
        while open > 0
            invariant
                self.well_formed(),
                self.charged_from(&before, self.offset - start),
                before == *old(self),
                before.well_formed(),
                input == before.input(),
                self.stream_index == stream_index,
                stream_index == before.stream_index,
                stream_index < self.streams@.len(),
                bytes@ == self.streams@[stream_index as int].decoded@,
                bytes@ == input.bytes(stream_index as int),
                start == before.offset,
                start < self.offset <= bytes@.len(),
                open <= self.offset - start,
                decoded_len <= self.offset - start,
                target == literal_end(bytes@, start + 1, 1),
                open > 0 ==> literal_end(bytes@, self.offset as int, open as int) == target,
                open == 0 ==> target == Some(self.offset as int),
                target matches Some(end) ==> start + 1 < end <= bytes@.len(),
            decreases bytes@.len() - self.offset,
        {
            proof {
                literal_end_bounds(bytes@, self.offset as int, open as int);
            }
            if self.offset >= bytes.len() {
                return Err(
                    ContentError::for_code(
                        ContentErrorCode::UnterminatedString,
                        self.position(stream_index, self.offset),
                    ),
                );
            }
            let byte: u8 = bytes[self.offset];
            let ghost at = self.offset as int;
            let ghost here = *self;
            if byte == 0x28 || byte == 0x29 {
                match self.read_byte() {
                    Ok(_) => {},
                    Err(error) => {
                        return Err(error);
                    },
                }
                if byte == 0x28 {
                    open = open + 1;
                    decoded_len = decoded_len + 1;
                } else {
                    open = open - 1;
                    if open > 0 {
                        decoded_len = decoded_len + 1;
                    }
                }
            } else {
                let ghost count = literal_element_len(bytes@, at);
                proof {
                    literal_end_bounds(bytes@, at + count, open as int);
                    assert(literal_end(bytes@, at, open as int) == literal_end(
                        bytes@,
                        at + count,
                        open as int,
                    ));
                }
                match self.read_literal_element() {
                    Ok(denotes) => {
                        if denotes {
                            decoded_len = decoded_len + 1;
                        }
                    },
                    Err(error) => {
                        return Err(error);
                    },
                }
            }
        }
        let end: usize = self.offset;
        let span = match self.charge_token(start) {
            Ok(span) => span,
            Err(error) => {
                return Err(error);
            },
        };
        let mut decoded: Vec<u8> = match self.allocate_bytes(decoded_len, Some(span.start())) {
            Ok(decoded) => decoded,
            Err(error) => {
                return Err(error);
            },
        };
        let inside = vstd::slice::slice_subrange(bytes, start + 1, end - 1);
        let ghost empty = decoded@;
        decode_literal(inside, &mut decoded);
        assert(decoded@ =~= crate::content::lexical::literal_value(
            bytes@.subrange(start + 1, end - 1),
            0,
        ));
        Ok(
            LocatedOperand::new(
                ContentExtent::from_span(span),
                ContentOperand::String(ContentString::new(decoded, ContentStringKind::Literal)),
            ),
        )
    }

    /// Pays for the byte at the cursor and passes it.
    fn read_byte(&mut self) -> (result: Result<(), ContentError>)
        requires
            old(self).well_formed(),
            old(self).stream_index < old(self).streams@.len(),
            old(self).offset < old(self).streams@[old(self).stream_index as int].decoded@.len(),
        ensures
            final(self).well_formed(),
            final(self).same_scan(old(self)),
            result matches Err(error) ==> charged(error, final(self).stats),
            match result {
                Ok(_) => final(self).charged_from(old(self), 1) && final(self).offset == old(
                    self,
                ).offset + 1 && final(self).stream_index == old(self).stream_index,
                Err(error) => old(self).is_outside(error) || (old(self).stats.fuel == old(
                    self,
                ).limits@.max_fuel && error == crate::content::error::content_resource(
                    ContentLimitKind::Fuel,
                    old(self).limits@.max_fuel,
                    old(self).limits@.max_fuel,
                    1,
                    old(self).input().at(old(self).cursor()),
                )),
            },
    {
        let _size: usize = self.streams[self.stream_index].decoded.len();
        let position = self.current_position();
        match self.charge_fuel(1, position) {
            Ok(_) => {},
            Err(error) => {
                return Err(error);
            },
        }
        self.offset = self.offset + 1;
        Ok(())
    }

    /// Reads one element of a literal string that is no parenthesis, and reports whether it denotes
    /// a byte.
    fn read_literal_element(&mut self) -> (result: Result<bool, ContentError>)
        requires
            old(self).well_formed(),
            old(self).stream_index < old(self).streams@.len(),
            old(self).offset < old(self).streams@[old(self).stream_index as int].decoded@.len(),
        ensures
            final(self).well_formed(),
            final(self).same_scan(old(self)),
            result matches Err(error) ==> charged(error, final(self).stats),
            ({
                let input = old(self).input();
                let cursor = old(self).cursor();
                let bytes = input.bytes(cursor.stream);
                let count = literal_element_len(bytes, cursor.offset);
                let cut = bytes[cursor.offset] == 0x5c && cursor.offset + 1 >= bytes.len();
                match result {
                    Ok(_) => {
                        &&& final(self).charged_from(old(self), count)
                        &&& final(self).offset == old(self).offset + count
                        &&& final(self).stream_index == old(self).stream_index
                        &&& !cut
                    },
                    Err(error) => {
                        ||| old(self).is_outside(error)
                        ||| read_run(input, cursor, count) == Err::<Cursor, ContentError>(error)
                        ||| cut && read_run(input, cursor, count) is Ok && error
                            == content_failure(
                            ContentErrorCode::UnterminatedString,
                            input.position(cursor.stream, bytes.len() as int),
                        )
                    },
                }
            }),
    {
        assert(self.input().streams[self.stream_index as int] == stream_view(
            self.streams@[self.stream_index as int],
        ));
        let bytes = self.streams[self.stream_index].decoded;
        let size: usize = bytes.len();
        let byte: u8 = bytes[self.offset];
        match self.read_byte() {
            Ok(_) => {},
            Err(error) => {
                return Err(error);
            },
        }
        if byte == 0x5c {
            if self.offset >= size {
                return Err(
                    ContentError::for_code(
                        ContentErrorCode::UnterminatedString,
                        self.position(self.stream_index, self.offset),
                    ),
                );
            }
            let escaped: u8 = bytes[self.offset];
            match self.read_byte() {
                Ok(_) => {},
                Err(error) => {
                    return Err(error);
                },
            }
            if escaped == 13 {
                if self.offset < size && bytes[self.offset] == 10 {
                    match self.read_byte() {
                        Ok(_) => {},
                        Err(error) => {
                            return Err(error);
                        },
                    }
                }
                return Ok(false);
            }
            if is_octal(escaped) {
                if self.offset < size && is_octal(bytes[self.offset]) {
                    match self.read_byte() {
                        Ok(_) => {},
                        Err(error) => {
                            return Err(error);
                        },
                    }
                    if self.offset < size && is_octal(bytes[self.offset]) {
                        match self.read_byte() {
                            Ok(_) => {},
                            Err(error) => {
                                return Err(error);
                            },
                        }
                    }
                }
            }
            return Ok(escaped != 10);
        }
        if byte == 13 && self.offset < size && bytes[self.offset] == 10 {
            match self.read_byte() {
                Ok(_) => {},
                Err(error) => {
                    return Err(error);
                },
            }
        }
        Ok(true)
    }

    /// Reads one hexadecimal string.
    fn parse_hex_string(&mut self) -> (result: Result<LocatedOperand, ContentError>)
        requires
            old(self).well_formed(),
            old(self).stream_index < old(self).streams@.len(),
            old(self).offset < old(self).streams@[old(self).stream_index as int].decoded@.len(),
        ensures
            final(self).well_formed(),
            final(self).same_scan(old(self)),
            result matches Err(error) ==> charged(error, final(self).stats),
            match result {
                Ok(operand) => {
                    &&& hex_at(old(self).input(), old(self).cursor()) == Ok::<
                        (LocatedView, Cursor),
                        ContentError,
                    >((located_view(operand), final(self).cursor()))
                    &&& final(self).input().left(final(self).cursor()) < old(self).input().left(
                        old(self).cursor(),
                    )
                },
                Err(error) => old(self).is_outside(error) || hex_at(
                    old(self).input(),
                    old(self).cursor(),
                ) == Err::<(LocatedView, Cursor), ContentError>(error),
            },
    {
        let ghost input = self.input();
        assert(input.streams[self.stream_index as int] == stream_view(
            self.streams@[self.stream_index as int],
        ));
        let bytes = self.streams[self.stream_index].decoded;
        let stream_index: usize = self.stream_index;
        let start: usize = self.offset;
        let ghost stop = hex_stop(bytes@, start + 1);
        let ghost before = *self;
        proof {
            hex_stop_bounds(bytes@, start + 1);
        }
        match self.read_byte() {
            Ok(_) => {},
            Err(error) => {
                return Err(error);
            },
        }
        let mut nibbles: usize = 0;
        while self.offset < bytes.len() && (is_pdf_whitespace(bytes[self.offset]) || hex_value(
            bytes[self.offset],
        ).is_some())
            invariant
                self.well_formed(),
                self.charged_from(&before, self.offset - start),
                before == *old(self),
                before.well_formed(),
                input == before.input(),
                self.stream_index == stream_index,
                stream_index == before.stream_index,
                stream_index < self.streams@.len(),
                bytes@ == self.streams@[stream_index as int].decoded@,
                bytes@ == input.bytes(stream_index as int),
                start == before.offset,
                start < self.offset <= bytes@.len(),
                nibbles <= self.offset - start - 1,
                stop == hex_stop(bytes@, start + 1),
                stop == hex_stop(bytes@, self.offset as int),
                self.offset <= stop <= bytes@.len(),
            decreases bytes@.len() - self.offset,
        {
            if !is_pdf_whitespace(bytes[self.offset]) {
                nibbles = nibbles + 1;
            }
            proof {
                hex_stop_bounds(bytes@, self.offset + 1);
            }
            match self.read_byte() {
                Ok(_) => {},
                Err(error) => {
                    return Err(error);
                },
            }
        }
        if self.offset >= bytes.len() {
            return Err(
                ContentError::for_code(
                    ContentErrorCode::UnterminatedString,
                    self.position(stream_index, self.offset),
                ),
            );
        }
        let closing: u8 = bytes[self.offset];
        let closing_at: usize = self.offset;
        match self.read_byte() {
            Ok(_) => {},
            Err(error) => {
                return Err(error);
            },
        }
        if closing != 0x3e {
            return Err(
                ContentError::for_code(
                    ContentErrorCode::InvalidHexString,
                    self.position(stream_index, closing_at),
                ),
            );
        }
        let span = match self.charge_token(start) {
            Ok(span) => span,
            Err(error) => {
                return Err(error);
            },
        };
        let mut decoded: Vec<u8> = match self.allocate_bytes(
            nibbles / 2 + nibbles % 2,
            Some(span.start()),
        ) {
            Ok(decoded) => decoded,
            Err(error) => {
                return Err(error);
            },
        };
        let inside = vstd::slice::slice_subrange(bytes, start + 1, closing_at);
        decode_hex(inside, &mut decoded);
        assert(decoded@ =~= crate::content::lexical::hex_value_of(
            bytes@.subrange(start + 1, stop),
        ));
        Ok(
            LocatedOperand::new(
                ContentExtent::from_span(span),
                ContentOperand::String(
                    ContentString::new(decoded, ContentStringKind::Hexadecimal),
                ),
            ),
        )
    }

    /// The operand that a regular token is, unless it is an operator.
    fn primitive_operand(&mut self, token: RawToken) -> (result: Result<
        Option<LocatedOperand>,
        ContentError,
    >)
        requires
            old(self).well_formed(),
            token.stream_index < old(self).streams@.len(),
            token.start < token.end <= old(
                self,
            ).streams@[token.stream_index as int].decoded@.len(),
            token.end - token.start <= old(self).limits@.max_token_bytes,
        ensures
            final(self).well_formed(),
            final(self).same_scan(old(self)),
            result matches Err(error) ==> charged(error, final(self).stats),
            final(self).cursor() == old(self).cursor(),
            ({
                let raw = old(self).input().bytes(token.stream_index as int).subrange(
                    token.start as int,
                    token.end as int,
                );
                match result {
                    Ok(Some(operand)) => primitive(raw, token.span) == Ok::<
                        Option<LocatedView>,
                        ContentError,
                    >(Some(located_view(operand))),
                    Ok(None) => primitive(raw, token.span) == Ok::<
                        Option<LocatedView>,
                        ContentError,
                    >(None),
                    Err(error) => old(self).is_outside(error) || primitive(raw, token.span) == Err::<
                        Option<LocatedView>,
                        ContentError,
                    >(error),
                }
            }),
    {
        assert(self.input().streams[token.stream_index as int] == stream_view(
            self.streams@[token.stream_index as int],
        ));
        let bytes = self.streams[token.stream_index].decoded;
        let raw = vstd::slice::slice_subrange(bytes, token.start, token.end);
        let extent = ContentExtent::from_span(token.span);
        if is_word(raw, &[0x6e, 0x75, 0x6c, 0x6c]) {
            assert(raw@ =~= seq![0x6eu8, 0x75, 0x6c, 0x6c]);
            return Ok(Some(LocatedOperand::new(extent, ContentOperand::Null)));
        }
        if is_word(raw, &[0x74, 0x72, 0x75, 0x65]) {
            assert(raw@ =~= seq![0x74u8, 0x72, 0x75, 0x65]);
            return Ok(Some(LocatedOperand::new(extent, ContentOperand::Boolean(true))));
        }
        if is_word(raw, &[0x66, 0x61, 0x6c, 0x73, 0x65]) {
            assert(raw@ =~= seq![0x66u8, 0x61, 0x6c, 0x73, 0x65]);
            return Ok(Some(LocatedOperand::new(extent, ContentOperand::Boolean(false))));
        }
        if !is_number_start(raw[0]) {
            return Ok(None);
        }
        match parse_number(raw) {
            Some(ParsedNumber::Integer(value)) => Ok(
                Some(LocatedOperand::new(extent, ContentOperand::Integer(value))),
            ),
            Some(ParsedNumber::Real) => {
                match self.copy_token_bytes(token) {
                    Ok(copy) => Ok(
                        Some(
                            LocatedOperand::new(extent, ContentOperand::Real(ContentReal::new(copy))),
                        ),
                    ),
                    Err(error) => Err(error),
                }
            },
            None => Err(
                ContentError::for_code(ContentErrorCode::InvalidNumber, Some(token.span.start())),
            ),
        }
    }

    /// Counts one operand.
    fn record_operand(&mut self, position: Option<ContentPosition>) -> (result: Result<
        (),
        ContentError,
    >)
        requires
            old(self).well_formed(),
        ensures
            final(self).well_formed(),
            final(self).same_scan(old(self)),
            result matches Err(error) ==> charged(error, final(self).stats),
            final(self).stream_index == old(self).stream_index,
            final(self).offset == old(self).offset,
            match result {
                Ok(_) => record_operand(old(self).cursor(), position) == Ok::<Cursor, ContentError>(
                    final(self).cursor(),
                ),
                Err(error) => record_operand(old(self).cursor(), position) == Err::<
                    Cursor,
                    ContentError,
                >(error),
            },
    {
        match self.stats.operands.checked_add(1) {
            Some(next) => {
                self.stats.operands = next;
                Ok(())
            },
            None => Err(ContentError::for_code(ContentErrorCode::InternalState, position)),
        }
    }

    /// Enters an array or a dictionary.
    fn enter_container(&mut self, parent_depth: u16) -> (result: Result<u16, ContentError>)
        requires
            old(self).well_formed(),
        ensures
            final(self).well_formed(),
            final(self).same_scan(old(self)),
            result matches Err(error) ==> charged(error, final(self).stats),
            final(self).stream_index == old(self).stream_index,
            final(self).offset == old(self).offset,
            match result {
                Ok(depth) => depth == parent_depth + 1 && enter_container(
                    old(self).input(),
                    old(self).cursor(),
                    parent_depth,
                ) == Ok::<Cursor, ContentError>(final(self).cursor()),
                Err(error) => enter_container(old(self).input(), old(self).cursor(), parent_depth)
                    == Err::<Cursor, ContentError>(error),
            },
    {
        let most: u16 = self.limits.max_nesting_depth();
        if parent_depth >= most {
            return Err(
                ContentError::resource(
                    ContentLimitKind::NestingDepth,
                    most as u64,
                    parent_depth as u64,
                    1,
                    self.current_position(),
                ),
            );
        }
        let depth: u16 = parent_depth + 1;
        if self.stats.max_nesting_depth < depth {
            self.stats.max_nesting_depth = depth;
        }
        Ok(depth)
    }

    /// Reads one operand, containers with everything in them.
    fn parse_operand(&mut self, depth: u16) -> (result: Result<LocatedOperand, ContentError>)
        requires
            old(self).well_formed(),
        ensures
            final(self).well_formed(),
            final(self).same_scan(old(self)),
            result matches Err(error) ==> charged(error, final(self).stats),
            match result {
                Ok(operand) => {
                    &&& operand_at(old(self).input(), old(self).cursor(), depth) == Ok::<
                        (LocatedView, Cursor),
                        ContentError,
                    >((located_view(operand), final(self).cursor()))
                    &&& final(self).input().left(final(self).cursor()) < old(self).input().left(
                        old(self).cursor(),
                    )
                },
                Err(error) => old(self).is_outside(error) || operand_at(
                    old(self).input(),
                    old(self).cursor(),
                    depth,
                ) == Err::<(LocatedView, Cursor), ContentError>(error),
            },
        decreases old(self).input().left(old(self).cursor()), 2int,
    {
        match self.skip_trivia() {
            Ok(_) => {},
            Err(error) => {
                return Err(error);
            },
        }
        let position = self.current_position();
        let byte: u8 = match self.peek() {
            Some(byte) => byte,
            None => {
                return Err(
                    ContentError::for_code(ContentErrorCode::MismatchedDelimiter, position),
                );
            },
        };
        assert(self.input().streams[self.stream_index as int] == stream_view(
            self.streams@[self.stream_index as int],
        ));
        let read = if byte == 0x5b {
            self.parse_array(depth)
        } else if byte == 0x3c && self.peek_next_is(0x3c) {
            self.parse_dictionary(depth)
        } else if byte == 0x28 {
            self.parse_literal_string()
        } else if byte == 0x3c {
            self.parse_hex_string()
        } else if byte == 0x2f {
            match self.scan_name() {
                Ok((span, name)) => Ok(
                    LocatedOperand::new(ContentExtent::from_span(span), ContentOperand::Name(name)),
                ),
                Err(error) => Err(error),
            }
        } else if byte == 0x5d || byte == 0x3e {
            Err(ContentError::for_code(ContentErrorCode::MismatchedDelimiter, position))
        } else if byte == 0x29 || byte == 0x7b || byte == 0x7d {
            Err(ContentError::for_code(ContentErrorCode::MalformedToken, position))
        } else {
            match self.scan_regular() {
                Ok(token) => match self.primitive_operand(token) {
                    Ok(Some(operand)) => Ok(operand),
                    Ok(None) => Err(
                        ContentError::for_code(
                            ContentErrorCode::MalformedToken,
                            Some(token.span.start()),
                        ),
                    ),
                    Err(error) => Err(error),
                },
                Err(error) => Err(error),
            }
        };
        let operand = match read {
            Ok(operand) => operand,
            Err(error) => {
                return Err(error);
            },
        };
        match self.record_operand(position) {
            Ok(_) => Ok(operand),
            Err(error) => Err(error),
        }
    }

    /// Reads one array.
    fn parse_array(&mut self, parent_depth: u16) -> (result: Result<LocatedOperand, ContentError>)
        requires
            old(self).well_formed(),
            old(self).stream_index < old(self).streams@.len(),
            old(self).offset < old(self).streams@[old(self).stream_index as int].decoded@.len(),
        ensures
            final(self).well_formed(),
            final(self).same_scan(old(self)),
            result matches Err(error) ==> charged(error, final(self).stats),
            match result {
                Ok(operand) => {
                    &&& array_at(old(self).input(), old(self).cursor(), parent_depth) == Ok::<
                        (LocatedView, Cursor),
                        ContentError,
                    >((located_view(operand), final(self).cursor()))
                    &&& final(self).input().left(final(self).cursor()) < old(self).input().left(
                        old(self).cursor(),
                    )
                },
                Err(error) => old(self).is_outside(error) || array_at(
                    old(self).input(),
                    old(self).cursor(),
                    parent_depth,
                ) == Err::<(LocatedView, Cursor), ContentError>(error),
            },
        decreases old(self).input().left(old(self).cursor()), 1int,
    {
        let ghost input = self.input();
        let depth: u16 = match self.enter_container(parent_depth) {
            Ok(depth) => depth,
            Err(error) => {
                return Err(error);
            },
        };
        let open = match self.scan_fixed(1) {
            Ok(open) => open,
            Err(error) => {
                return Err(error);
            },
        };
        let ghost inside = self.cursor();
        let ghost target = array_items(input, inside, depth, Seq::empty());
        let mut values: Vec<LocatedOperand> = Vec::new();
        assert(operand_views(values@) =~= Seq::empty());
        loop
            invariant
                self.well_formed(),
                self.same_scan(old(self)),
                self.input() == input,
                input == old(self).input(),
                depth == parent_depth + 1,
                target == array_items(input, self.cursor(), depth, operand_views(values@)),
                input.left(self.cursor()) < input.left(old(self).cursor()),
                ({
                    let whole = match target {
                        Err(error) => Err(error),
                        Ok((items, close, next)) => Ok(
                            (
                                LocatedView {
                                    extent: ContentExtent {
                                        start: open.spec_start_position(),
                                        end_exclusive: close.spec_end_position(),
                                    },
                                    value: OperandView::Array(items),
                                },
                                next,
                            ),
                        ),
                    };
                    array_at(input, old(self).cursor(), parent_depth) == whole
                }),
            decreases input.left(self.cursor()),
        {
            let ghost here = self.cursor();
            match self.skip_trivia() {
                Ok(_) => {},
                Err(error) => {
                    return Err(error);
                },
            }
            let byte: u8 = match self.peek() {
                Some(byte) => byte,
                None => {
                    return Err(
                        ContentError::for_code(
                            ContentErrorCode::MismatchedDelimiter,
                            self.final_position(),
                        ),
                    );
                },
            };
            assert(input.streams[self.stream_index as int] == stream_view(
                self.streams@[self.stream_index as int],
            ));
            if byte == 0x5d {
                match self.scan_fixed(1) {
                    Ok(close) => {
                        let extent = ContentExtent::new(open.start(), close.end_exclusive());
                        proof {
                            array_view(values);
                        }
                        return Ok(LocatedOperand::new(extent, ContentOperand::Array(values)));
                    },
                    Err(error) => {
                        return Err(error);
                    },
                }
            }
            if byte == 0x3e && self.peek_next_is(0x3e) {
                return Err(
                    ContentError::for_code(
                        ContentErrorCode::MismatchedDelimiter,
                        self.current_position(),
                    ),
                );
            }
            let value = match self.parse_operand(depth) {
                Ok(value) => value,
                Err(error) => {
                    return Err(error);
                },
            };
            match self.reserve_slot(&mut values, Some(value.extent.start)) {
                Ok(_) => {},
                Err(error) => {
                    return Err(error);
                },
            }
            let ghost earlier = values@;
            values.push(value);
            assert(operand_views(values@) =~= operand_views(earlier).push(located_view(value)));
        }
    }

    /// Reads one dictionary.
    fn parse_dictionary(&mut self, parent_depth: u16) -> (result: Result<
        LocatedOperand,
        ContentError,
    >)
        requires
            old(self).well_formed(),
            old(self).stream_index < old(self).streams@.len(),
            old(self).offset + 1 < old(
                self,
            ).streams@[old(self).stream_index as int].decoded@.len(),
        ensures
            final(self).well_formed(),
            final(self).same_scan(old(self)),
            result matches Err(error) ==> charged(error, final(self).stats),
            match result {
                Ok(operand) => {
                    &&& dictionary_at(old(self).input(), old(self).cursor(), parent_depth) == Ok::<
                        (LocatedView, Cursor),
                        ContentError,
                    >((located_view(operand), final(self).cursor()))
                    &&& final(self).input().left(final(self).cursor()) < old(self).input().left(
                        old(self).cursor(),
                    )
                },
                Err(error) => old(self).is_outside(error) || dictionary_at(
                    old(self).input(),
                    old(self).cursor(),
                    parent_depth,
                ) == Err::<(LocatedView, Cursor), ContentError>(error),
            },
        decreases old(self).input().left(old(self).cursor()), 1int,
    {
        let ghost input = self.input();
        let depth: u16 = match self.enter_container(parent_depth) {
            Ok(depth) => depth,
            Err(error) => {
                return Err(error);
            },
        };
        let open = match self.scan_fixed(2) {
            Ok(open) => open,
            Err(error) => {
                return Err(error);
            },
        };
        let ghost inside = self.cursor();
        let ghost target = dictionary_items(input, inside, depth, Seq::empty());
        let mut entries: Vec<ContentDictionaryEntry> = Vec::new();
        assert(entry_views(entries@) =~= Seq::empty());
        loop
            invariant
                self.well_formed(),
                self.same_scan(old(self)),
                self.input() == input,
                input == old(self).input(),
                depth == parent_depth + 1,
                target == dictionary_items(input, self.cursor(), depth, entry_views(entries@)),
                input.left(self.cursor()) < input.left(old(self).cursor()),
                ({
                    let whole = match target {
                        Err(error) => Err(error),
                        Ok((items, close, next)) => Ok(
                            (
                                LocatedView {
                                    extent: ContentExtent {
                                        start: open.spec_start_position(),
                                        end_exclusive: close.spec_end_position(),
                                    },
                                    value: OperandView::Dictionary(items),
                                },
                                next,
                            ),
                        ),
                    };
                    dictionary_at(input, old(self).cursor(), parent_depth) == whole
                }),
            decreases input.left(self.cursor()),
        {
            let ghost here = self.cursor();
            match self.skip_trivia() {
                Ok(_) => {},
                Err(error) => {
                    return Err(error);
                },
            }
            let byte: u8 = match self.peek() {
                Some(byte) => byte,
                None => {
                    return Err(
                        ContentError::for_code(
                            ContentErrorCode::MismatchedDelimiter,
                            self.final_position(),
                        ),
                    );
                },
            };
            assert(input.streams[self.stream_index as int] == stream_view(
                self.streams@[self.stream_index as int],
            ));
            if byte == 0x3e && self.peek_next_is(0x3e) {
                match self.scan_fixed(2) {
                    Ok(close) => {
                        let extent = ContentExtent::new(open.start(), close.end_exclusive());
                        proof {
                            dictionary_view(entries);
                        }
                        return Ok(
                            LocatedOperand::new(extent, ContentOperand::Dictionary(entries)),
                        );
                    },
                    Err(error) => {
                        return Err(error);
                    },
                }
            }
            if byte == 0x5d {
                return Err(
                    ContentError::for_code(
                        ContentErrorCode::MismatchedDelimiter,
                        self.current_position(),
                    ),
                );
            }
            if byte != 0x2f {
                return Err(
                    ContentError::for_code(
                        ContentErrorCode::InvalidDictionaryKey,
                        self.current_position(),
                    ),
                );
            }
            let (key_span, key) = match self.scan_name() {
                Ok(named) => named,
                Err(error) => {
                    return Err(error);
                },
            };
            let value = match self.parse_operand(depth) {
                Ok(value) => value,
                Err(error) => {
                    return Err(error);
                },
            };
            match self.reserve_slot(&mut entries, Some(key_span.start())) {
                Ok(_) => {},
                Err(error) => {
                    return Err(error);
                },
            }
            let entry = ContentDictionaryEntry::new(key_span, key, value);
            let ghost earlier = entries@;
            entries.push(entry);
            assert(entry_views(entries@) =~= entry_views(earlier).push(entry_view(entry)));
        }
    }

    /// Puts one operand before the next operator.
    fn push_pending(&mut self, pending: &mut Vec<LocatedOperand>, operand: LocatedOperand) -> (result:
        Result<(), ContentError>)
        requires
            old(self).well_formed(),
        ensures
            final(self).well_formed(),
            final(self).same_scan(old(self)),
            result matches Err(error) ==> charged(error, final(self).stats),
            final(self).stream_index == old(self).stream_index,
            final(self).offset == old(self).offset,
            match result {
                Ok(_) => push_pending(
                    old(self).input(),
                    old(self).cursor(),
                    operand_views(old(pending)@),
                    located_view(operand),
                ) == Ok::<(Seq<LocatedView>, Cursor), ContentError>(
                    (operand_views(final(pending)@), final(self).cursor()),
                ),
                Err(error) => old(self).is_outside(error) || push_pending(
                    old(self).input(),
                    old(self).cursor(),
                    operand_views(old(pending)@),
                    located_view(operand),
                ) == Err::<(Seq<LocatedView>, Cursor), ContentError>(error),
            },
    {
        let count: u64 = pending.len() as u64;
        let most: u32 = self.limits.max_operands_per_operator();
        if count >= most as u64 {
            return Err(
                ContentError::resource(
                    ContentLimitKind::OperandsPerOperator,
                    most as u64,
                    count,
                    1,
                    Some(operand.extent.start),
                ),
            );
        }
        match self.reserve_slot(pending, Some(operand.extent.start)) {
            Ok(_) => {},
            Err(error) => {
                return Err(error);
            },
        }
        let ghost earlier = pending@;
        pending.push(operand);
        assert(operand_views(pending@) =~= operand_views(earlier).push(located_view(operand)));
        let group: u32 = count as u32 + 1;
        if self.stats.max_operands_per_operator < group {
            self.stats.max_operands_per_operator = group;
        }
        Ok(())
    }

    /// Publishes one operator with the operands before it.
    fn publish_operator(
        &mut self,
        operators: &mut Vec<ScannedOperator>,
        pending: &mut Vec<LocatedOperand>,
        token: RawToken,
    ) -> (result: Result<(), ContentError>)
        requires
            old(self).well_formed(),
            token.stream_index < old(self).streams@.len(),
            token.start < token.end <= old(
                self,
            ).streams@[token.stream_index as int].decoded@.len(),
            token.end - token.start <= old(self).limits@.max_token_bytes,
        ensures
            final(self).well_formed(),
            final(self).same_scan(old(self)),
            result matches Err(error) ==> charged(error, final(self).stats),
            final(self).stream_index == old(self).stream_index,
            final(self).offset == old(self).offset,
            ({
                let raw = old(self).input().bytes(token.stream_index as int).subrange(
                    token.start as int,
                    token.end as int,
                );
                let outcome = publish(
                    old(self).input(),
                    old(self).cursor(),
                    raw,
                    token.span,
                    operand_views(old(pending)@),
                );
                match result {
                    Ok(_) => {
                        &&& outcome is Ok
                        &&& operator_views(final(operators)@) == operator_views(
                            old(operators)@,
                        ).push(outcome->Ok_0.0)
                        &&& final(self).cursor() == outcome->Ok_0.1
                        &&& final(pending)@.len() == 0
                    },
                    Err(error) => old(self).is_outside(error) || (outcome is Err
                        && outcome->Err_0 == error),
                }
            }),
    {
        if self.stats.operators >= self.limits.max_operators() {
            return Err(
                ContentError::resource(
                    ContentLimitKind::Operators,
                    self.limits.max_operators(),
                    self.stats.operators,
                    1,
                    Some(token.span.start()),
                ),
            );
        }
        assert(self.input().streams[token.stream_index as int] == stream_view(
            self.streams@[token.stream_index as int],
        ));
        let bytes = self.streams[token.stream_index].decoded;
        let raw = vstd::slice::slice_subrange(bytes, token.start, token.end);
        let operator = match OperatorKind::from_token(raw) {
            Some(kind) => {
                proof {
                    found_operators_have_the_token(raw@, kind);
                }
                ContentOperator::Known(kind)
            },
            None => {
                let copy = match self.copy_token_bytes(token) {
                    Ok(copy) => copy,
                    Err(error) => {
                        return Err(error);
                    },
                };
                match self.stats.unknown_operators.checked_add(1) {
                    Some(next) => {
                        self.stats.unknown_operators = next;
                    },
                    None => {
                        return Err(
                            ContentError::for_code(
                                ContentErrorCode::InternalState,
                                Some(token.span.start()),
                            ),
                        );
                    },
                }
                ContentOperator::Unknown(copy)
            },
        };
        match self.reserve_slot(operators, Some(token.span.start())) {
            Ok(_) => {},
            Err(error) => {
                return Err(error);
            },
        }
        let mut operands: Vec<LocatedOperand> = Vec::new();
        std::mem::swap(&mut operands, pending);
        let scanned = ScannedOperator::new(
            operator,
            operands,
            ContentOperatorSource::new(token.span, self.stats.operators),
        );
        let ghost earlier = operators@;
        operators.push(scanned);
        assert(operator_views(operators@) =~= operator_views(earlier).push(operator_view(scanned)));
        self.stats.operators = self.stats.operators + 1;
        Ok(())
    }

    /// Admits the streams against the stream and byte budgets.
    fn admit_inputs(&mut self) -> (result: Result<(), ContentError>)
        requires
            old(self).well_formed(),
            old(self).cursor() == (Cursor { stream: 0, offset: 0, stats: no_scan_work() }),
        ensures
            final(self).well_formed(),
            final(self).same_scan(old(self)),
            result matches Err(error) ==> charged(error, final(self).stats),
            ({
                let input = old(self).input();
                match result {
                    Ok(_) => {
                        &&& input.streams.len() <= input.limits.max_streams
                        &&& admit_bytes(input, 0) is Ok
                        &&& final(self).cursor() == (Cursor {
                            stream: 0,
                            offset: 0,
                            stats: ContentScanStats {
                                streams: input.streams.len() as u32,
                                total_decoded_bytes: admit_bytes(input, 0)->Ok_0,
                                ..no_scan_work()
                            },
                        })
                    },
                    Err(error) => scanned(input) == Err::<
                        (Seq<crate::content::view::OperatorView>, ContentScanStats),
                        ContentError,
                    >(error),
                }
            }),
    {
        let count: usize = self.streams.len();
        let most: u32 = self.limits.max_streams();
        if count as u64 > most as u64 {
            return Err(
                ContentError::resource(
                    ContentLimitKind::Streams,
                    most as u64,
                    0,
                    count as u64,
                    None,
                ),
            );
        }
        self.stats.streams = count as u32;
        let ceiling: u64 = self.limits.max_total_decoded_bytes();
        let ghost input = self.input();
        let mut total: u64 = 0;
        let mut i: usize = 0;
        while i < count
            invariant
                i <= count == self.streams@.len(),
                input == self.input(),
                ceiling == input.limits.max_total_decoded_bytes,
                ceiling <= 1024 * 1024 * 1024,
                total == total_bytes(input.streams, i as int),
                total <= ceiling,
                admit_bytes(input, 0) == admit_bytes(input, i as int),
                input.streams.len() <= input.limits.max_streams,
                input == old(self).input(),
                self.same_scan(old(self)),
                self.well_formed(),
            decreases count - i,
        {
            assert(input.streams[i as int] == stream_view(self.streams@[i as int]));
            let stream = self.streams[i];
            let len: u64 = stream.decoded.len() as u64;
            if len > ceiling - total {
                return Err(
                    ContentError::resource(
                        ContentLimitKind::TotalDecodedBytes,
                        ceiling,
                        total,
                        len,
                        Some(ContentPosition::new(stream.object, stream.ordinal, 0)),
                    ),
                );
            }
            total = total + len;
            i = i + 1;
        }
        self.stats.total_decoded_bytes = total;
        Ok(())
    }

    /// Scans everything.
    #[verifier::rlimit(60)]
    #[verifier::spinoff_prover]
    fn scan(&mut self) -> (result: Result<ContentProgram, ContentError>)
        requires
            old(self).well_formed(),
            old(self).cursor() == (Cursor { stream: 0, offset: 0, stats: no_scan_work() }),
        ensures
            match result {
                Ok(program) => {
                    &&& scanned(old(self).input()) == Ok::<
                        (Seq<crate::content::view::OperatorView>, ContentScanStats),
                        ContentError,
                    >((operator_views(program.spec_operators()), work_of(program.spec_stats())))
                    &&& program.spec_limits() == old(self).limits
                    &&& old(self).answers(false)
                    &&& program.spec_stats().retained_bytes
                        <= program.spec_limits()@.max_retained_bytes
                },
                Err(error) => old(self).is_outside(error) || scanned(old(self).input()) == Err::<
                    (Seq<crate::content::view::OperatorView>, ContentScanStats),
                    ContentError,
                >(error),
            },
            result matches Err(error) ==> is_failed_work(
                error,
                final(self).stats,
                old(self).limits@,
            ) && (error.code != ContentErrorCode::Cancelled ==> old(self).answers(false)),
    {
        let ghost input = self.input();
        match self.check_cancelled(None) {
            Ok(_) => {},
            Err(error) => {
                return Err(error);
            },
        }
        match self.admit_inputs() {
            Ok(_) => {},
            Err(error) => {
                return Err(error);
            },
        }
        let mut operators: Vec<ScannedOperator> = Vec::new();
        let mut pending: Vec<LocatedOperand> = Vec::new();
        assert(operator_views(operators@) =~= Seq::empty());
        assert(operand_views(pending@) =~= Seq::empty());
        let ghost target = operators_from(input, self.cursor(), Seq::empty(), Seq::empty());
        assert(scanned(input) == target);
        loop
            invariant
                self.well_formed(),
                self.same_scan(old(self)),
                self.input() == input,
                input == old(self).input(),
                scanned(input) == target,
                old(self).answers(false),
                target == operators_from(
                    input,
                    self.cursor(),
                    operator_views(operators@),
                    operand_views(pending@),
                ),
            decreases input.left(self.cursor()),
        {
            let ghost here = self.cursor();
            match self.skip_trivia() {
                Ok(_) => {},
                Err(error) => {
                    return Err(error);
                },
            }
            let byte: u8 = match self.peek() {
                Some(byte) => byte,
                None => {
                    if pending.len() > 0 {
                        return Err(
                            ContentError::for_code(
                                ContentErrorCode::DanglingOperands,
                                self.final_position(),
                            ),
                        );
                    }
                    let last = self.final_position();
                    match self.check_cancelled(last) {
                        Ok(_) => {},
                        Err(error) => {
                            return Err(error);
                        },
                    }
                    return Ok(ContentProgram::new(operators, self.limits, self.stats));
                },
            };
            assert(input.streams[self.stream_index as int] == stream_view(
                self.streams@[self.stream_index as int],
            ));
            if byte == 0x5b || byte == 0x28 || byte == 0x2f || byte == 0x3c {
                let operand = match self.parse_operand(0) {
                    Ok(operand) => operand,
                    Err(error) => {
                        return Err(error);
                    },
                };
                match self.push_pending(&mut pending, operand) {
                    Ok(_) => {},
                    Err(error) => {
                        return Err(error);
                    },
                }
                continue ;
            }
            if is_delimiter(byte) {
                let code = if byte == 0x5d || byte == 0x3e {
                    ContentErrorCode::MismatchedDelimiter
                } else {
                    ContentErrorCode::MalformedToken
                };
                return Err(ContentError::for_code(code, self.current_position()));
            }
            let ghost start = self.cursor();
            let token = match self.scan_regular() {
                Ok(token) => token,
                Err(error) => {
                    return Err(error);
                },
            };
            let ghost raw = input.bytes(token.stream_index as int).subrange(
                token.start as int,
                token.end as int,
            );
            assert(raw == token_bytes(input, start, self.cursor()));
            let mut named = None;
            if is_number_start(byte) || byte == 0x6e || byte == 0x74 || byte == 0x66 {
                named = match self.primitive_operand(token) {
                    Ok(operand) => operand,
                    Err(error) => {
                        return Err(error);
                    },
                };
            } else {
                proof {
                    other_words_are_operators(raw, token.span);
                }
            }
            match named {
                Some(operand) => {
                    match self.record_operand(Some(operand.extent.start)) {
                        Ok(_) => {},
                        Err(error) => {
                            return Err(error);
                        },
                    }
                    match self.push_pending(&mut pending, operand) {
                        Ok(_) => {},
                        Err(error) => {
                            return Err(error);
                        },
                    }
                },
                None => {
                    match self.publish_operator(&mut operators, &mut pending, token) {
                        Ok(_) => {},
                        Err(error) => {
                            return Err(error);
                        },
                    }
                    assert(operand_views(pending@) =~= Seq::empty());
                },
            }
        }
    }
}

/// A word that starts as neither a number nor a keyword does is an operator.
proof fn other_words_are_operators(raw: Seq<u8>, span: DecodedSpan)
    requires
        raw.len() > 0,
        !number_start(raw[0]),
        raw[0] != 0x6e,
        raw[0] != 0x74,
        raw[0] != 0x66,
    ensures
        primitive(raw, span) == Ok::<Option<LocatedView>, ContentError>(None),
{
    assert(seq![0x6eu8, 0x75, 0x6c, 0x6c][0] == 0x6e);
    assert(seq![0x74u8, 0x72, 0x75, 0x65][0] == 0x74);
    assert(seq![0x66u8, 0x61, 0x6c, 0x73, 0x65][0] == 0x66);
}

/// Compares a token with a word.
fn is_word(raw: &[u8], word: &[u8]) -> (same: bool)
    ensures
        same == (raw@ == word@),
{
    if raw.len() != word.len() {
        return false;
    }
    let mut i: usize = 0;
    while i < raw.len()
        invariant
            i <= raw@.len() == word@.len(),
            raw@.take(i as int) =~= word@.take(i as int),
        decreases raw@.len() - i,
    {
        if raw[i] != word[i] {
            assert(raw@[i as int] != word@[i as int]);
            return false;
        }
        i = i + 1;
    }
    assert(raw@.take(i as int) =~= raw@);
    assert(word@.take(i as int) =~= word@);
    true
}

/// Whether every number sign from `i` on is followed by two hexadecimal digits.
spec fn escapes_ok(raw: Seq<u8>, i: int) -> bool
    decreases raw.len() - i,
{
    if i < 0 || i >= raw.len() {
        i == raw.len()
    } else if raw[i] == 0x23 {
        i + 2 < raw.len() && hex_of(raw[i + 1]) is Some && hex_of(raw[i + 2]) is Some && escapes_ok(
            raw,
            i + 3,
        )
    } else {
        escapes_ok(raw, i + 1)
    }
}

proof fn escapes_grow(read: Seq<u8>, more: Seq<u8>, i: int)
    requires
        0 <= i <= read.len(),
        escapes_ok(read, i),
        escapes_ok(more, 0),
    ensures
        escapes_ok(read + more, i),
    decreases read.len() - i,
{
    let all = read + more;
    if i < read.len() {
        assert(all[i] == read[i]);
        if read[i] == 0x23 {
            assert(all[i + 1] == read[i + 1] && all[i + 2] == read[i + 2]);
            escapes_grow(read, more, i + 3);
        } else {
            escapes_grow(read, more, i + 1);
        }
    } else {
        escapes_shift(read, more, 0);
    }
}

proof fn escapes_shift(read: Seq<u8>, more: Seq<u8>, i: int)
    requires
        0 <= i <= more.len(),
        escapes_ok(more, i),
    ensures
        escapes_ok(read + more, read.len() + i),
    decreases more.len() - i,
{
    let all = read + more;
    if i < more.len() {
        assert(all[read.len() + i] == more[i]);
        if more[i] == 0x23 {
            assert(all[read.len() + i + 1] == more[i + 1] && all[read.len() + i + 2] == more[i
                + 2]);
            escapes_shift(read, more, i + 3);
        } else {
            escapes_shift(read, more, i + 1);
        }
    }
}

proof fn literal_end_bounds(bytes: Seq<u8>, i: int, open: int)
    requires
        0 <= i,
    ensures
        literal_end(bytes, i, open) matches Some(end) ==> i < end <= bytes.len(),
    decreases bytes.len() - i,
{
    if i < bytes.len() {
        if bytes[i] == 0x28 {
            literal_end_bounds(bytes, i + 1, open + 1);
        } else if bytes[i] == 0x29 {
            if open != 1 {
                literal_end_bounds(bytes, i + 1, open - 1);
            }
        } else {
            literal_end_bounds(bytes, i + literal_element_len(bytes, i), open);
        }
    }
}

proof fn hex_stop_bounds(bytes: Seq<u8>, i: int)
    requires
        0 <= i <= bytes.len(),
    ensures
        i <= hex_stop(bytes, i) <= bytes.len(),
    decreases bytes.len() - i,
{
    if i < bytes.len() && (whitespace(bytes[i]) || hex_of(bytes[i]) is Some) {
        hex_stop_bounds(bytes, i + 1);
    }
}

/// Bytes that `capacity` elements take.
fn capacity_bytes<T>(capacity: usize) -> (bytes: u64)
    requires
        capacity * vstd::layout::size_of::<T>() <= usize::MAX,
    ensures
        bytes == capacity * vstd::layout::size_of::<T>(),
{
    (capacity * core::mem::size_of::<T>()) as u64
}

/// Observable terminal phase of a content scan job.
#[derive(Clone, Copy, Debug, PartialEq, Eq, Structural)]
pub enum ContentScanPhase {
    /// No scan has run yet.
    Pending,
    /// A complete immutable program was published.
    Ready,
    /// Scanning failed terminally without partial publication.
    Failed,
}

/// One replayable content scan outcome.
pub enum ContentScanPoll {
    /// Complete immutable program.
    Ready(Arc<ContentProgram>),
    /// Terminal structured failure.
    Failed(ContentError),
}

enum JobState {
    Pending,
    Ready(Arc<ContentProgram>),
    Failed(ContentError),
}

/// Single-owner, terminal-replay content scanner.
pub struct ContentScanJob<'a> {
    streams: &'a [DecodedContentStream<'a>],
    limits: ContentLimits,
    state: JobState,
    stats: ContentScanStats,
}

/// Whether `outcome` is what a scan of the input may end in: the published program is the one that
/// the content denotes, and a failure is the content's own unless the runtime or memory decided it.
/// The cancellation, which may answer as `cancelled` and `uncancelled` say, is asked before anything
/// is read.
pub open spec fn is_scan_outcome(
    streams: Seq<DecodedContentStream<'_>>,
    limits: ContentLimits,
    outcome: Result<ContentProgram, ContentError>,
    cancelled: bool,
    uncancelled: bool,
) -> bool {
    let expected = scanned(scan_input(streams, limits));
    match outcome {
        Ok(program) => {
            &&& expected is Ok
            &&& operator_views(program.spec_operators()) == expected->Ok_0.0
            &&& work_of(program.spec_stats()) == expected->Ok_0.1
            &&& program.spec_limits() == limits
            &&& program.spec_stats().retained_bytes <= limits@.max_retained_bytes
            &&& uncancelled
        },
        Err(error) => {
            &&& is_outside_failure(error, limits@, cancelled) || (expected is Err
                && expected->Err_0 == error)
            &&& error.code != ContentErrorCode::Cancelled ==> uncancelled
        },
    }
}

impl<'a> ContentScanJob<'a> {
    /// The streams, as a value.
    pub closed spec fn spec_streams(&self) -> Seq<DecodedContentStream<'a>> {
        self.streams@
    }

    /// The limits, as a value.
    pub closed spec fn spec_limits(&self) -> ContentLimits {
        self.limits
    }

    /// The terminal outcome, once there is one.
    pub closed spec fn spec_outcome(&self) -> Option<ContentScanPoll> {
        match self.state {
            JobState::Pending => None,
            JobState::Ready(program) => Some(ContentScanPoll::Ready(program)),
            JobState::Failed(error) => Some(ContentScanPoll::Failed(error)),
        }
    }

    /// The charged work, as a value.
    pub closed spec fn spec_stats(&self) -> ContentScanStats {
        self.stats
    }

    /// Validates ordered stream metadata and creates a pending job.
    pub fn new(streams: &'a [DecodedContentStream<'a>], limits: ContentLimits) -> (job: Result<
        Self,
        ContentError,
    >)
        ensures
            job is Ok <==> in_order(streams@),
            job matches Ok(value) ==> {
                &&& value.spec_streams() == streams@
                &&& value.spec_limits() == limits
                &&& value.spec_outcome() is None
                &&& value.spec_stats() == no_scan_work()
            },
            job matches Err(error) ==> error == content_failure(
                ContentErrorCode::InvalidStreamOrder,
                None,
            ),
    {
        match validate_stream_order(streams) {
            Ok(_) => Ok(
                Self {
                    streams,
                    limits,
                    state: JobState::Pending,
                    stats: ContentScanStats::default(),
                },
            ),
            Err(error) => Err(error),
        }
    }

    /// Returns the current terminal-or-pending phase.
    pub fn phase(&self) -> (phase: ContentScanPhase)
        ensures
            phase == (match self.spec_outcome() {
                None => ContentScanPhase::Pending,
                Some(ContentScanPoll::Ready(_)) => ContentScanPhase::Ready,
                Some(ContentScanPoll::Failed(_)) => ContentScanPhase::Failed,
            }),
    {
        match &self.state {
            JobState::Pending => ContentScanPhase::Pending,
            JobState::Ready(_) => ContentScanPhase::Ready,
            JobState::Failed(_) => ContentScanPhase::Failed,
        }
    }

    /// Returns work charged by the initial attempt or its terminal replay.
    pub fn stats(&self) -> (stats: ContentScanStats)
        ensures
            stats == self.spec_stats(),
    {
        self.stats
    }

    /// Runs once and then replays the exact terminal outcome without further work.
    pub fn poll<C: ContentCancellation>(&mut self, cancellation: &C) -> (poll: ContentScanPoll)
        ensures
            final(self).spec_outcome() == Some(poll),
            final(self).spec_streams() == old(self).spec_streams(),
            final(self).spec_limits() == old(self).spec_limits(),
            old(self).spec_outcome() matches Some(outcome) ==> poll == outcome && *final(self)
                == *old(self),
            old(self).spec_outcome() is None ==> match poll {
                ContentScanPoll::Ready(program) => is_scan_outcome(
                    old(self).spec_streams(),
                    old(self).spec_limits(),
                    Ok(*program),
                    call_ensures(C::is_cancelled, (cancellation,), true),
                    call_ensures(C::is_cancelled, (cancellation,), false),
                ) && final(self).spec_stats() == program.spec_stats(),
                ContentScanPoll::Failed(error) => is_scan_outcome(
                    old(self).spec_streams(),
                    old(self).spec_limits(),
                    Err(error),
                    call_ensures(C::is_cancelled, (cancellation,), true),
                    call_ensures(C::is_cancelled, (cancellation,), false),
                ) && is_failed_work(error, final(self).spec_stats(), old(self).spec_limits()@),
            },
    {
        match &self.state {
            JobState::Ready(program) => {
                return ContentScanPoll::Ready(share(program));
            },
            JobState::Failed(error) => {
                return ContentScanPoll::Failed(*error);
            },
            JobState::Pending => {},
        }
        let mut runner = Runner::new(self.streams, self.limits, cancellation);
        match runner.scan() {
            Ok(program) => {
                self.stats = program.stats();
                let program = Arc::new(program);
                self.state = JobState::Ready(share(&program));
                ContentScanPoll::Ready(program)
            },
            Err(error) => {
                self.stats = runner.stats;
                self.state = JobState::Failed(error);
                ContentScanPoll::Failed(error)
            },
        }
    }
}

/// Checks that every stream carries its zero-based place as its ordinal.
fn validate_stream_order(streams: &[DecodedContentStream<'_>]) -> (result: Result<
    (),
    ContentError,
>)
    ensures
        result is Ok <==> in_order(streams@),
        result matches Err(error) ==> error == content_failure(
            ContentErrorCode::InvalidStreamOrder,
            None,
        ),
{
    let mut i: usize = 0;
    while i < streams.len()
        invariant
            i <= streams@.len(),
            forall|k: int| 0 <= k < i ==> (#[trigger] streams@[k]).ordinal == k,
        decreases streams@.len() - i,
    {
        if streams[i].ordinal as u64 != i as u64 {
            assert(streams@[i as int].ordinal != i);
            return Err(ContentError::for_code(ContentErrorCode::InvalidStreamOrder, None));
        }
        i = i + 1;
    }
    Ok(())
}

/// Scans one ordered stream sequence, and reports the work that was charged, also where it failed.
pub fn scan_with_work<C: ContentCancellation>(
    streams: &[DecodedContentStream<'_>],
    limits: ContentLimits,
    cancellation: &C,
) -> (outcome: (Result<ContentProgram, ContentError>, ContentScanStats))
    ensures
        !in_order(streams@) ==> outcome.0 is Err && outcome.0->Err_0 == content_failure(
            ContentErrorCode::InvalidStreamOrder,
            None,
        ) && outcome.1 == no_scan_work(),
        in_order(streams@) ==> is_scan_outcome(
            streams@,
            limits,
            outcome.0,
            call_ensures(C::is_cancelled, (cancellation,), true),
            call_ensures(C::is_cancelled, (cancellation,), false),
        ),
        match outcome.0 {
            Ok(program) => outcome.1 == program.spec_stats(),
            Err(error) => is_failed_work(error, outcome.1, limits@),
        },
{
    match validate_stream_order(streams) {
        Ok(_) => {},
        Err(error) => {
            return (Err(error), ContentScanStats::default());
        },
    }
    let mut runner = Runner::new(streams, limits, cancellation);
    match runner.scan() {
        Ok(program) => {
            let stats = program.stats();
            (Ok(program), stats)
        },
        Err(error) => (Err(error), runner.stats),
    }
}

/// Scans one ordered stream sequence without retaining a job after completion.
pub fn scan_content_streams<C: ContentCancellation>(
    streams: &[DecodedContentStream<'_>],
    limits: ContentLimits,
    cancellation: &C,
) -> (program: Result<ContentProgram, ContentError>)
    ensures
        !in_order(streams@) ==> program is Err && program->Err_0 == content_failure(
            ContentErrorCode::InvalidStreamOrder,
            None,
        ),
        in_order(streams@) ==> is_scan_outcome(
            streams@,
            limits,
            program,
            call_ensures(C::is_cancelled, (cancellation,), true),
            call_ensures(C::is_cancelled, (cancellation,), false),
        ),
{
    scan_with_work(streams, limits, cancellation).0
}

} // verus!
