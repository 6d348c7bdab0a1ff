//! What a range store is, and what each of its operations makes of it.

use vstd::prelude::*;

use crate::bytes::error::{
    source_category_of, source_failure, source_resource, SourceError, SourceErrorCategory,
    SourceErrorCode, SourceLimitKind,
};
use crate::bytes::limits::RangeStoreLimitConfig;
use crate::bytes::model::{
    canonical_ranges, ByteRange, DataTicket, JobId, ReadRequest, ResumeSubscription, SourceIdentity,
    SourceSnapshot,
};
use crate::bytes::segments::{
    covered_offsets, covers, covers_all, first_beyond, first_reaching, gaps, gaps_of_all, inserted,
    joined, segments_ok, segments_within, total_len, touches, Segment,
};

verus! {

/// Retained state of one data ticket.
#[derive(Clone, Copy, Debug, PartialEq, Eq, Structural)]
pub enum TicketPhase {
    Pending,
    Ready,
    Failed(SourceError),
    SourceChanged,
    Abandoned,
}

/// One ticket: what it waits for, and who waits.
pub struct TicketView {
    pub ticket: DataTicket,
    pub missing: Seq<ByteRange>,
    pub subscribers: Seq<ResumeSubscription>,
    pub phase: TicketPhase,
}

/// One store: the bytes that it holds, and its tickets in order of creation.
pub struct StoreView {
    pub snapshot: SourceSnapshot,
    pub limits: RangeStoreLimitConfig,
    pub segments: Seq<Segment>,
    pub bytes: Map<int, u8>,
    pub tickets: Seq<TicketView>,
    pub next_ticket: u64,
    pub observed_len: Option<u64>,
    pub source_changed: bool,
}

/// Outcome of one read.
pub enum ReadView {
    Ready { identity: SourceIdentity, range: ByteRange, bytes: Seq<u8> },
    Pending { ticket: DataTicket, missing: Seq<ByteRange> },
    EndOfFile,
    Failed(SourceError),
}

/// Subscriptions retained by all tickets together.
pub open spec fn subscriber_total(tickets: Seq<TicketView>) -> int
    decreases tickets.len(),
{
    if tickets.len() == 0 {
        0
    } else {
        subscriber_total(tickets.drop_last()) + tickets.last().subscribers.len()
    }
}

/// Whether a ticket record is consistent with the segments and the budgets.
pub open spec fn ticket_ok(ticket: TicketView, store: StoreView) -> bool {
    &&& 1 <= ticket.ticket.0 < store.next_ticket
    &&& 0 < ticket.missing.len() <= store.limits.max_missing_ranges
    &&& canonical_ranges(ticket.missing)
    &&& forall|i: int|
        0 <= i < ticket.missing.len() ==> 0 <= (#[trigger] ticket.missing[i]).first()
            < ticket.missing[i].end() <= store.limits.max_input_bytes
    &&& ticket.subscribers.len() <= store.limits.max_subscribers_per_ticket
    &&& forall|i: int, j: int|
        #![trigger ticket.subscribers[i], ticket.subscribers[j]]
        0 <= i < j < ticket.subscribers.len() ==> ticket.subscribers[i].job
            != ticket.subscribers[j].job
    &&& ticket.phase == TicketPhase::Pending ==> {
        &&& !store.source_changed
        &&& ticket.subscribers.len() > 0
        &&& forall|i: int, offset: int|
            0 <= i < ticket.missing.len() && (#[trigger] ticket.missing[i]).contains(offset)
                ==> !#[trigger] covers(store.segments, offset)
    }
}

/// The invariant of a store.
pub open spec fn store_ok(store: StoreView) -> bool {
    &&& store.limits.admissible()
    &&& segments_ok(store.segments)
    &&& segments_within(store.segments, store.limits.max_input_bytes as int)
    &&& store.observed_len matches Some(len) ==> len <= store.limits.max_input_bytes
        && segments_within(store.segments, len as int)
    &&& forall|offset: int| #[trigger]
        store.bytes.dom().contains(offset) <==> covers(store.segments, offset)
    &&& total_len(store.segments) <= store.limits.max_cached_bytes
    &&& store.segments.len() <= store.limits.max_segments
    &&& store.tickets.len() <= store.limits.max_tickets
    &&& subscriber_total(store.tickets) <= store.limits.max_total_subscriptions
    &&& forall|i: int| 0 <= i < store.tickets.len() ==> #[trigger] ticket_ok(store.tickets[i], store)
    &&& forall|i: int, j: int|
        #![trigger store.tickets[i], store.tickets[j]]
        0 <= i < j < store.tickets.len() ==> store.tickets[i].ticket != store.tickets[j].ticket
    &&& store.next_ticket >= 1
}

/// An empty store bound to `snapshot`.
pub open spec fn empty_store(snapshot: SourceSnapshot, limits: RangeStoreLimitConfig) -> StoreView {
    StoreView {
        snapshot,
        limits,
        segments: Seq::empty(),
        bytes: Map::empty(),
        tickets: Seq::empty(),
        next_ticket: 1,
        observed_len: snapshot.len,
        source_changed: false,
    }
}

/// A pending ticket ends in `SourceChanged`; a terminal one keeps its state.
pub open spec fn changed_ticket(ticket: TicketView) -> TicketView {
    if ticket.phase == TicketPhase::Pending {
        TicketView { phase: TicketPhase::SourceChanged, ..ticket }
    } else {
        ticket
    }
}

/// The store once its snapshot is known to be stale.
pub open spec fn poisoned(store: StoreView) -> StoreView {
    StoreView {
        source_changed: true,
        tickets: store.tickets.map_values(|ticket: TicketView| changed_ticket(ticket)),
        ..store
    }
}

/// The store after a refusal: integrity failures poison it, all others leave it as it was.
pub open spec fn after_refusal(store: StoreView, error: SourceError) -> StoreView {
    if source_category_of(error.spec_code()) == SourceErrorCategory::Integrity {
        poisoned(store)
    } else {
        store
    }
}

/// Whether an observed total length contradicts what the store knows.
pub open spec fn length_conflict(store: StoreView, len: Option<u64>) -> bool {
    match store.observed_len {
        Some(expected) => len != Some(expected),
        None => match len {
            Some(observed) => store.segments.len() > 0 && store.segments.last().end_exclusive
                > observed,
            None => false,
        },
    }
}

/// The total length that an observation makes known for the first time.
pub open spec fn newly_bound(store: StoreView, len: Option<u64>) -> Option<u64> {
    if store.observed_len is None {
        len
    } else {
        None
    }
}

/// Whether some missing byte lies at or beyond the end of the source.
pub open spec fn crosses_eof(missing: Seq<ByteRange>, observed: u64) -> bool {
    missing.len() > 0 && missing.last().end() > observed
}

/// A pending ticket whose ranges end beyond a newly known end of file is ready to be read again.
pub open spec fn ticket_at_eof(ticket: TicketView, bound: Option<u64>) -> TicketView {
    if ticket.phase == TicketPhase::Pending && bound is Some && crosses_eof(
        ticket.missing,
        bound->0,
    ) {
        TicketView { phase: TicketPhase::Ready, ..ticket }
    } else {
        ticket
    }
}

/// The tickets that `after` has ready and `before` had pending, in order.
pub open spec fn became_ready(before: Seq<TicketView>, after: Seq<TicketView>) -> Seq<DataTicket>
    decreases before.len(),
{
    if before.len() == 0 || after.len() != before.len() {
        Seq::empty()
    } else {
        let front = became_ready(before.drop_last(), after.drop_last());
        if before.last().phase == TicketPhase::Pending && after.last().phase == TicketPhase::Ready {
            front.push(after.last().ticket)
        } else {
            front
        }
    }
}

/// Why an observation of source metadata is refused.
pub open spec fn observe_refusal(store: StoreView, observed: SourceSnapshot) -> Option<
    SourceError,
> {
    if store.source_changed || !observed.same_source(store.snapshot) || length_conflict(
        store,
        observed.len,
    ) {
        Some(source_failure(SourceErrorCode::SourceChanged))
    } else if newly_bound(store, observed.len) is Some && newly_bound(store, observed.len)->0
        > store.limits.max_input_bytes {
        Some(
            source_resource(
                SourceLimitKind::InputBytes,
                store.limits.max_input_bytes,
                newly_bound(store, observed.len)->0,
            ),
        )
    } else {
        None
    }
}

/// The store after an accepted observation.
pub open spec fn after_observe(store: StoreView, len: Option<u64>) -> StoreView {
    StoreView {
        observed_len: if store.observed_len is None {
            len
        } else {
            store.observed_len
        },
        tickets: store.tickets.map_values(
            |ticket: TicketView| ticket_at_eof(ticket, newly_bound(store, len)),
        ),
        ..store
    }
}

/// The bytes of a response at their offsets.
pub open spec fn placed(range: ByteRange, bytes: Seq<u8>) -> Map<int, u8> {
    Map::new(|offset: int| range.contains(offset), |offset: int| bytes[offset - range.first()])
}

/// Whether a response contradicts a byte that is already held.
pub open spec fn conflicts(held: Map<int, u8>, range: ByteRange, bytes: Seq<u8>) -> bool {
    exists|offset: int|
        range.contains(offset) && #[trigger] held.dom().contains(offset) && held[offset]
            != bytes[offset - range.first()]
}

/// Whether a pending ticket is left with more missing ranges than the budget admits.
pub open spec fn too_fragmented(ticket: TicketView, segments: Seq<Segment>, max: int) -> bool {
    ticket.phase == TicketPhase::Pending && gaps_of_all(segments, ticket.missing).len() > max
}

/// Why a response is refused by what is known of it before it is held.
pub open spec fn response_refusal(
    store: StoreView,
    observed: SourceSnapshot,
    range: ByteRange,
) -> Option<SourceError> {
    let len = (range.end() - range.first()) as u64;
    if store.source_changed || !observed.same_source(store.snapshot) || length_conflict(
        store,
        observed.len,
    ) {
        Some(source_failure(SourceErrorCode::SourceChanged))
    } else if len > store.limits.max_read_bytes {
        Some(source_resource(SourceLimitKind::ReadBytes, store.limits.max_read_bytes, len))
    } else if range.end() > store.limits.max_input_bytes {
        Some(
            source_resource(
                SourceLimitKind::InputBytes,
                store.limits.max_input_bytes,
                range.end() as u64,
            ),
        )
    } else {
        None
    }
}

/// The failure of a store whose resident bytes would reach `reached`.
pub open spec fn resident_failure(store: StoreView, reached: int) -> SourceError {
    source_resource(
        SourceLimitKind::ResidentBytes,
        store.limits.max_resident_bytes,
        if reached <= u64::MAX {
            reached as u64
        } else {
            u64::MAX
        },
    )
}

/// The failure of a response that would split what a ticket waits for into too many ranges.
pub open spec fn fragmentation_failure(store: StoreView) -> SourceError {
    source_resource(
        SourceLimitKind::MissingRanges,
        store.limits.max_missing_ranges as u64,
        (store.limits.max_missing_ranges + 1) as u64,
    )
}

/// Whether some pending ticket would be left with more missing ranges than the budget admits.
pub open spec fn fragments_a_ticket(store: StoreView, segments: Seq<Segment>) -> bool {
    exists|i: int|
        0 <= i < store.tickets.len() && too_fragmented(
            #[trigger] store.tickets[i],
            segments,
            store.limits.max_missing_ranges as int,
        )
}

/// Why a response is refused, the memory that it takes aside.
pub open spec fn supply_refusal(
    store: StoreView,
    observed: SourceSnapshot,
    range: ByteRange,
    bytes: Seq<u8>,
) -> Option<SourceError> {
    let after = inserted(store.segments, range.first() as u64, range.end() as u64);
    if response_refusal(store, observed, range) is Some {
        response_refusal(store, observed, range)
    } else if newly_bound(store, observed.len) is Some && newly_bound(store, observed.len)->0
        > store.limits.max_input_bytes {
        Some(
            source_resource(
                SourceLimitKind::InputBytes,
                store.limits.max_input_bytes,
                newly_bound(store, observed.len)->0,
            ),
        )
    } else if conflicts(store.bytes, range, bytes) {
        Some(source_failure(SourceErrorCode::ConflictingBytes))
    } else if covers_all(store.segments, range.first(), range.end()) {
        None
    } else if total_len(after) > store.limits.max_cached_bytes {
        Some(
            source_resource(
                SourceLimitKind::CachedBytes,
                store.limits.max_cached_bytes,
                total_len(after) as u64,
            ),
        )
    } else if after.len() > store.limits.max_segments {
        Some(
            source_resource(
                SourceLimitKind::Segments,
                store.limits.max_segments as u64,
                after.len() as u64,
            ),
        )
    } else if fragments_a_ticket(store, after) {
        Some(fragmentation_failure(store))
    } else {
        None
    }
}

/// Why a response of the given capacity is refused before the allocator is asked for anything.
/// What the store already holds resident leaves no room for it, or `supply_refusal` says why; only
/// that a ticket would be split is found out later.
pub open spec fn prompt_refusal(
    store: StoreView,
    resident: u64,
    capacity: u64,
    observed: SourceSnapshot,
    range: ByteRange,
    bytes: Seq<u8>,
) -> Option<SourceError> {
    let refusal = supply_refusal(store, observed, range, bytes);
    if response_refusal(store, observed, range) is Some {
        refusal
    } else if resident + capacity > store.limits.max_resident_bytes {
        Some(resident_failure(store, resident + capacity))
    } else if refusal == Some(fragmentation_failure(store)) {
        None
    } else {
        refusal
    }
}

/// Whether a response that nothing refuses promptly failed for want of memory. Where it makes the
/// length known or brings new bytes it takes a slot per ticket, and with new bytes a new list of
/// segments, a list of missing ranges per pending ticket, and storage for the joined segment where
/// it touches another. While the segments are joined, what is resident, the response and the joined
/// bytes are held together; a refusal reports their total, or more where the allocator gave more.
pub open spec fn supply_memory_failure(
    store: StoreView,
    resident: u64,
    capacity: u64,
    observed: SourceSnapshot,
    range: ByteRange,
    error: SourceError,
) -> bool {
    let tickets = store.tickets.len();
    let start = range.first() as u64;
    let end = range.end() as u64;
    let lo = first_reaching(store.segments, start as int, 0);
    let union = joined(store.segments, lo, first_beyond(store.segments, end as int, lo), start, end);
    ||| (newly_bound(store, observed.len) is Some || !covers_all(
        store.segments,
        range.first(),
        range.end(),
    )) && tickets > 0 && error == source_resource(
        SourceLimitKind::Allocation,
        store.limits.max_tickets as u64,
        tickets as u64,
    )
    ||| !covers_all(store.segments, range.first(), range.end()) && {
        ||| error == source_resource(
            SourceLimitKind::Allocation,
            store.limits.max_segments as u64,
            inserted(store.segments, start, end).len() as u64,
        )
        ||| tickets > 0 && error == source_resource(
            SourceLimitKind::Allocation,
            store.limits.max_missing_ranges as u64,
            store.limits.max_missing_ranges as u64,
        )
        ||| touches(store.segments, range.first(), range.end()) && {
            ||| error == source_resource(
                SourceLimitKind::Allocation,
                store.limits.max_resident_bytes,
                (union.end_exclusive - union.start) as u64,
            )
            ||| join_refused(
                store,
                resident + capacity + (union.end_exclusive - union.start),
                error,
            )
        }
    }
}

/// What is resident at least while a response is joined with the segments that it touches: what was
/// resident before, the response, and the joined bytes.
pub open spec fn joining_bytes(
    store: StoreView,
    resident: u64,
    capacity: u64,
    range: ByteRange,
) -> int {
    let start = range.first() as u64;
    let end = range.end() as u64;
    let lo = first_reaching(store.segments, start as int, 0);
    let union = joined(store.segments, lo, first_beyond(store.segments, end as int, lo), start, end);
    resident + capacity + (union.end_exclusive - union.start)
}

/// Whether a response cannot be joined with the segments that it touches within the ceiling.
pub open spec fn cannot_join(
    store: StoreView,
    resident: u64,
    capacity: u64,
    range: ByteRange,
) -> bool {
    &&& !covers_all(store.segments, range.first(), range.end())
    &&& touches(store.segments, range.first(), range.end())
    &&& joining_bytes(store, resident, capacity, range) > store.limits.max_resident_bytes
}

/// Whether a response that cannot be joined fails for that: a slot per ticket is asked for before.
pub open spec fn is_join_failure(
    store: StoreView,
    resident: u64,
    capacity: u64,
    range: ByteRange,
    error: SourceError,
) -> bool {
    let tickets = store.tickets.len();
    ||| error == resident_failure(store, joining_bytes(store, resident, capacity, range))
    ||| tickets > 0 && error == source_resource(
        SourceLimitKind::Allocation,
        store.limits.max_tickets as u64,
        tickets as u64,
    )
}

/// Whether a join that takes `least` resident bytes fails because it would reach more than the
/// ceiling: those bytes where they already pass it, and otherwise what the allocator gave.
pub open spec fn join_refused(store: StoreView, least: int, error: SourceError) -> bool {
    exists|reached: int|
        {
            &&& reached > store.limits.max_resident_bytes
            &&& reached >= least
            &&& least > store.limits.max_resident_bytes ==> reached == least
            &&& error == #[trigger] resident_failure(store, reached)
        }
}

/// A ticket once `segments` are held: ready when nothing is missing any more, or when what is
/// missing lies beyond a newly known end of file.
pub open spec fn supplied_ticket(
    ticket: TicketView,
    segments: Seq<Segment>,
    bound: Option<u64>,
) -> TicketView {
    let remaining = gaps_of_all(segments, ticket.missing);
    if ticket.phase != TicketPhase::Pending {
        ticket
    } else if remaining.len() == 0 || (bound is Some && crosses_eof(remaining, bound->0)) {
        TicketView { phase: TicketPhase::Ready, ..ticket }
    } else {
        TicketView { missing: remaining, ..ticket }
    }
}

/// The store after an accepted response.
pub open spec fn after_supply(
    store: StoreView,
    observed: SourceSnapshot,
    range: ByteRange,
    bytes: Seq<u8>,
) -> StoreView {
    let after = inserted(store.segments, range.first() as u64, range.end() as u64);
    if covers_all(store.segments, range.first(), range.end()) {
        after_observe(store, observed.len)
    } else {
        StoreView {
            segments: after,
            bytes: store.bytes.union_prefer_right(placed(range, bytes)),
            observed_len: if store.observed_len is None {
                observed.len
            } else {
                store.observed_len
            },
            tickets: store.tickets.map_values(
                |ticket: TicketView|
                    supplied_ticket(ticket, after, newly_bound(store, observed.len)),
            ),
            ..store
        }
    }
}

/// Position of `ticket` from `i` on, or the number of tickets where there is none.
pub open spec fn ticket_index(tickets: Seq<TicketView>, ticket: DataTicket, i: int) -> int
    decreases tickets.len() - i,
{
    if i >= tickets.len() || tickets[i].ticket == ticket {
        i
    } else {
        ticket_index(tickets, ticket, i + 1)
    }
}

/// Position of the first pending ticket from `i` on that waits for exactly `missing`.
pub open spec fn waiting_index(tickets: Seq<TicketView>, missing: Seq<ByteRange>, i: int) -> int
    decreases tickets.len() - i,
{
    if i >= tickets.len() || (tickets[i].phase == TicketPhase::Pending && tickets[i].missing
        == missing) {
        i
    } else {
        waiting_index(tickets, missing, i + 1)
    }
}

/// Position of the first subscription of `job` from `i` on.
pub open spec fn job_index(subscribers: Seq<ResumeSubscription>, job: JobId, i: int) -> int
    decreases subscribers.len() - i,
{
    if i >= subscribers.len() || subscribers[i].job == job {
        i
    } else {
        job_index(subscribers, job, i + 1)
    }
}

/// The store with one ticket replaced.
pub open spec fn with_ticket(store: StoreView, i: int, ticket: TicketView) -> StoreView {
    StoreView { tickets: store.tickets.update(i, ticket), ..store }
}

/// The store after a ticket identifier was handed out.
pub open spec fn ticket_spent(store: StoreView) -> StoreView {
    StoreView { next_ticket: (store.next_ticket + 1) as u64, ..store }
}

/// Outcome of a read, memory aside, and the store that it leaves.
pub open spec fn poll_outcome(store: StoreView, request: ReadRequest) -> (ReadView, StoreView) {
    let range = request.range;
    let len = (range.end() - range.first()) as u64;
    let missing = gaps(store.segments, range);
    let subscriber = ResumeSubscription { job: request.job, checkpoint: request.checkpoint };
    let i = waiting_index(store.tickets, missing, 0);
    let total = subscriber_total(store.tickets);
    let too_many = ReadView::Failed(
        source_resource(
            SourceLimitKind::TotalSubscriptions,
            store.limits.max_total_subscriptions as u64,
            (total + 1) as u64,
        ),
    );
    if store.source_changed {
        (ReadView::Failed(source_failure(SourceErrorCode::SourceChanged)), store)
    } else if len > store.limits.max_read_bytes {
        (
            ReadView::Failed(
                source_resource(SourceLimitKind::ReadBytes, store.limits.max_read_bytes, len),
            ),
            store,
        )
    } else if store.observed_len is Some && range.end() > store.observed_len->0 {
        (ReadView::EndOfFile, store)
    } else if range.end() > store.limits.max_input_bytes {
        (
            ReadView::Failed(
                source_resource(
                    SourceLimitKind::InputBytes,
                    store.limits.max_input_bytes,
                    range.end() as u64,
                ),
            ),
            store,
        )
    } else if covers_all(store.segments, range.first(), range.end()) {
        (
            ReadView::Ready {
                identity: store.snapshot.identity,
                range,
                bytes: Seq::new(len as nat, |k: int| store.bytes[range.first() + k]),
            },
            store,
        )
    } else if missing.len() > store.limits.max_missing_ranges {
        (
            ReadView::Failed(
                source_resource(
                    SourceLimitKind::MissingRanges,
                    store.limits.max_missing_ranges as u64,
                    (store.limits.max_missing_ranges + 1) as u64,
                ),
            ),
            store,
        )
    } else if i < store.tickets.len() {
        let record = store.tickets[i];
        let k = job_index(record.subscribers, request.job, 0);
        if k < record.subscribers.len() {
            if record.subscribers[k].checkpoint != request.checkpoint {
                (ReadView::Failed(source_failure(SourceErrorCode::CheckpointConflict)), store)
            } else {
                (ReadView::Pending { ticket: record.ticket, missing }, store)
            }
        } else if total >= store.limits.max_total_subscriptions {
            (too_many, store)
        } else if record.subscribers.len() >= store.limits.max_subscribers_per_ticket {
            (
                ReadView::Failed(
                    source_resource(
                        SourceLimitKind::TicketSubscribers,
                        store.limits.max_subscribers_per_ticket as u64,
                        (record.subscribers.len() + 1) as u64,
                    ),
                ),
                store,
            )
        } else {
            (
                ReadView::Pending { ticket: record.ticket, missing },
                with_ticket(
                    store,
                    i,
                    TicketView { subscribers: record.subscribers.push(subscriber), ..record },
                ),
            )
        }
    } else if store.tickets.len() >= store.limits.max_tickets {
        (
            ReadView::Failed(
                source_resource(
                    SourceLimitKind::Tickets,
                    store.limits.max_tickets as u64,
                    (store.tickets.len() + 1) as u64,
                ),
            ),
            store,
        )
    } else if total >= store.limits.max_total_subscriptions {
        (too_many, store)
    } else if store.next_ticket == u64::MAX {
        (
            ReadView::Failed(
                source_resource(
                    SourceLimitKind::Tickets,
                    store.limits.max_tickets as u64,
                    u64::MAX,
                ),
            ),
            store,
        )
    } else {
        let ticket = DataTicket(store.next_ticket);
        let record = TicketView {
            ticket,
            missing,
            subscribers: seq![subscriber],
            phase: TicketPhase::Pending,
        };
        (
            ReadView::Pending { ticket, missing },
            StoreView { tickets: store.tickets.push(record), ..ticket_spent(store) },
        )
    }
}

/// Whether a read failed for want of memory, and left the store as `after`. Only a read that would
/// subscribe asks for any: a slot on the ticket that waits for the same ranges, or the list and the
/// slot of a new ticket, whose identifier then stays spent.
pub open spec fn poll_memory_failure(
    store: StoreView,
    request: ReadRequest,
    poll: ReadView,
    after: StoreView,
) -> bool {
    let i = waiting_index(store.tickets, gaps(store.segments, request.range), 0);
    let subscribers = store.tickets[i].subscribers;
    &&& poll_outcome(store, request).0 is Pending
    &&& if i < store.tickets.len() {
        &&& job_index(subscribers, request.job, 0) >= subscribers.len()
        &&& poll == ReadView::Failed(
            source_resource(
                SourceLimitKind::Allocation,
                store.limits.max_subscribers_per_ticket as u64,
                (subscribers.len() + 1) as u64,
            ),
        )
        &&& after == store
    } else {
        ||| after == store && poll == ReadView::Failed(
            source_resource(
                SourceLimitKind::Allocation,
                store.limits.max_missing_ranges as u64,
                store.limits.max_missing_ranges as u64,
            ),
        )
        ||| after == ticket_spent(store) && poll == ReadView::Failed(
            source_resource(SourceLimitKind::Allocation, 1, 1),
        )
    }
}

/// Whether every terminal ticket is still retained in its place, in the same state.
pub open spec fn terminal_kept(before: StoreView, after: StoreView) -> bool {
    forall|i: int|
        0 <= i < before.tickets.len() && (#[trigger] before.tickets[i]).phase
            != TicketPhase::Pending ==> i < after.tickets.len() && after.tickets[i].ticket
            == before.tickets[i].ticket && after.tickets[i].phase == before.tickets[i].phase
}

/// The ceiling that a budget is held against; an allocation has none of its own.
pub open spec fn ceiling_of(limits: RangeStoreLimitConfig, kind: SourceLimitKind) -> Option<u64> {
    match kind {
        SourceLimitKind::InputBytes => Some(limits.max_input_bytes),
        SourceLimitKind::ReadBytes => Some(limits.max_read_bytes),
        SourceLimitKind::CachedBytes => Some(limits.max_cached_bytes),
        SourceLimitKind::ResidentBytes => Some(limits.max_resident_bytes),
        SourceLimitKind::Segments => Some(limits.max_segments as u64),
        SourceLimitKind::Tickets => Some(limits.max_tickets as u64),
        SourceLimitKind::TicketSubscribers => Some(limits.max_subscribers_per_ticket as u64),
        SourceLimitKind::TotalSubscriptions => Some(limits.max_total_subscriptions as u64),
        SourceLimitKind::MissingRanges => Some(limits.max_missing_ranges as u64),
        SourceLimitKind::Allocation => None,
    }
}

/// Whether a failure that names a budget reports its ceiling, and more than it.
pub open spec fn exceeds_its_ceiling(limits: RangeStoreLimitConfig, error: SourceError) -> bool {
    error.spec_limit() matches Some(limit) ==> limit.spec_kind() == SourceLimitKind::Allocation || (
    ceiling_of(limits, limit.spec_kind()) == Some(limit.spec_limit()) && limit.spec_attempted()
        > limit.spec_limit())
}

/// One response, as a value.
pub struct ResponseView {
    pub snapshot: SourceSnapshot,
    pub range: ByteRange,
    pub bytes: Seq<u8>,
}

impl ResponseView {
    /// Whether the bytes fill the range, which lies within the source where its length is known.
    pub open spec fn well_formed(self) -> bool {
        &&& 0 <= self.range.first() < self.range.end() <= u64::MAX
        &&& self.bytes.len() == self.range.end() - self.range.first()
        &&& self.snapshot.len matches Some(len) ==> self.range.end() <= len
    }
}

/// One call on a store, as far as its bytes are concerned: a response that was accepted, or any other
/// call.
pub enum CallView {
    Accepted(ResponseView),
    Other,
}

/// Whether a call may lead from one store to another. Only an accepted response brings bytes; any
/// other call leaves them as they are.
pub open spec fn called(before: StoreView, call: CallView, after: StoreView) -> bool {
    &&& store_ok(after)
    &&& after.limits == before.limits
    &&& match call {
        CallView::Accepted(response) => {
            &&& response.well_formed()
            &&& supply_refusal(before, response.snapshot, response.range, response.bytes) is None
            &&& after == after_supply(before, response.snapshot, response.range, response.bytes)
        },
        CallView::Other => after.segments == before.segments && after.bytes == before.bytes,
    }
}

/// The offsets that the accepted responses among the first `count` calls cover.
pub open spec fn accepted_offsets(calls: Seq<CallView>, count: int) -> Set<int>
    decreases count,
{
    if count <= 0 {
        Set::empty()
    } else {
        let before = accepted_offsets(calls, count - 1);
        match calls[count - 1] {
            CallView::Accepted(response) => before.union(
                Set::new(|offset: int| response.range.contains(offset)),
            ),
            CallView::Other => before,
        }
    }
}

/// The store after one response, accepted or refused.
pub open spec fn after_response(store: StoreView, response: ResponseView) -> StoreView {
    match supply_refusal(store, response.snapshot, response.range, response.bytes) {
        Some(error) => after_refusal(store, error),
        None => after_supply(store, response.snapshot, response.range, response.bytes),
    }
}

/// The store after a history of responses.
pub open spec fn after_history(store: StoreView, history: Seq<ResponseView>) -> StoreView
    decreases history.len(),
{
    if history.len() == 0 {
        store
    } else {
        after_response(after_history(store, history.drop_last()), history.last())
    }
}

/// The offsets that a store holds at first or gets from the accepted responses of a history.
pub open spec fn supplied_offsets(store: StoreView, history: Seq<ResponseView>) -> Set<int>
    decreases history.len(),
{
    if history.len() == 0 {
        covered_offsets(store.segments)
    } else {
        let before = supplied_offsets(store, history.drop_last());
        let last = history.last();
        if supply_refusal(
            after_history(store, history.drop_last()),
            last.snapshot,
            last.range,
            last.bytes,
        ) is None {
            before.union(Set::new(|offset: int| last.range.contains(offset)))
        } else {
            before
        }
    }
}

/// The subscriptions that are not of `job`, in order.
pub open spec fn without_job(subscribers: Seq<ResumeSubscription>, job: JobId) -> Seq<
    ResumeSubscription,
>
    decreases subscribers.len(),
{
    if subscribers.len() == 0 {
        Seq::empty()
    } else {
        let front = without_job(subscribers.drop_last(), job);
        if subscribers.last().job == job {
            front
        } else {
            front.push(subscribers.last())
        }
    }
}

/// A pending ticket once `job` left it; abandoned when nobody is left.
pub open spec fn left_ticket(ticket: TicketView, job: JobId) -> TicketView {
    let rest = without_job(ticket.subscribers, job);
    TicketView {
        subscribers: rest,
        phase: if rest.len() == 0 {
            TicketPhase::Abandoned
        } else {
            ticket.phase
        },
        ..ticket
    }
}

} // verus!
