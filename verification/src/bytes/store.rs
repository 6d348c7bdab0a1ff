//! Bounded in-memory range store for an immutable source snapshot.

use vstd::prelude::*;

use crate::bytes::error::{
    source_category_of, source_constructors_expose_their_arguments, source_failure, source_resource,
    SourceError, SourceErrorCategory, SourceErrorCode, SourceLimitKind,
};
use crate::bytes::limits::RangeStoreLimits;
use crate::bytes::model::{
    ByteRange, ByteSlice, ByteSource, DataTicket, JobId, RangeResponse, ReadPoll, ReadRequest,
    ResumeSubscription, SmallRanges, SourceSnapshot,
};
use crate::bytes::segments::{
    affected_block, append_uncovered_ranges, covered_range_has_one_holder, covers, covers_all,
    first_beyond, first_reaching, gaps, gaps_are, gaps_meaning, gaps_of_all, gaps_within,
    holder_is_unique, holds, inserted, inserted_meaning, inserted_total, join_block, joined,
    range_is_covered, segments_ok, total_len, total_len_is_bounded, touches, Segment,
};
use crate::bytes::store_laws::{
    observing_keeps_the_invariant, poisoning_is_final, polling_keeps_the_invariant,
    releasing_keeps_the_invariant, replacing_keeps_the_invariant, subscriber_total_bounds,
    subscriber_total_nonnegative, subscriber_total_remove, subscriber_total_same,
    subscriber_total_update, supplying_keeps_the_invariant, without_job_meaning,
};
use crate::bytes::store_model::{
    after_observe, after_refusal, after_supply, became_ready, called, cannot_join, changed_ticket,
    conflicts, crosses_eof, empty_store, fragmentation_failure, fragments_a_ticket, is_join_failure,
    job_index, join_refused, left_ticket, length_conflict, newly_bound, observe_refusal, placed,
    poisoned, poll_memory_failure, poll_outcome, prompt_refusal, resident_failure, store_ok,
    subscriber_total, supplied_ticket, supply_memory_failure, supply_refusal, terminal_kept,
    ticket_at_eof, ticket_index, ticket_ok, too_fragmented, waiting_index, with_ticket, without_job,
    CallView, ReadView, ResponseView, StoreView, TicketPhase, TicketView,
};
use crate::memory::{capacity_of, try_reserve_exact};

verus! {

/// Observable retained state of one data ticket.
#[derive(Clone, Copy, Debug, PartialEq, Eq, Structural)]
pub enum TicketStatus {
    /// The ticket still waits for all originally missing ranges.
    Pending {
        /// Number of distinct job/checkpoint subscribers.
        subscriber_count: usize,
    },
    /// Re-polling can complete with cached bytes or a newly observed EOF.
    Ready,
    /// The host marked the data operation failed.
    Failed(SourceError),
    /// The bound immutable source snapshot no longer matches the host response.
    SourceChanged,
    /// Every subscriber left before the ticket completed.
    Abandoned,
}

/// Result of injecting host-validated bytes or source metadata into a range store.
#[derive(Debug)]
pub struct SupplyOutcome {
    cached_bytes: u64,
    ready_tickets: Vec<DataTicket>,
}

impl SupplyOutcome {
    /// The cached total, as a value.
    pub closed spec fn spec_cached_bytes(self) -> u64 {
        self.cached_bytes
    }

    /// The tickets that became ready, as a value.
    pub closed spec fn spec_ready_tickets(self) -> Seq<DataTicket> {
        self.ready_tickets@
    }

    /// Returns the total unique cached bytes after insertion.
    pub fn cached_bytes(&self) -> (total: u64)
        ensures
            total == self.spec_cached_bytes(),
    {
        self.cached_bytes
    }

    /// Returns tickets that became ready during this update.
    ///
    /// The caller may enqueue their jobs after this method returns. The store never resumes parser
    /// work inline.
    pub fn ready_tickets(&self) -> (tickets: &[DataTicket])
        ensures
            tickets@ == self.spec_ready_tickets(),
    {
        self.ready_tickets.as_slice()
    }
}

/// Bytes of one segment, with the capacity charged for them.
struct Backing {
    bytes: Vec<u8>,
    charged: u64,
}

struct TicketRecord {
    ticket: DataTicket,
    missing: SmallRanges,
    subscribers: Vec<ResumeSubscription>,
    phase: TicketPhase,
}

impl View for TicketRecord {
    type V = TicketView;

    closed spec fn view(&self) -> TicketView {
        TicketView {
            ticket: self.ticket,
            missing: self.missing@,
            subscribers: self.subscribers@,
            phase: self.phase,
        }
    }
}

spec fn records(tickets: Seq<TicketRecord>) -> Seq<TicketView> {
    tickets.map_values(|record: TicketRecord| record@)
}

spec fn charge_total(backings: Seq<Backing>) -> int
    decreases backings.len(),
{
    if backings.len() == 0 {
        0
    } else {
        charge_total(backings.drop_last()) + backings.last().charged
    }
}

spec fn holder(segments: Seq<Segment>, offset: int) -> int {
    choose|i: int| #[trigger] holds(segments, i, offset)
}

spec fn contents(segments: Seq<Segment>, backings: Seq<Backing>) -> Map<int, u8> {
    Map::new(
        |offset: int| covers(segments, offset),
        |offset: int|
            backings[holder(segments, offset)].bytes@[offset - segments[holder(
                segments,
                offset,
            )].start],
    )
}

spec fn backed(segments: Seq<Segment>, backings: Seq<Backing>) -> bool {
    &&& segments.len() == backings.len()
    &&& forall|i: int|
        0 <= i < segments.len() ==> (#[trigger] backings[i]).bytes@.len()
            == segments[i].end_exclusive - segments[i].start
}

/// Bounded in-memory range store for an immutable source snapshot.
///
/// Responses are supplied by a host after file or network I/O. The store owns stable copies,
/// canonicalizes overlapping and adjacent segments, and turns data arrival into terminal tickets
/// without invoking parser callbacks. Readers get copies of their own, so what the store is
/// charged for is what it holds.
pub struct RangeStore {
    snapshot: SourceSnapshot,
    limits: RangeStoreLimits,
    source_changed: bool,
    segments: Vec<Segment>,
    backings: Vec<Backing>,
    resident: u64,
    cached_bytes: u64,
    tickets: Vec<TicketRecord>,
    next_ticket: u64,
    observed_len: Option<u64>,
    subscription_count: usize,
}

impl View for RangeStore {
    type V = StoreView;

    closed spec fn view(&self) -> StoreView {
        StoreView {
            snapshot: self.snapshot,
            limits: self.limits@,
            segments: self.segments@,
            bytes: contents(self.segments@, self.backings@),
            tickets: records(self.tickets@),
            next_ticket: self.next_ticket,
            observed_len: self.observed_len,
            source_changed: self.source_changed,
        }
    }
}

/// The outcome of a read, as a value.
pub open spec fn read_view(poll: ReadPoll<ByteSlice>) -> ReadView {
    match poll {
        ReadPoll::Ready(slice) => ReadView::Ready {
            identity: slice.spec_identity(),
            range: slice.spec_range(),
            bytes: slice.spec_bytes(),
        },
        ReadPoll::Pending { ticket, missing } => ReadView::Pending { ticket, missing: missing@ },
        ReadPoll::EndOfFile => ReadView::EndOfFile,
        ReadPoll::Failed(error) => ReadView::Failed(error),
    }
}

proof fn charge_total_of_sum(left: Seq<Backing>, right: Seq<Backing>)
    ensures
        charge_total(left + right) == charge_total(left) + charge_total(right),
        charge_total(right) >= 0,
    decreases right.len(),
{
    if right.len() == 0 {
        assert(left + right =~= left);
    } else {
        assert((left + right).drop_last() =~= left + right.drop_last());
        charge_total_of_sum(left, right.drop_last());
    }
}

proof fn contents_at(segments: Seq<Segment>, backings: Seq<Backing>, i: int, offset: int)
    requires
        segments_ok(segments),
        holds(segments, i, offset),
    ensures
        contents(segments, backings).dom().contains(offset),
        contents(segments, backings)[offset] == backings[i].bytes@[offset - segments[i].start],
{
    holder_is_unique(segments, i, holder(segments, offset), offset);
}

/// The bytes after the block `lo..hi` was replaced by the joined segment.
proof fn contents_after_join(
    segments: Seq<Segment>,
    backings: Seq<Backing>,
    range: ByteRange,
    bytes: Seq<u8>,
    merged: Backing,
)
    requires
        segments_ok(segments),
        backed(segments, backings),
        0 <= range.first() < range.end() <= u64::MAX,
        bytes.len() == range.end() - range.first(),
        ({
            let start = range.first() as u64;
            let end = range.end() as u64;
            let lo = first_reaching(segments, start as int, 0);
            let hi = first_beyond(segments, end as int, lo);
            let middle = joined(segments, lo, hi, start, end);
            &&& merged.bytes@.len() == middle.end_exclusive - middle.start
            &&& forall|offset: int|
                middle.start <= offset < middle.end_exclusive ==> #[trigger] merged.bytes@[offset
                    - middle.start] == (if range.contains(offset) {
                    bytes[offset - range.first()]
                } else {
                    contents(segments, backings)[offset]
                })
        }),
    ensures
        ({
            let start = range.first() as u64;
            let end = range.end() as u64;
            let lo = first_reaching(segments, start as int, 0);
            let hi = first_beyond(segments, end as int, lo);
            let after = backings.take(lo).push(merged) + backings.skip(hi);
            &&& backed(inserted(segments, start, end), after)
            &&& contents(inserted(segments, start, end), after) == contents(
                segments,
                backings,
            ).union_prefer_right(placed(range, bytes))
        }),
{
    let start = range.first() as u64;
    let end = range.end() as u64;
    let (lo, hi) = join_block(segments, start, end);
    let middle = joined(segments, lo, hi, start, end);
    let now = inserted(segments, start, end);
    let after = backings.take(lo).push(merged) + backings.skip(hi);
    inserted_meaning(segments, start, end);
    assert forall|i: int| 0 <= i < now.len() implies #[trigger] now[i] == (if i < lo {
        segments[i]
    } else if i == lo {
        middle
    } else {
        segments[i - lo - 1 + hi]
    }) by {}
    assert forall|i: int| 0 <= i < after.len() implies #[trigger] after[i] == (if i < lo {
        backings[i]
    } else if i == lo {
        merged
    } else {
        backings[i - lo - 1 + hi]
    }) by {}
    assert(backed(now, after));
    let left = contents(now, after);
    let right = contents(segments, backings).union_prefer_right(placed(range, bytes));
    assert forall|offset: int| left.dom().contains(offset) <==> #[trigger] right.dom().contains(
        offset,
    ) by {
        assert(covers(now, offset) <==> covers(segments, offset) || range.contains(offset));
        assert(placed(range, bytes).dom().contains(offset) <==> range.contains(offset));
    }
    assert forall|offset: int| left.dom().contains(offset) implies left[offset]
        == #[trigger] right[offset] by {
        let i = holder(now, offset);
        assert(holds(now, i, offset));
        contents_at(now, after, i, offset);
        if i < lo {
            assert(segments[i].end_exclusive < start);
            assert(holds(segments, i, offset));
            contents_at(segments, backings, i, offset);
        } else if i > lo {
            let k = i - lo - 1 + hi;
            assert(segments[k].start > end);
            assert(holds(segments, k, offset));
            contents_at(segments, backings, k, offset);
        } else {
            assert(merged.bytes@[offset - middle.start] == (if range.contains(offset) {
                bytes[offset - range.first()]
            } else {
                contents(segments, backings)[offset]
            }));
        }
        assert(placed(range, bytes).dom().contains(offset) <==> range.contains(offset));
    }
    assert(left =~= right);
}

/// The charge after the block `lo..hi` was replaced by `merged`.
proof fn charge_after_join(backings: Seq<Backing>, lo: int, hi: int, merged: Backing)
    requires
        0 <= lo <= hi <= backings.len(),
    ensures
        charge_total(backings.take(lo).push(merged) + backings.skip(hi)) == charge_total(backings)
            - charge_total(backings.subrange(lo, hi)) + merged.charged,
        0 <= charge_total(backings.subrange(lo, hi)) <= charge_total(backings),
{
    charge_total_of_sum(backings.take(lo).push(merged), backings.skip(hi));
    assert(backings.take(lo).push(merged).drop_last() =~= backings.take(lo));
    charge_total_of_sum(backings.take(lo) + backings.subrange(lo, hi), backings.skip(hi));
    charge_total_of_sum(backings.take(lo), backings.subrange(lo, hi));
    charge_total_of_sum(Seq::empty(), backings.take(lo));
    assert(Seq::<Backing>::empty() + backings.take(lo) =~= backings.take(lo));
    assert(backings =~= backings.take(lo) + backings.subrange(lo, hi) + backings.skip(hi));
}

/// Writes `source` into the union at the place of its first offset.
fn copy_into_union(union_start: u64, union: &mut Vec<u8>, source_start: u64, source: &Vec<u8>)
    requires
        union_start <= source_start,
        source_start - union_start + source@.len() <= old(union)@.len(),
    ensures
        final(union)@.len() == old(union)@.len(),
        forall|k: int|
            0 <= k < old(union)@.len() ==> #[trigger] final(union)@[k] == (if source_start
                - union_start <= k < source_start - union_start + source@.len() {
                source@[k - (source_start - union_start)]
            } else {
                old(union)@[k]
            }),
{
    let size: usize = union.len();
    let offset: usize = (source_start - union_start) as usize;
    let mut k: usize = 0;
    while k < source.len()
        invariant
            size == union@.len(),
            k <= source@.len(),
            offset == source_start - union_start,
            offset + source@.len() <= union@.len(),
            union@.len() == old(union)@.len(),
            forall|m: int|
                0 <= m < union@.len() ==> #[trigger] union@[m] == (if offset <= m < offset + k {
                    source@[m - offset]
                } else {
                    old(union)@[m]
                }),
        decreases source@.len() - k,
    {
        union.set(offset + k, source[k]);
        k = k + 1;
    }
}

impl RangeStore {
    /// The invariant of the store and of its bookkeeping.
    pub closed spec fn well_formed(&self) -> bool {
        &&& store_ok(self@)
        &&& backed(self.segments@, self.backings@)
        &&& self.cached_bytes == total_len(self.segments@)
        &&& self.subscription_count == subscriber_total(records(self.tickets@))
        &&& self.resident == charge_total(self.backings@)
        &&& self.resident <= self.limits@.max_resident_bytes
    }

    /// Capacity charged for everything held, as a value.
    pub closed spec fn spec_resident_bytes(&self) -> u64 {
        self.resident
    }

    /// A well-formed store meets the invariant of its model.
    pub proof fn well_formed_model(&self)
        requires
            self.well_formed(),
        ensures
            store_ok(self@),
            self.spec_resident_bytes() <= self@.limits.max_resident_bytes,
    {
    }

    /// Creates an empty store and reserves only the configured bounded metadata.
    pub fn new(snapshot: SourceSnapshot, limits: RangeStoreLimits) -> (store: Result<
        Self,
        SourceError,
    >)
        ensures
            store matches Ok(value) ==> {
                &&& value.well_formed()
                &&& value@ == empty_store(snapshot, limits@)
                &&& value.spec_resident_bytes() == 0
                &&& snapshot.len matches Some(len) ==> len <= limits@.max_input_bytes
            },
            store matches Err(error) ==> if snapshot.len is Some && snapshot.len->0
                > limits@.max_input_bytes {
                error == source_resource(
                    SourceLimitKind::InputBytes,
                    limits@.max_input_bytes,
                    snapshot.len->0,
                )
            } else {
                error == source_resource(
                    SourceLimitKind::Allocation,
                    limits@.max_segments as u64,
                    limits@.max_segments as u64,
                ) || error == source_resource(
                    SourceLimitKind::Allocation,
                    limits@.max_tickets as u64,
                    limits@.max_tickets as u64,
                )
            },
    {
        if let Some(input_bytes) = snapshot.len {
            if input_bytes > limits.max_input_bytes() {
                return Err(
                    SourceError::resource(
                        SourceLimitKind::InputBytes,
                        limits.max_input_bytes(),
                        input_bytes,
                    ),
                );
            }
        }
        let _ceiling: u64 = limits.max_input_bytes();
        let mut segments: Vec<Segment> = Vec::new();
        if !try_reserve_exact(&mut segments, limits.max_segments()) {
            return Err(
                SourceError::resource(
                    SourceLimitKind::Allocation,
                    limits.max_segments() as u64,
                    limits.max_segments() as u64,
                ),
            );
        }
        let mut tickets: Vec<TicketRecord> = Vec::new();
        if !try_reserve_exact(&mut tickets, limits.max_tickets()) {
            return Err(
                SourceError::resource(
                    SourceLimitKind::Allocation,
                    limits.max_tickets() as u64,
                    limits.max_tickets() as u64,
                ),
            );
        }
        let store = Self {
            snapshot,
            limits,
            source_changed: false,
            segments,
            backings: Vec::new(),
            resident: 0,
            cached_bytes: 0,
            tickets,
            next_ticket: 1,
            observed_len: snapshot.len,
            subscription_count: 0,
        };
        proof {
            assert(store@.tickets =~= Seq::empty());
            assert(store@.bytes =~= Map::empty());
        }
        Ok(store)
    }

    /// Returns the deterministic limits fixed for this store.
    pub fn limits(&self) -> (limits: RangeStoreLimits)
        ensures
            limits@ == self@.limits,
    {
        self.limits
    }

    /// Returns the total unique cached bytes.
    pub fn cached_bytes(&self) -> (total: Result<u64, SourceError>)
        requires
            self.well_formed(),
        ensures
            total is Ok,
            total->Ok_0 == total_len(self@.segments),
    {
        Ok(self.cached_bytes)
    }

    /// Returns charged backing capacity.
    pub fn resident_bytes(&self) -> (resident: u64)
        ensures
            resident == self.spec_resident_bytes(),
    {
        self.resident
    }

    fn poison_source(&mut self)
        requires
            old(self).well_formed(),
        ensures
            final(self).well_formed(),
            final(self)@ == poisoned(old(self)@),
            final(self).spec_resident_bytes() == old(self).spec_resident_bytes(),
    {
        proof {
            poisoning_is_final(self@);
        }
        let ghost before = self@;
        self.source_changed = true;
        let mut i: usize = 0;
        while i < self.tickets.len()
            invariant
                i <= self.tickets@.len(),
                self.tickets@.len() == before.tickets.len(),
                self.tickets@.len() == old(self).tickets@.len(),
                before == old(self)@,
                forall|k: int|
                    0 <= k < self.tickets@.len() ==> (#[trigger] self.tickets@[k])@ == (if k < i {
                        changed_ticket(before.tickets[k])
                    } else {
                        before.tickets[k]
                    }),
                self.snapshot == old(self).snapshot,
                self.limits == old(self).limits,
                self.source_changed,
                self.segments == old(self).segments,
                self.backings == old(self).backings,
                self.resident == old(self).resident,
                self.cached_bytes == old(self).cached_bytes,
                self.next_ticket == old(self).next_ticket,
                self.observed_len == old(self).observed_len,
                self.subscription_count == old(self).subscription_count,
            decreases self.tickets@.len() - i,
        {
            if self.tickets[i].phase == TicketPhase::Pending {
                self.tickets[i].phase = TicketPhase::SourceChanged;
            }
            i = i + 1;
        }
        proof {
            assert(self@.tickets =~= poisoned(before).tickets);
            subscriber_total_same(before.tickets, self@.tickets);
        }
    }

    fn contradicts_length(&self, len: Option<u64>) -> (conflict: bool)
        ensures
            conflict == length_conflict(self@, len),
    {
        match self.observed_len {
            Some(expected) => match len {
                Some(observed) => expected != observed,
                None => true,
            },
            None => match len {
                Some(observed) => {
                    let count: usize = self.segments.len();
                    count > 0 && self.segments[count - 1].end_exclusive > observed
                },
                None => false,
            },
        }
    }

    /// Marks pending tickets ready that a newly known end of file resolves.
    fn complete_tickets_at_eof(&mut self, observed_len: u64, ready_tickets: &mut Vec<DataTicket>)
        requires
            old(ready_tickets)@.len() == 0,
        ensures
            final(self)@ == (StoreView {
                tickets: old(self)@.tickets.map_values(
                    |ticket: TicketView| ticket_at_eof(ticket, Some(observed_len)),
                ),
                ..old(self)@
            }),
            final(ready_tickets)@ == became_ready(old(self)@.tickets, final(self)@.tickets),
            final(self).bookkeeping() == old(self).bookkeeping(),
    {
        let ghost before = self@;
        let mut i: usize = 0;
        assert(became_ready(before.tickets.take(0), self@.tickets.take(0)) =~= ready_tickets@);
        while i < self.tickets.len()
            invariant
                i <= self.tickets@.len(),
                self.tickets@.len() == before.tickets.len(),
                before == old(self)@,
                forall|k: int|
                    0 <= k < self.tickets@.len() ==> (#[trigger] self.tickets@[k])@ == (if k < i {
                        ticket_at_eof(before.tickets[k], Some(observed_len))
                    } else {
                        before.tickets[k]
                    }),
                ready_tickets@ == became_ready(
                    before.tickets.take(i as int),
                    self@.tickets.take(i as int),
                ),
                self.same_but_tickets(old(self)),
            decreases self.tickets@.len() - i,
        {
            let ghost earlier = self@.tickets;
            let crosses = missing_crosses_eof(&self.tickets[i].missing, observed_len);
            if self.tickets[i].phase == TicketPhase::Pending && crosses {
                self.tickets[i].phase = TicketPhase::Ready;
                ready_tickets.push(self.tickets[i].ticket);
            }
            proof {
                let now = self@.tickets;
                assert(before.tickets[i as int] == earlier[i as int]);
                assert(before.tickets.take(i + 1).drop_last() =~= before.tickets.take(i as int));
                assert(now.take(i + 1).drop_last() =~= earlier.take(i as int));
                assert(before.tickets.take(i + 1).last() == before.tickets[i as int]);
                assert(now.take(i + 1).last() == now[i as int]);
            }
            i = i + 1;
        }
        proof {
            let after = before.tickets.map_values(
                |ticket: TicketView| ticket_at_eof(ticket, Some(observed_len)),
            );
            assert(self@.tickets =~= after);
            assert(before.tickets.take(i as int) =~= before.tickets);
            assert(self@.tickets.take(i as int) =~= self@.tickets);
        }
    }

    spec fn bookkeeping(&self) -> (Seq<Segment>, Seq<Backing>, u64, u64, usize) {
        (
            self.segments@,
            self.backings@,
            self.resident,
            self.cached_bytes,
            self.subscription_count,
        )
    }

    spec fn same_but_tickets(&self, other: &Self) -> bool {
        &&& self.snapshot == other.snapshot
        &&& self.limits == other.limits
        &&& self.source_changed == other.source_changed
        &&& self.segments == other.segments
        &&& self.backings == other.backings
        &&& self.resident == other.resident
        &&& self.cached_bytes == other.cached_bytes
        &&& self.next_ticket == other.next_ticket
        &&& self.observed_len == other.observed_len
        &&& self.subscription_count == other.subscription_count
    }

    /// Makes a newly observed total length known and reports the tickets that it resolves.
    fn bind_length(&mut self, len: Option<u64>, ready_tickets: &mut Vec<DataTicket>)
        requires
            old(ready_tickets)@.len() == 0,
            !length_conflict(old(self)@, len),
        ensures
            final(self)@ == after_observe(old(self)@, len),
            final(ready_tickets)@ == became_ready(old(self)@.tickets, final(self)@.tickets),
            final(self).bookkeeping() == old(self).bookkeeping(),
    {
        let ghost before = self@;
        if self.observed_len.is_none() {
            if let Some(observed) = len {
                self.observed_len = Some(observed);
                self.complete_tickets_at_eof(observed, ready_tickets);
                proof {
                    assert(self@.tickets =~= after_observe(before, len).tickets);
                }
                return;
            }
        }
        proof {
            assert(self@.tickets =~= after_observe(before, len).tickets);
            nothing_became_ready(before.tickets);
        }
    }

    /// Observes complete source metadata without supplying response bytes.
    ///
    /// This binds a previously unknown total length, including zero, and wakes pending exact reads
    /// that now resolve as EOF. A missing observed length is an idempotent no-op only while this
    /// store also remains unbound.
    pub fn observe_snapshot(&mut self, observed_snapshot: SourceSnapshot) -> (outcome: Result<
        SupplyOutcome,
        SourceError,
    >)
        requires
            old(self).well_formed(),
        ensures
            final(self).well_formed(),
            called(old(self)@, CallView::Other, final(self)@),
            terminal_kept(old(self)@, final(self)@),
            final(self).spec_resident_bytes() == old(self).spec_resident_bytes(),
            outcome matches Ok(value) ==> {
                &&& observe_refusal(old(self)@, observed_snapshot) is None
                &&& final(self)@ == after_observe(old(self)@, observed_snapshot.len)
                &&& value.spec_cached_bytes() == total_len(final(self)@.segments)
                &&& value.spec_ready_tickets() == became_ready(
                    old(self)@.tickets,
                    final(self)@.tickets,
                )
            },
            outcome matches Err(error) ==> match observe_refusal(old(self)@, observed_snapshot) {
                Some(refusal) => error == refusal && final(self)@ == after_refusal(
                    old(self)@,
                    error,
                ),
                None => {
                    &&& newly_bound(old(self)@, observed_snapshot.len) is Some
                    &&& old(self)@.tickets.len() > 0
                    &&& error == source_resource(
                        SourceLimitKind::Allocation,
                        old(self)@.limits.max_tickets as u64,
                        old(self)@.tickets.len() as u64,
                    )
                    &&& final(self)@ == old(self)@
                },
            },
    {
        proof {
            poisoning_is_final(self@);
        }
        if self.source_changed || observed_snapshot.identity != self.snapshot.identity
            || observed_snapshot.validator != self.snapshot.validator || self.contradicts_length(
            observed_snapshot.len,
        ) {
            self.poison_source();
            return Err(SourceError::for_code(SourceErrorCode::SourceChanged));
        }
        if let Some(observed) = observed_snapshot.len {
            if self.observed_len.is_none() && observed > self.limits.max_input_bytes() {
                return Err(
                    SourceError::resource(
                        SourceLimitKind::InputBytes,
                        self.limits.max_input_bytes(),
                        observed,
                    ),
                );
            }
        }
        let mut ready_tickets: Vec<DataTicket> = Vec::new();
        if self.observed_len.is_none() && observed_snapshot.len.is_some() {
            match self.ready_list() {
                Ok(list) => {
                    ready_tickets = list;
                },
                Err(error) => {
                    return Err(error);
                },
            }
        }
        proof {
            observing_keeps_the_invariant(self@, observed_snapshot);
            subscriber_total_same(
                self@.tickets,
                after_observe(self@, observed_snapshot.len).tickets,
            );
        }
        self.bind_length(observed_snapshot.len, &mut ready_tickets);
        Ok(SupplyOutcome { cached_bytes: self.cached_bytes, ready_tickets })
    }

    /// Whether a response contradicts a held byte.
    fn overlap_conflicts(&self, range: ByteRange, bytes: &Vec<u8>) -> (conflict: bool)
        requires
            self.well_formed(),
            bytes@.len() == range.end() - range.first(),
        ensures
            conflict == conflicts(self@.bytes, range, bytes@),
    {
        let start: u64 = range.start();
        let end: u64 = range.end_exclusive();
        let mut i: usize = 0;
        while i < self.segments.len()
            invariant
                i <= self.segments@.len(),
                self.well_formed(),
                start == range.first(),
                end == range.end(),
                bytes@.len() == end - start,
                forall|k: int, offset: int|
                    0 <= k < i && #[trigger] holds(self.segments@, k, offset) && range.contains(
                        offset,
                    ) ==> self.backings@[k].bytes@[offset - self.segments@[k].start]
                        == bytes@[offset - start],
            decreases self.segments@.len() - i,
        {
            let segment = self.segments[i];
            let low: u64 = if segment.start > start {
                segment.start
            } else {
                start
            };
            let high: u64 = if segment.end_exclusive < end {
                segment.end_exclusive
            } else {
                end
            };
            let held = &self.backings[i].bytes;
            let held_len: usize = held.len();
            let given_len: usize = bytes.len();
            let mut offset: u64 = low;
            while offset < high
                invariant
                    self.well_formed(),
                    i < self.segments@.len(),
                    segment == self.segments@[i as int],
                    held@ == self.backings@[i as int].bytes@,
                    held_len == held@.len(),
                    given_len == bytes@.len(),
                    held@.len() == segment.end_exclusive - segment.start,
                    start == range.first(),
                    end == range.end(),
                    bytes@.len() == end - start,
                    low >= segment.start,
                    low >= start,
                    high <= segment.end_exclusive,
                    high <= end,
                    low <= offset,
                    offset <= high || low > high,
                    forall|p: int|
                        low <= p < offset && p < high ==> #[trigger] held@[p - segment.start]
                            == bytes@[p - start],
                decreases high - offset,
            {
                if held[(offset - segment.start) as usize] != bytes[(offset - start) as usize] {
                    proof {
                        assert(holds(self.segments@, i as int, offset as int));
                        contents_at(self.segments@, self.backings@, i as int, offset as int);
                        assert(range.contains(offset as int));
                        assert(self@.bytes.dom().contains(offset as int));
                    }
                    return true;
                }
                offset = offset + 1;
            }
            assert forall|k: int, p: int|
                0 <= k < i + 1 && #[trigger] holds(self.segments@, k, p) && range.contains(
                    p,
                ) implies self.backings@[k].bytes@[p - self.segments@[k].start] == bytes@[p
                - start] by {
                if k == i {
                    assert(low <= p < high);
                    assert(held@[p - segment.start] == bytes@[p - start]);
                }
            }
            i = i + 1;
        }
        proof {
            if conflicts(self@.bytes, range, bytes@) {
                let offset = choose|offset: int|
                    range.contains(offset) && #[trigger] self@.bytes.dom().contains(offset)
                        && self@.bytes[offset] != bytes@[offset - range.first()];
                let k = holder(self.segments@, offset);
                assert(covers(self.segments@, offset));
                assert(holds(self.segments@, k, offset));
            }
        }
        false
    }

    /// The bytes of the joined segment: those of the response, and around them those already held
    /// by segments `lo` up to `hi`.
    fn merged_bytes(
        &self,
        lo: usize,
        hi: usize,
        middle: Segment,
        range: ByteRange,
        bytes: &Vec<u8>,
        storage: Vec<u8>,
    ) -> (merged: Vec<u8>)
        requires
            self.well_formed(),
            0 <= range.first() < range.end() <= u64::MAX,
            bytes@.len() == range.end() - range.first(),
            lo == first_reaching(self.segments@, range.first(), 0),
            hi == first_beyond(self.segments@, range.end(), lo as int),
            middle == joined(
                self.segments@,
                lo as int,
                hi as int,
                range.first() as u64,
                range.end() as u64,
            ),
            middle.end_exclusive - middle.start <= usize::MAX,
            storage@.len() == 0,
        ensures
            merged@.len() == middle.end_exclusive - middle.start,
            forall|offset: int|
                middle.start <= offset < middle.end_exclusive ==> #[trigger] merged@[offset
                    - middle.start] == (if range.contains(offset) {
                    bytes@[offset - range.first()]
                } else {
                    self@.bytes[offset]
                }),
    {
        let ghost segments = self.segments@;
        proof {
            join_block(segments, range.first() as u64, range.end() as u64);
        }
        let size: usize = (middle.end_exclusive - middle.start) as usize;
        let mut union = storage;
        union.resize(size, 0);
        let mut i: usize = lo;
        while i < hi
            invariant
                lo <= i <= hi <= segments.len(),
                segments == self.segments@,
                self.well_formed(),
                union@.len() == middle.end_exclusive - middle.start,
                lo < hi ==> middle.start <= segments[lo as int].start && segments[hi
                    - 1].end_exclusive <= middle.end_exclusive,
                forall|k: int, offset: int|
                    lo <= k < i && #[trigger] holds(segments, k, offset) ==> union@[offset
                        - middle.start] == self.backings@[k].bytes@[offset - segments[k].start],
            decreases hi - i,
        {
            proof {
                if lo < i {
                    assert(segments[lo as int].end_exclusive < segments[i as int].start);
                    assert(segments[lo as int].start < segments[lo as int].end_exclusive);
                }
                if i < hi - 1 {
                    assert(segments[i as int].end_exclusive < segments[hi - 1].start);
                    assert(segments[hi - 1].start < segments[hi - 1].end_exclusive);
                }
            }
            let ghost earlier = union@;
            copy_into_union(
                middle.start,
                &mut union,
                self.segments[i].start,
                &self.backings[i].bytes,
            );
            assert forall|k: int, offset: int|
                lo <= k < i + 1 && #[trigger] holds(segments, k, offset) implies union@[offset
                - middle.start] == self.backings@[k].bytes@[offset - segments[k].start] by {
                if k < i {
                    assert(segments[k].end_exclusive < segments[i as int].start);
                    if lo < k {
                        assert(segments[lo as int].end_exclusive < segments[k].start);
                        assert(segments[lo as int].start < segments[lo as int].end_exclusive);
                    }
                    assert(union@[offset - middle.start] == earlier[offset - middle.start]);
                } else {
                    assert(union@[offset - middle.start] == self.backings@[i as int].bytes@[offset
                        - segments[i as int].start]);
                }
            }
            i = i + 1;
        }
        let ghost earlier = union@;
        copy_into_union(middle.start, &mut union, range.start(), bytes);
        assert forall|offset: int| middle.start <= offset < middle.end_exclusive implies
            #[trigger] union@[offset - middle.start] == (if range.contains(offset) {
            bytes@[offset - range.first()]
        } else {
            self@.bytes[offset]
        }) by {
            if !range.contains(offset) {
                if offset < range.first() {
                    assert(holds(segments, lo as int, offset));
                    contents_at(segments, self.backings@, lo as int, offset);
                } else {
                    assert(holds(segments, hi - 1, offset));
                    contents_at(segments, self.backings@, hi - 1, offset);
                }
                assert(union@[offset - middle.start] == earlier[offset - middle.start]);
            }
        }
        union
    }

    /// What each ticket still misses once `segments` are held, and which tickets are resolved.
    fn ticket_updates(&self, segments: &Vec<Segment>, bound: Option<u64>) -> (updates: Result<
        (Vec<SmallRanges>, Vec<bool>),
        SourceError,
    >)
        requires
            self.well_formed(),
            segments_ok(segments@),
        ensures
            updates matches Ok((remaining, resolved)) ==> {
                &&& remaining@.len() == self@.tickets.len()
                &&& resolved@.len() == self@.tickets.len()
                &&& forall|i: int|
                    0 <= i < self@.tickets.len() && (#[trigger] self@.tickets[i]).phase
                        == TicketPhase::Pending ==> {
                        &&& !too_fragmented(
                            self@.tickets[i],
                            segments@,
                            self@.limits.max_missing_ranges as int,
                        )
                        &&& supplied_ticket(self@.tickets[i], segments@, bound) == (
                        if resolved@[i] {
                            TicketView { phase: TicketPhase::Ready, ..self@.tickets[i] }
                        } else {
                            TicketView { missing: remaining@[i]@, ..self@.tickets[i] }
                        })
                    }
            },
            updates matches Err(error) ==> {
                ||| self@.tickets.len() > 0 && error == source_resource(
                    SourceLimitKind::Allocation,
                    self@.limits.max_tickets as u64,
                    self@.tickets.len() as u64,
                )
                ||| self@.tickets.len() > 0 && error == source_resource(
                    SourceLimitKind::Allocation,
                    self@.limits.max_missing_ranges as u64,
                    self@.limits.max_missing_ranges as u64,
                )
                ||| error == fragmentation_failure(self@) && fragments_a_ticket(self@, segments@)
            },
    {
        let max: usize = self.limits.max_missing_ranges();
        let mut remaining: Vec<SmallRanges> = Vec::new();
        let mut resolved: Vec<bool> = Vec::new();
        if !try_reserve_exact(&mut remaining, self.tickets.len()) || !try_reserve_exact(
            &mut resolved,
            self.tickets.len(),
        ) {
            return Err(
                SourceError::resource(
                    SourceLimitKind::Allocation,
                    self.limits.max_tickets() as u64,
                    self.tickets.len() as u64,
                ),
            );
        }
        let mut i: usize = 0;
        while i < self.tickets.len()
            invariant
                i <= self.tickets@.len(),
                self.well_formed(),
                segments_ok(segments@),
                max == self@.limits.max_missing_ranges,
                max <= 256,
                remaining@.len() == i,
                resolved@.len() == i,
                forall|k: int|
                    0 <= k < i && (#[trigger] self@.tickets[k]).phase == TicketPhase::Pending ==> {
                        &&& !too_fragmented(self@.tickets[k], segments@, max as int)
                        &&& supplied_ticket(self@.tickets[k], segments@, bound) == (
                        if resolved@[k] {
                            TicketView { phase: TicketPhase::Ready, ..self@.tickets[k] }
                        } else {
                            TicketView { missing: remaining@[k]@, ..self@.tickets[k] }
                        })
                    },
            decreases self.tickets@.len() - i,
        {
            assert(self@.tickets[i as int] == self.tickets@[i as int]@);
            if self.tickets[i].phase == TicketPhase::Pending {
                match remaining_missing_ranges(segments, &self.tickets[i].missing, max) {
                    Ok(left) => {
                        let at_eof = match bound {
                            Some(observed) => missing_crosses_eof(&left, observed),
                            None => false,
                        };
                        let done = left.as_slice().len() == 0 || at_eof;
                        remaining.push(left);
                        resolved.push(done);
                    },
                    Err(error) => {
                        return Err(error);
                    },
                }
            } else {
                remaining.push(SmallRanges::from_vec(Vec::new()));
                resolved.push(false);
            }
            i = i + 1;
        }
        Ok((remaining, resolved))
    }

    /// Replaces segments `lo` up to `hi` by the joined one.
    #[verifier::rlimit(50)]
    #[verifier::spinoff_prover]
    fn commit_segments(
        &mut self,
        lo: usize,
        hi: usize,
        segments: Vec<Segment>,
        merged: Backing,
        cached_bytes: u64,
        Ghost(range): Ghost<ByteRange>,
        Ghost(bytes): Ghost<Seq<u8>>,
    )
        requires
            old(self).well_formed(),
            0 <= range.first() < range.end() <= u64::MAX,
            bytes.len() == range.end() - range.first(),
            lo == first_reaching(old(self)@.segments, range.first(), 0),
            hi == first_beyond(old(self)@.segments, range.end(), lo as int),
            segments@ == inserted(
                old(self)@.segments,
                range.first() as u64,
                range.end() as u64,
            ),
            ({
                let middle = joined(
                    old(self)@.segments,
                    lo as int,
                    hi as int,
                    range.first() as u64,
                    range.end() as u64,
                );
                &&& merged.bytes@.len() == middle.end_exclusive - middle.start
                &&& forall|offset: int|
                    middle.start <= offset < middle.end_exclusive ==> #[trigger] merged.bytes@[offset
                        - middle.start] == (if range.contains(offset) {
                        bytes[offset - range.first()]
                    } else {
                        old(self)@.bytes[offset]
                    })
            }),
            old(self).resident + merged.charged <= old(self)@.limits.max_resident_bytes,
        ensures
            final(self)@ == (StoreView {
                segments: segments@,
                bytes: old(self)@.bytes.union_prefer_right(placed(range, bytes)),
                ..old(self)@
            }),
            backed(final(self).segments@, final(self).backings@),
            final(self).resident == charge_total(final(self).backings@),
            final(self).resident <= final(self)@.limits.max_resident_bytes,
            lo == hi ==> final(self).resident == old(self).resident + merged.charged,
            final(self).resident <= old(self).resident + merged.charged,
            final(self).cached_bytes == cached_bytes,
            final(self).subscription_count == old(self).subscription_count,
    {
        let ghost before = *self;
        proof {
            join_block(before.segments@, range.first() as u64, range.end() as u64);
            contents_after_join(before.segments@, before.backings@, range, bytes, merged);
            charge_after_join(before.backings@, lo as int, hi as int, merged);
        }
        let charged: u64 = merged.charged;
        let ghost part = before.backings@.subrange(lo as int, hi as int);
        let mut released: u64 = 0;
        let mut i: usize = lo;
        while i < hi
            invariant
                lo <= i <= hi <= before.backings@.len(),
                self.backings@ =~= before.backings@.take(lo as int) + before.backings@.skip(
                    i as int,
                ),
                part == before.backings@.subrange(lo as int, hi as int),
                released == charge_total(part.take(i - lo)),
                released <= before.resident,
                charge_total(part) <= before.resident,
                self.same_but_tickets_and_backings(&before),
                self.tickets == before.tickets,
            decreases hi - i,
        {
            proof {
                let upto = part.take(i + 1 - lo);
                assert(upto.drop_last() =~= part.take(i - lo));
                assert(upto.last() == before.backings@[i as int]);
                charge_total_of_sum(upto, part.skip(i + 1 - lo));
                assert(upto + part.skip(i + 1 - lo) =~= part);
                assert(self.backings@[lo as int] == before.backings@[i as int]);
            }
            let dropped = self.backings.remove(lo);
            released = released + dropped.charged;
            i = i + 1;
        }
        proof {
            assert(part.take(hi - lo) =~= part);
            assert(self.backings@.insert(lo as int, merged) =~= before.backings@.take(
                lo as int,
            ).push(merged) + before.backings@.skip(hi as int));
        }
        self.backings.insert(lo, merged);
        self.segments = segments;
        self.cached_bytes = cached_bytes;
        self.resident = self.resident - released + charged;
    }

    spec fn same_but_tickets_and_backings(&self, other: &Self) -> bool {
        &&& self.snapshot == other.snapshot
        &&& self.limits == other.limits
        &&& self.source_changed == other.source_changed
        &&& self.segments == other.segments
        &&& self.resident == other.resident
        &&& self.cached_bytes == other.cached_bytes
        &&& self.next_ticket == other.next_ticket
        &&& self.observed_len == other.observed_len
        &&& self.subscription_count == other.subscription_count
    }

    /// Applies prepared updates to the pending tickets and reports those that became ready.
    fn apply_updates(
        &mut self,
        remaining: Vec<SmallRanges>,
        resolved: Vec<bool>,
        ready_tickets: &mut Vec<DataTicket>,
        Ghost(bound): Ghost<Option<u64>>,
    )
        requires
            old(ready_tickets)@.len() == 0,
            remaining@.len() == old(self)@.tickets.len(),
            resolved@.len() == old(self)@.tickets.len(),
            forall|i: int|
                0 <= i < old(self)@.tickets.len() && (#[trigger] old(self)@.tickets[i]).phase
                    == TicketPhase::Pending ==> supplied_ticket(
                    old(self)@.tickets[i],
                    old(self)@.segments,
                    bound,
                ) == (if resolved@[i] {
                    TicketView { phase: TicketPhase::Ready, ..old(self)@.tickets[i] }
                } else {
                    TicketView { missing: remaining@[i]@, ..old(self)@.tickets[i] }
                }),
        ensures
            final(self)@ == (StoreView {
                tickets: old(self)@.tickets.map_values(
                    |ticket: TicketView| supplied_ticket(ticket, old(self)@.segments, bound),
                ),
                ..old(self)@
            }),
            final(ready_tickets)@ == became_ready(old(self)@.tickets, final(self)@.tickets),
            final(self).bookkeeping() == old(self).bookkeeping(),
    {
        let ghost before = self@;
        let mut remaining = remaining;
        let mut i: usize = 0;
        assert(became_ready(before.tickets.take(0), self@.tickets.take(0)) =~= ready_tickets@);
        while i < self.tickets.len()
            invariant
                i <= self.tickets@.len(),
                self.tickets@.len() == before.tickets.len(),
                remaining@.len() == before.tickets.len(),
                resolved@.len() == before.tickets.len(),
                before == old(self)@,
                forall|k: int|
                    i <= k < before.tickets.len() && (#[trigger] before.tickets[k]).phase
                        == TicketPhase::Pending ==> supplied_ticket(
                        before.tickets[k],
                        before.segments,
                        bound,
                    ) == (if resolved@[k] {
                        TicketView { phase: TicketPhase::Ready, ..before.tickets[k] }
                    } else {
                        TicketView { missing: remaining@[k]@, ..before.tickets[k] }
                    }),
                forall|k: int|
                    0 <= k < self.tickets@.len() ==> (#[trigger] self.tickets@[k])@ == (if k < i {
                        supplied_ticket(before.tickets[k], before.segments, bound)
                    } else {
                        before.tickets[k]
                    }),
                ready_tickets@ == became_ready(
                    before.tickets.take(i as int),
                    self@.tickets.take(i as int),
                ),
                self.same_but_tickets(old(self)),
            decreases self.tickets@.len() - i,
        {
            let ghost earlier = self@.tickets;
            let ghost left = remaining@[i as int]@;
            assert(before.tickets[i as int] == earlier[i as int]);
            assert(earlier[i as int] == self.tickets@[i as int]@);
            if self.tickets[i].phase == TicketPhase::Pending {
                if resolved[i] {
                    self.tickets[i].phase = TicketPhase::Ready;
                    ready_tickets.push(self.tickets[i].ticket);
                } else {
                    let mut missing = SmallRanges::from_vec(Vec::new());
                    std::mem::swap(&mut missing, &mut remaining[i]);
                    self.tickets[i].missing = missing;
                }
            }
            proof {
                let now = self@.tickets;
                assert(now[i as int] == supplied_ticket(
                    before.tickets[i as int],
                    before.segments,
                    bound,
                ));
                assert(before.tickets.take(i + 1).drop_last() =~= before.tickets.take(i as int));
                assert(now.take(i + 1).drop_last() =~= earlier.take(i as int));
                assert(before.tickets.take(i + 1).last() == before.tickets[i as int]);
                assert(now.take(i + 1).last() == now[i as int]);
            }
            i = i + 1;
        }
        proof {
            let after = before.tickets.map_values(
                |ticket: TicketView| supplied_ticket(ticket, before.segments, bound),
            );
            assert(self@.tickets =~= after);
            assert(before.tickets.take(i as int) =~= before.tickets);
            assert(self@.tickets.take(i as int) =~= self@.tickets);
        }
    }

    /// Storage for the joined segment, with the capacity to charge for it.
    fn merge_storage(&self, merged_len: u64, in_flight: u64) -> (storage: Result<
        (Vec<u8>, u64),
        SourceError,
    >)
        requires
            self.well_formed(),
            self.spec_resident_bytes() + in_flight <= self@.limits.max_resident_bytes,
        ensures
            storage matches Ok((bytes, charged)) ==> {
                &&& bytes@.len() == 0
                &&& merged_len <= usize::MAX
                &&& merged_len <= charged
                &&& self.spec_resident_bytes() + in_flight + charged
                    <= self@.limits.max_resident_bytes
            },
            storage matches Err(error) ==> error == source_resource(
                SourceLimitKind::Allocation,
                self@.limits.max_resident_bytes,
                merged_len,
            ) || join_refused(self@, self.spec_resident_bytes() + in_flight + merged_len, error),
            self.spec_resident_bytes() + in_flight + merged_len > self@.limits.max_resident_bytes
                ==> storage is Err && storage->Err_0 == resident_failure(
                self@,
                self.spec_resident_bytes() + in_flight + merged_len,
            ),
    {
        let ceiling: u64 = self.limits.max_resident_bytes();
        let resident: u64 = self.resident + in_flight;
        let free: u64 = ceiling - resident;
        if merged_len > free {
            assert(resident_failure(self@, resident + merged_len) == source_resource(
                SourceLimitKind::ResidentBytes,
                ceiling,
                if resident + merged_len <= u64::MAX { (resident + merged_len) as u64 } else { u64::MAX },
            ));
            return Err(
                SourceError::resource(
                    SourceLimitKind::ResidentBytes,
                    ceiling,
                    resident.saturating_add(merged_len),
                ),
            );
        }
        if merged_len > usize::MAX as u64 {
            return Err(SourceError::resource(SourceLimitKind::Allocation, ceiling, merged_len));
        }
        let mut bytes: Vec<u8> = Vec::new();
        if !try_reserve_exact(&mut bytes, merged_len as usize) {
            return Err(SourceError::resource(SourceLimitKind::Allocation, ceiling, merged_len));
        }
        let granted: u64 = capacity_of(&bytes) as u64;
        let charged: u64 = if granted < merged_len {
            merged_len
        } else {
            granted
        };
        if charged > free {
            assert(resident_failure(self@, resident + charged) == source_resource(
                SourceLimitKind::ResidentBytes,
                ceiling,
                if resident + charged <= u64::MAX { (resident + charged) as u64 } else { u64::MAX },
            ));
            return Err(
                SourceError::resource(
                    SourceLimitKind::ResidentBytes,
                    ceiling,
                    resident.saturating_add(charged),
                ),
            );
        }
        Ok((bytes, charged))
    }

    /// Inserts one complete host response and reports newly ready tickets.
    ///
    /// A snapshot mismatch or conflicting overlap poisons the store: every pending ticket becomes
    /// [`TicketStatus::SourceChanged`] and all later polls fail with
    /// [`SourceErrorCode::SourceChanged`]. Whatever else refuses the response, want of memory
    /// among it, leaves the store as it was.
    pub fn supply(&mut self, response: RangeResponse) -> (outcome: Result<
        SupplyOutcome,
        SourceError,
    >)
        requires
            old(self).well_formed(),
        ensures
            final(self).well_formed(),
            called(
                old(self)@,
                if outcome is Ok {
                    CallView::Accepted(
                        ResponseView {
                            snapshot: response.spec_snapshot(),
                            range: response.spec_range(),
                            bytes: response.spec_bytes(),
                        },
                    )
                } else {
                    CallView::Other
                },
                final(self)@,
            ),
            terminal_kept(old(self)@, final(self)@),
            ({
                let store = old(self)@;
                let snapshot = response.spec_snapshot();
                let range = response.spec_range();
                let bytes = response.spec_bytes();
                let prompt = prompt_refusal(
                    store,
                    old(self).spec_resident_bytes(),
                    response.spec_capacity(),
                    snapshot,
                    range,
                    bytes,
                );
                match outcome {
                    Ok(value) => {
                        &&& prompt is None
                        &&& supply_refusal(store, snapshot, range, bytes) is None
                        &&& final(self)@ == after_supply(store, snapshot, range, bytes)
                        &&& value.spec_cached_bytes() == total_len(final(self)@.segments)
                        &&& value.spec_ready_tickets() == became_ready(
                            store.tickets,
                            final(self)@.tickets,
                        )
                        &&& covers_all(store.segments, range.first(), range.end())
                            ==> final(self).spec_resident_bytes() == old(
                            self,
                        ).spec_resident_bytes()
                        &&& !touches(store.segments, range.first(), range.end())
                            ==> final(self).spec_resident_bytes() == old(
                            self,
                        ).spec_resident_bytes() + response.spec_capacity()
                        &&& touches(store.segments, range.first(), range.end())
                            ==> final(self).spec_resident_bytes() + response.spec_capacity()
                            <= store.limits.max_resident_bytes
                        &&& !cannot_join(
                            store,
                            old(self).spec_resident_bytes(),
                            response.spec_capacity(),
                            range,
                        )
                    },
                    Err(error) => {
                        &&& final(self).spec_resident_bytes() == old(self).spec_resident_bytes()
                        &&& prompt is Some ==> prompt == Some(error) && final(self)@
                            == after_refusal(store, error)
                        &&& prompt is None ==> final(self)@ == store && (supply_refusal(
                            store,
                            snapshot,
                            range,
                            bytes,
                        ) == Some(error) || supply_memory_failure(
                            store,
                            old(self).spec_resident_bytes(),
                            response.spec_capacity(),
                            snapshot,
                            range,
                            error,
                        ))
                        &&& prompt is None && cannot_join(
                            store,
                            old(self).spec_resident_bytes(),
                            response.spec_capacity(),
                            range,
                        ) ==> is_join_failure(
                            store,
                            old(self).spec_resident_bytes(),
                            response.spec_capacity(),
                            range,
                            error,
                        )
                    },
                }
            }),
    {
        proof {
            poisoning_is_final(self@);
        }
        let response_capacity: u64 = response.capacity();
        let (observed_snapshot, range, bytes) = response.into_parts();
        let start: u64 = range.start();
        let end: u64 = range.end_exclusive();
        if self.source_changed || observed_snapshot.identity != self.snapshot.identity
            || observed_snapshot.validator != self.snapshot.validator || self.contradicts_length(
            observed_snapshot.len,
        ) {
            self.poison_source();
            return Err(SourceError::for_code(SourceErrorCode::SourceChanged));
        }
        if range.len() > self.limits.max_read_bytes() {
            return Err(
                SourceError::resource(
                    SourceLimitKind::ReadBytes,
                    self.limits.max_read_bytes(),
                    range.len(),
                ),
            );
        }
        if end > self.limits.max_input_bytes() {
            return Err(
                SourceError::resource(
                    SourceLimitKind::InputBytes,
                    self.limits.max_input_bytes(),
                    end,
                ),
            );
        }
        let ceiling: u64 = self.limits.max_resident_bytes();
        if response_capacity > ceiling - self.resident {
            return Err(
                SourceError::resource(
                    SourceLimitKind::ResidentBytes,
                    ceiling,
                    self.resident.saturating_add(response_capacity),
                ),
            );
        }
        let bound: Option<u64> = if self.observed_len.is_none() {
            observed_snapshot.len
        } else {
            None
        };
        if let Some(observed) = bound {
            if observed > self.limits.max_input_bytes() {
                proof {
                    no_split_failure(self@, SourceLimitKind::InputBytes, self@.limits.max_input_bytes, observed);
                }
                return Err(
                    SourceError::resource(
                        SourceLimitKind::InputBytes,
                        self.limits.max_input_bytes(),
                        observed,
                    ),
                );
            }
        }
        if self.overlap_conflicts(range, &bytes) {
            proof {
                source_constructors_expose_their_arguments(
                    SourceErrorCode::ConflictingBytes,
                    SourceLimitKind::MissingRanges,
                    self@.limits.max_missing_ranges as u64,
                    (self@.limits.max_missing_ranges + 1) as u64,
                );
            }
            self.poison_source();
            return Err(SourceError::for_code(SourceErrorCode::ConflictingBytes));
        }
        if range_is_covered(&self.segments, range) {
            let mut ready_tickets: Vec<DataTicket> = Vec::new();
            if bound.is_some() {
                match self.ready_list() {
                    Ok(list) => {
                        ready_tickets = list;
                    },
                    Err(error) => {
                        return Err(error);
                    },
                }
            }
            proof {
                observing_keeps_the_invariant(self@, observed_snapshot);
                subscriber_total_same(
                    self@.tickets,
                    after_observe(self@, observed_snapshot.len).tickets,
                );
                let at = covered_range_has_one_holder(self@.segments, start as int, end as int);
                assert(self@.segments[at].start <= end && start
                    <= self@.segments[at].end_exclusive);
            }
            self.bind_length(observed_snapshot.len, &mut ready_tickets);
            return Ok(SupplyOutcome { cached_bytes: self.cached_bytes, ready_tickets });
        }
        self.insert_response(
            observed_snapshot,
            range,
            bytes,
            response_capacity,
            bound,
        )
    }

    /// A list with room for every ticket.
    fn ready_list(&self) -> (list: Result<Vec<DataTicket>, SourceError>)
        ensures
            match list {
                Ok(list) => list@.len() == 0,
                Err(error) => self@.tickets.len() > 0 && error == source_resource(
                    SourceLimitKind::Allocation,
                    self@.limits.max_tickets as u64,
                    self@.tickets.len() as u64,
                ),
            },
    {
        let mut ready_tickets: Vec<DataTicket> = Vec::new();
        if !try_reserve_exact(&mut ready_tickets, self.tickets.len()) {
            return Err(
                SourceError::resource(
                    SourceLimitKind::Allocation,
                    self.limits.max_tickets() as u64,
                    self.tickets.len() as u64,
                ),
            );
        }
        Ok(ready_tickets)
    }

    /// Inserts a response that brings new bytes and contradicts none.
    #[verifier::rlimit(60)]
    #[verifier::spinoff_prover]
    fn insert_response(
        &mut self,
        observed_snapshot: SourceSnapshot,
        range: ByteRange,
        bytes: Vec<u8>,
        response_capacity: u64,
        bound: Option<u64>,
    ) -> (outcome: Result<SupplyOutcome, SourceError>)
        requires
            old(self).well_formed(),
            bytes@.len() == range.end() - range.first(),
            observed_snapshot.len matches Some(len) ==> range.end() <= len,
            bound == newly_bound(old(self)@, observed_snapshot.len),
            old(self).spec_resident_bytes() + response_capacity
                <= old(self)@.limits.max_resident_bytes,
            !old(self)@.source_changed,
            observed_snapshot.same_source(old(self)@.snapshot),
            !length_conflict(old(self)@, observed_snapshot.len),
            range.end() - range.first() <= old(self)@.limits.max_read_bytes,
            range.end() <= old(self)@.limits.max_input_bytes,
            bound matches Some(len) ==> len <= old(self)@.limits.max_input_bytes,
            !conflicts(old(self)@.bytes, range, bytes@),
            !covers_all(old(self)@.segments, range.first(), range.end()),
        ensures
            final(self).well_formed(),
            outcome matches Ok(value) ==> {
                &&& supply_refusal(old(self)@, observed_snapshot, range, bytes@) is None
                &&& final(self)@ == after_supply(old(self)@, observed_snapshot, range, bytes@)
                &&& value.spec_cached_bytes() == total_len(final(self)@.segments)
                &&& value.spec_ready_tickets() == became_ready(
                    old(self)@.tickets,
                    final(self)@.tickets,
                )
                &&& !touches(old(self)@.segments, range.first(), range.end())
                    ==> final(self).spec_resident_bytes() == old(self).spec_resident_bytes()
                    + response_capacity
                &&& touches(old(self)@.segments, range.first(), range.end())
                    ==> final(self).spec_resident_bytes() + response_capacity
                    <= old(self)@.limits.max_resident_bytes
                &&& !cannot_join(
                    old(self)@,
                    old(self).spec_resident_bytes(),
                    response_capacity,
                    range,
                )
            },
            outcome matches Err(error) ==> {
                let refusal = supply_refusal(old(self)@, observed_snapshot, range, bytes@);
                &&& final(self)@ == old(self)@
                &&& final(self).spec_resident_bytes() == old(self).spec_resident_bytes()
                &&& refusal == Some(error) && final(self)@ == after_refusal(old(self)@, error) || (
                (refusal is None || refusal == Some(fragmentation_failure(old(self)@)))
                    && supply_memory_failure(
                    old(self)@,
                    old(self).spec_resident_bytes(),
                    response_capacity,
                    observed_snapshot,
                    range,
                    error,
                ))
                &&& refusal is None || refusal == Some(fragmentation_failure(old(self)@)) ==> (
                cannot_join(
                    old(self)@,
                    old(self).spec_resident_bytes(),
                    response_capacity,
                    range,
                ) ==> is_join_failure(
                    old(self)@,
                    old(self).spec_resident_bytes(),
                    response_capacity,
                    range,
                    error,
                ))
            },
    {
        let ghost before = self@;
        let ghost given = bytes@;
        let start: u64 = range.start();
        let end: u64 = range.end_exclusive();
        let (lo, hi) = affected_block(&self.segments, start, end);
        let ghost after = inserted(before.segments, start, end);
        proof {
            join_block(before.segments, start, end);
            inserted_meaning(before.segments, start, end);
            inserted_total(before.segments, start, end);
            assert(crate::bytes::segments::segments_within(
                before.segments,
                before.limits.max_input_bytes as int,
            ));
            total_len_is_bounded(after, before.limits.max_input_bytes as int);
        }
        let mut middle = Segment { start, end_exclusive: end };
        if lo < hi {
            if self.segments[lo].start < start {
                middle.start = self.segments[lo].start;
            }
            if self.segments[hi - 1].end_exclusive > end {
                middle.end_exclusive = self.segments[hi - 1].end_exclusive;
            }
        }
        let mut removed: u64 = 0;
        let mut i: usize = lo;
        let ghost block = before.segments.subrange(lo as int, hi as int);
        assert(block.take(0) =~= Seq::empty());
        while i < hi
            invariant
                lo <= i <= hi <= self.segments@.len(),
                segments_ok(self.segments@),
                block == self.segments@.subrange(lo as int, hi as int),
                removed == total_len(block.take(i - lo)),
                total_len(block) <= u64::MAX,
            decreases hi - i,
        {
            proof {
                assert(block.take(i + 1 - lo).drop_last() =~= block.take(i - lo));
                assert(block.take(i + 1 - lo) =~= self.segments@.subrange(lo as int, i + 1));
                assert(block.take(i + 1 - lo).last() == self.segments@[i as int]);
                crate::bytes::segments::total_len_of_sum(
                    block.take(i + 1 - lo),
                    block.skip(i + 1 - lo),
                );
                assert(block =~= block.take(i + 1 - lo) + block.skip(i + 1 - lo));
                assert(block.skip(i + 1 - lo) =~= self.segments@.subrange(i + 1, hi as int));
                crate::bytes::segments::parts_are_nonnegative(self.segments@, i + 1, hi as int);
                assert(self.segments@[i as int].start < self.segments@[i as int].end_exclusive);
            }
            removed = removed + self.segments[i].len();
            i = i + 1;
        }
        assert(block.take(hi - lo) =~= block);
        assert(middle == joined(before.segments, lo as int, hi as int, start, end));
        let merged_len: u64 = middle.end_exclusive - middle.start;
        let new_cached_bytes: u64 = self.cached_bytes - removed + merged_len;
        if new_cached_bytes > self.limits.max_cached_bytes() {
            proof {
                no_split_failure(self@, SourceLimitKind::CachedBytes, self@.limits.max_cached_bytes, new_cached_bytes);
            }
            return Err(
                SourceError::resource(
                    SourceLimitKind::CachedBytes,
                    self.limits.max_cached_bytes(),
                    new_cached_bytes,
                ),
            );
        }
        let new_segment_count: usize = self.segments.len() - (hi - lo) + 1;
        if new_segment_count > self.limits.max_segments() {
            proof {
                no_split_failure(self@, SourceLimitKind::Segments, self@.limits.max_segments as u64, new_segment_count as u64);
            }
            return Err(
                SourceError::resource(
                    SourceLimitKind::Segments,
                    self.limits.max_segments() as u64,
                    new_segment_count as u64,
                ),
            );
        }
        let mut ready_tickets: Vec<DataTicket> = match self.ready_list() {
            Ok(list) => list,
            Err(error) => {
                return Err(error);
            },
        };
        let backing = if lo == hi {
            Backing { bytes, charged: response_capacity }
        } else {
            match self.merge_storage(merged_len, response_capacity) {
                Ok((storage, charged)) => Backing {
                    bytes: self.merged_bytes(lo, hi, middle, range, &bytes, storage),
                    charged,
                },
                Err(error) => {
                    return Err(error);
                },
            }
        };
        let mut prospective: Vec<Segment> = Vec::new();
        if !try_reserve_exact(&mut prospective, self.limits.max_segments()) {
            return Err(
                SourceError::resource(
                    SourceLimitKind::Allocation,
                    self.limits.max_segments() as u64,
                    new_segment_count as u64,
                ),
            );
        }
        let mut k: usize = 0;
        while k < lo
            invariant
                k <= lo <= self.segments@.len(),
                prospective@ =~= self.segments@.take(k as int),
            decreases lo - k,
        {
            prospective.push(self.segments[k]);
            k = k + 1;
        }
        prospective.push(middle);
        let mut m: usize = hi;
        while m < self.segments.len()
            invariant
                lo <= hi <= m <= self.segments@.len(),
                prospective@ =~= self.segments@.take(lo as int).push(middle)
                    + self.segments@.subrange(hi as int, m as int),
            decreases self.segments@.len() - m,
        {
            prospective.push(self.segments[m]);
            m = m + 1;
        }
        assert(prospective@ =~= after);
        let (remaining, resolved) = match self.ticket_updates(&prospective, bound) {
            Ok(updates) => updates,
            Err(error) => {
                proof {
                    source_constructors_expose_their_arguments(
                        SourceErrorCode::ResourceLimit,
                        SourceLimitKind::MissingRanges,
                        before.limits.max_missing_ranges as u64,
                        (before.limits.max_missing_ranges + 1) as u64,
                    );
                }
                return Err(error);
            },
        };
        proof {
            assert forall|t: int| 0 <= t < before.tickets.len() implies !too_fragmented(
                #[trigger] before.tickets[t],
                after,
                before.limits.max_missing_ranges as int,
            ) by {}
            assert(supply_refusal(before, observed_snapshot, range, given) is None);
            supplying_keeps_the_invariant(before, observed_snapshot, range, given);
        }
        self.commit_segments(
            lo,
            hi,
            prospective,
            backing,
            new_cached_bytes,
            Ghost(range),
            Ghost(given),
        );
        if bound.is_some() {
            self.observed_len = bound;
        }
        self.apply_updates(remaining, resolved, &mut ready_tickets, Ghost(bound));
        proof {
            let target = after_supply(before, observed_snapshot, range, given);
            assert(self@.tickets =~= target.tickets);
            assert(self@ == target);
            subscriber_total_same(before.tickets, self@.tickets);
        }
        Ok(SupplyOutcome { cached_bytes: self.cached_bytes, ready_tickets })
    }

    /// Position of a retained ticket.
    fn find_ticket(&self, ticket: DataTicket) -> (index: Result<usize, SourceError>)
        ensures
            index matches Ok(i) ==> i == ticket_index(self@.tickets, ticket, 0) && i
                < self@.tickets.len() && self@.tickets[i as int].ticket == ticket,
            index matches Err(error) ==> ticket_index(self@.tickets, ticket, 0)
                == self@.tickets.len() && error == source_failure(SourceErrorCode::UnknownTicket),
    {
        let mut i: usize = 0;
        while i < self.tickets.len()
            invariant
                i <= self.tickets@.len(),
                ticket_index(self@.tickets, ticket, 0) == ticket_index(
                    self@.tickets,
                    ticket,
                    i as int,
                ),
            decreases self.tickets@.len() - i,
        {
            assert(self@.tickets[i as int] == self.tickets@[i as int]@);
            if self.tickets[i].ticket == ticket {
                return Ok(i);
            }
            i = i + 1;
        }
        Err(SourceError::for_code(SourceErrorCode::UnknownTicket))
    }

    /// Marks one pending ticket failed without resuming its subscribers inline.
    ///
    /// An integrity failure is session-wide, even when the ticket already committed another
    /// terminal state: it poisons future work without rewriting that state.
    pub fn fail_ticket(&mut self, ticket: DataTicket, error: SourceError) -> (result: Result<
        (),
        SourceError,
    >)
        requires
            old(self).well_formed(),
        ensures
            final(self).well_formed(),
            called(old(self)@, CallView::Other, final(self)@),
            terminal_kept(old(self)@, final(self)@),
            final(self).spec_resident_bytes() == old(self).spec_resident_bytes(),
            ({
                let before = old(self)@;
                let i = ticket_index(before.tickets, ticket, 0);
                if i >= before.tickets.len() {
                    &&& result == Err::<(), SourceError>(
                        source_failure(SourceErrorCode::UnknownTicket),
                    )
                    &&& final(self)@ == before
                } else if source_category_of(error.spec_code()) == SourceErrorCategory::Integrity {
                    &&& result is Ok
                    &&& final(self)@ == poisoned(before)
                } else if before.tickets[i].phase != TicketPhase::Pending {
                    &&& result == Err::<(), SourceError>(
                        source_failure(SourceErrorCode::TicketAlreadyTerminal),
                    )
                    &&& final(self)@ == before
                } else {
                    &&& result is Ok
                    &&& final(self)@ == with_ticket(
                        before,
                        i,
                        TicketView { phase: TicketPhase::Failed(error), ..before.tickets[i] },
                    )
                }
            }),
    {
        let i: usize = match self.find_ticket(ticket) {
            Ok(i) => i,
            Err(unknown) => {
                return Err(unknown);
            },
        };
        if error.category() == SourceErrorCategory::Integrity {
            self.poison_source();
            return Ok(());
        }
        assert(self@.tickets[i as int] == self.tickets@[i as int]@);
        if self.tickets[i].phase != TicketPhase::Pending {
            return Err(SourceError::for_code(SourceErrorCode::TicketAlreadyTerminal));
        }
        let ghost before = self@;
        let ghost next = TicketView {
            phase: TicketPhase::Failed(error),
            ..before.tickets[i as int]
        };
        proof {
            assert(ticket_ok(before.tickets[i as int], before));
            replacing_keeps_the_invariant(before, i as int, next);
            subscriber_total_update(before.tickets, i as int, next);
        }
        self.tickets[i].phase = TicketPhase::Failed(error);
        assert(self@.tickets =~= with_ticket(before, i as int, next).tickets);
        Ok(())
    }

    /// Invalidates this snapshot and every pending ticket.
    ///
    /// Hosts call this when a validator changes before a response body is available. Repeated
    /// calls are idempotent.
    pub fn signal_source_changed(&mut self) -> (result: Result<(), SourceError>)
        requires
            old(self).well_formed(),
        ensures
            result is Ok,
            final(self).well_formed(),
            called(old(self)@, CallView::Other, final(self)@),
            terminal_kept(old(self)@, final(self)@),
            final(self)@ == poisoned(old(self)@),
            final(self).spec_resident_bytes() == old(self).spec_resident_bytes(),
    {
        self.poison_source();
        Ok(())
    }

    /// Removes every subscription for one job from a pending ticket.
    ///
    /// Other jobs remain subscribed. The ticket becomes abandoned only after its final subscriber
    /// leaves.
    pub fn unsubscribe(&mut self, ticket: DataTicket, job: JobId) -> (result: Result<
        (),
        SourceError,
    >)
        requires
            old(self).well_formed(),
        ensures
            final(self).well_formed(),
            called(old(self)@, CallView::Other, final(self)@),
            terminal_kept(old(self)@, final(self)@),
            final(self).spec_resident_bytes() == old(self).spec_resident_bytes(),
            ({
                let before = old(self)@;
                let i = ticket_index(before.tickets, ticket, 0);
                if i >= before.tickets.len() {
                    &&& result == Err::<(), SourceError>(
                        source_failure(SourceErrorCode::UnknownTicket),
                    )
                    &&& final(self)@ == before
                } else if before.tickets[i].phase != TicketPhase::Pending {
                    &&& result == Err::<(), SourceError>(
                        source_failure(SourceErrorCode::TicketAlreadyTerminal),
                    )
                    &&& final(self)@ == before
                } else {
                    &&& result is Ok
                    &&& final(self)@ == with_ticket(before, i, left_ticket(before.tickets[i], job))
                }
            }),
    {
        let i: usize = match self.find_ticket(ticket) {
            Ok(i) => i,
            Err(unknown) => {
                return Err(unknown);
            },
        };
        assert(self@.tickets[i as int] == self.tickets@[i as int]@);
        if self.tickets[i].phase != TicketPhase::Pending {
            return Err(SourceError::for_code(SourceErrorCode::TicketAlreadyTerminal));
        }
        let ghost before = self@;
        let ghost record = before.tickets[i as int];
        let ghost next = left_ticket(record, job);
        proof {
            assert(ticket_ok(record, before));
            without_job_meaning(record, job);
            assert(ticket_ok(next, before));
            replacing_keeps_the_invariant(before, i as int, next);
            subscriber_total_update(before.tickets, i as int, next);
            subscriber_total_bounds(before.tickets, i as int);
        }
        let count: usize = self.tickets[i].subscribers.len();
        let mut kept: Vec<ResumeSubscription> = Vec::new();
        let mut k: usize = 0;
        assert(record.subscribers.take(0) =~= Seq::empty());
        while k < count
            invariant
                k <= count,
                i < self.tickets@.len(),
                count == record.subscribers.len(),
                self.tickets@[i as int].subscribers@ == record.subscribers,
                kept@ == without_job(record.subscribers.take(k as int), job),
                kept@.len() <= k,
            decreases count - k,
        {
            assert(record.subscribers.take(k + 1).drop_last() =~= record.subscribers.take(k as int));
            if self.tickets[i].subscribers[k].job != job {
                kept.push(self.tickets[i].subscribers[k]);
            }
            k = k + 1;
        }
        assert(record.subscribers.take(k as int) =~= record.subscribers);
        let removed: usize = count - kept.len();
        if kept.len() == 0 {
            self.tickets[i].phase = TicketPhase::Abandoned;
        }
        self.tickets[i].subscribers = kept;
        assert(self@.tickets =~= with_ticket(before, i as int, next).tickets);
        proof {
            subscriber_total_nonnegative(self@.tickets);
        }
        self.subscription_count = self.subscription_count - removed;
        Ok(())
    }

    /// Moves retained job/checkpoint subscriptions out of one terminal ticket.
    ///
    /// Runtime calls this after observing a terminal ticket and then requeues or terminates those
    /// jobs. A second call returns an empty vector and never repeats a wake target.
    pub fn take_subscriptions(&mut self, ticket: DataTicket) -> (result: Result<
        Vec<ResumeSubscription>,
        SourceError,
    >)
        requires
            old(self).well_formed(),
        ensures
            final(self).well_formed(),
            called(old(self)@, CallView::Other, final(self)@),
            terminal_kept(old(self)@, final(self)@),
            final(self).spec_resident_bytes() == old(self).spec_resident_bytes(),
            ({
                let before = old(self)@;
                let i = ticket_index(before.tickets, ticket, 0);
                if i >= before.tickets.len() {
                    &&& result matches Err(error) && error == source_failure(
                        SourceErrorCode::UnknownTicket,
                    )
                    &&& final(self)@ == before
                } else if before.tickets[i].phase == TicketPhase::Pending {
                    &&& result matches Err(error) && error == source_failure(
                        SourceErrorCode::TicketNotTerminal,
                    )
                    &&& final(self)@ == before
                } else {
                    &&& result matches Ok(taken) && taken@ == before.tickets[i].subscribers
                    &&& final(self)@ == with_ticket(
                        before,
                        i,
                        TicketView { subscribers: Seq::empty(), ..before.tickets[i] },
                    )
                    &&& ticket_index(final(self)@.tickets, ticket, 0) == i
                }
            }),
    {
        let i: usize = match self.find_ticket(ticket) {
            Ok(i) => i,
            Err(unknown) => {
                return Err(unknown);
            },
        };
        assert(self@.tickets[i as int] == self.tickets@[i as int]@);
        if self.tickets[i].phase == TicketPhase::Pending {
            return Err(SourceError::for_code(SourceErrorCode::TicketNotTerminal));
        }
        let ghost before = self@;
        let ghost record = before.tickets[i as int];
        let ghost next = TicketView { subscribers: Seq::empty(), ..record };
        proof {
            assert(ticket_ok(record, before));
            replacing_keeps_the_invariant(before, i as int, next);
            subscriber_total_update(before.tickets, i as int, next);
            subscriber_total_bounds(before.tickets, i as int);
        }
        let mut taken: Vec<ResumeSubscription> = Vec::new();
        std::mem::swap(&mut taken, &mut self.tickets[i].subscribers);
        self.subscription_count = self.subscription_count - taken.len();
        proof {
            assert(self@.tickets =~= with_ticket(before, i as int, next).tickets);
            same_place(before.tickets, self@.tickets, ticket, 0);
        }
        Ok(taken)
    }

    /// Returns the retained state of one ticket.
    pub fn ticket_status(&self, ticket: DataTicket) -> (status: Result<TicketStatus, SourceError>)
        requires
            self.well_formed(),
        ensures
            ({
                let i = ticket_index(self@.tickets, ticket, 0);
                if i >= self@.tickets.len() {
                    status == Err::<TicketStatus, SourceError>(
                        source_failure(SourceErrorCode::UnknownTicket),
                    )
                } else {
                    status == Ok::<TicketStatus, SourceError>(status_of(self@.tickets[i]))
                }
            }),
    {
        match self.find_ticket(ticket) {
            Ok(i) => {
                assert(self@.tickets[i as int] == self.tickets@[i as int]@);
                Ok(
                    match self.tickets[i].phase {
                        TicketPhase::Pending => TicketStatus::Pending {
                            subscriber_count: self.tickets[i].subscribers.len(),
                        },
                        TicketPhase::Ready => TicketStatus::Ready,
                        TicketPhase::Failed(error) => TicketStatus::Failed(error),
                        TicketPhase::SourceChanged => TicketStatus::SourceChanged,
                        TicketPhase::Abandoned => TicketStatus::Abandoned,
                    },
                )
            },
            Err(error) => Err(error),
        }
    }

    /// Releases one retained terminal ticket record.
    pub fn release_ticket(&mut self, ticket: DataTicket) -> (result: Result<(), SourceError>)
        requires
            old(self).well_formed(),
        ensures
            final(self).well_formed(),
            called(old(self)@, CallView::Other, final(self)@),
            final(self).spec_resident_bytes() == old(self).spec_resident_bytes(),
            ({
                let before = old(self)@;
                let i = ticket_index(before.tickets, ticket, 0);
                if i >= before.tickets.len() {
                    &&& result == Err::<(), SourceError>(
                        source_failure(SourceErrorCode::UnknownTicket),
                    )
                    &&& final(self)@ == before
                } else if before.tickets[i].phase == TicketPhase::Pending {
                    &&& result == Err::<(), SourceError>(
                        source_failure(SourceErrorCode::TicketNotTerminal),
                    )
                    &&& final(self)@ == before
                } else if before.tickets[i].subscribers.len() > 0 {
                    &&& result == Err::<(), SourceError>(
                        source_failure(SourceErrorCode::SubscriptionsNotTaken),
                    )
                    &&& final(self)@ == before
                } else {
                    &&& result is Ok
                    &&& final(self)@ == (StoreView { tickets: before.tickets.remove(i), ..before })
                }
            }),
    {
        let i: usize = match self.find_ticket(ticket) {
            Ok(i) => i,
            Err(unknown) => {
                return Err(unknown);
            },
        };
        assert(self@.tickets[i as int] == self.tickets@[i as int]@);
        if self.tickets[i].phase == TicketPhase::Pending {
            return Err(SourceError::for_code(SourceErrorCode::TicketNotTerminal));
        }
        if self.tickets[i].subscribers.len() > 0 {
            return Err(SourceError::for_code(SourceErrorCode::SubscriptionsNotTaken));
        }
        let ghost before = self@;
        proof {
            releasing_keeps_the_invariant(before, i as int);
            subscriber_total_remove(before.tickets, i as int);
        }
        let _released = self.tickets.remove(i);
        assert(self@.tickets =~= before.tickets.remove(i as int));
        Ok(())
    }

    /// Copies a covered range.
    fn borrow_range(&self, range: ByteRange) -> (slice: ByteSlice)
        requires
            self.well_formed(),
            covers_all(self@.segments, range.first(), range.end()),
        ensures
            slice.spec_identity() == self@.snapshot.identity,
            slice.spec_range() == range,
            slice.spec_bytes() == Seq::new(
                (range.end() - range.first()) as nat,
                |k: int| self@.bytes[range.first() + k],
            ),
    {
        let start: u64 = range.start();
        let end: u64 = range.end_exclusive();
        let ghost at = covered_range_has_one_holder(self.segments@, start as int, end as int);
        let mut i: usize = 0;
        while self.segments[i].end_exclusive <= start
            invariant
                i <= at < self.segments@.len(),
                self.well_formed(),
                holds(self.segments@, at, start as int),
                segments_ok(self.segments@),
            decreases self.segments@.len() - i,
        {
            assert(i != at);
            i = i + 1;
        }
        proof {
            if i < at {
                assert(self.segments@[i as int].end_exclusive < self.segments@[at].start);
            }
        }
        let origin: u64 = self.segments[i].start;
        let held = &self.backings[i].bytes;
        let held_len: usize = held.len();
        let mut bytes: Vec<u8> = Vec::new();
        let mut offset: u64 = start;
        while offset < end
            invariant
                self.well_formed(),
                i < self.segments@.len(),
                held@ == self.backings@[i as int].bytes@,
                held_len == held@.len(),
                origin == self.segments@[i as int].start,
                origin <= start <= offset <= end <= self.segments@[i as int].end_exclusive,
                held@.len() == self.segments@[i as int].end_exclusive - origin,
                bytes@ =~= Seq::new(
                    (offset - start) as nat,
                    |k: int| self@.bytes[start + k],
                ),
            decreases end - offset,
        {
            proof {
                assert(holds(self.segments@, i as int, offset as int));
                contents_at(self.segments@, self.backings@, i as int, offset as int);
            }
            bytes.push(held[(offset - origin) as usize]);
            offset = offset + 1;
        }
        assert(bytes@ =~= Seq::new(
            (range.end() - range.first()) as nat,
            |k: int| self@.bytes[range.first() + k],
        ));
        ByteSlice::from_parts(self.snapshot.identity, range, bytes)
    }

    /// Position of the pending ticket that waits for exactly the gaps of a range, or the ticket
    /// count.
    fn find_waiting(&self, range: ByteRange) -> (index: usize)
        requires
            segments_ok(self@.segments),
        ensures
            index == waiting_index(self@.tickets, gaps(self@.segments, range), 0),
            index <= self@.tickets.len(),
            index < self@.tickets.len() ==> self@.tickets[index as int].phase
                == TicketPhase::Pending && self@.tickets[index as int].missing == gaps(
                self@.segments,
                range,
            ),
    {
        let ghost missing = gaps(self@.segments, range);
        let mut i: usize = 0;
        while i < self.tickets.len()
            invariant
                i <= self.tickets@.len(),
                segments_ok(self@.segments),
                missing == gaps(self@.segments, range),
                waiting_index(self@.tickets, missing, 0) == waiting_index(
                    self@.tickets,
                    missing,
                    i as int,
                ),
            decreases self.tickets@.len() - i,
        {
            assert(self@.tickets[i as int] == self.tickets@[i as int]@);
            if self.tickets[i].phase == TicketPhase::Pending && gaps_are(
                &self.segments,
                range,
                self.tickets[i].missing.as_slice(),
            ) {
                return i;
            }
            i = i + 1;
        }
        i
    }

    /// Joins a pending ticket that already waits for the same ranges.
    fn join_ticket(&mut self, i: usize, request: ReadRequest) -> (poll:
        ReadPoll<ByteSlice>)
        requires
            old(self).well_formed(),
            !old(self)@.source_changed,
            0 <= request.range.first() < request.range.end() <= u64::MAX,
            request.range.end() - request.range.first() <= old(self)@.limits.max_read_bytes,
            old(self)@.observed_len matches Some(len) ==> request.range.end() <= len,
            request.range.end() <= old(self)@.limits.max_input_bytes,
            !covers_all(old(self)@.segments, request.range.first(), request.range.end()),
            gaps(old(self)@.segments, request.range).len() <= old(self)@.limits.max_missing_ranges,
            i == waiting_index(
                old(self)@.tickets,
                gaps(old(self)@.segments, request.range),
                0,
            ),
            i < old(self)@.tickets.len(),
            old(self)@.tickets[i as int].missing == gaps(old(self)@.segments, request.range),
        ensures
            final(self).well_formed(),
            final(self).spec_resident_bytes() == old(self).spec_resident_bytes(),
            (read_view(poll), final(self)@) == poll_outcome(old(self)@, request)
                || poll_memory_failure(old(self)@, request, read_view(poll), final(self)@),
    {
        let ghost before = self@;
        let ghost record = before.tickets[i as int];
        proof {
            polling_keeps_the_invariant(before, request);
            assert(ticket_ok(record, before));
        }
        assert(record == self.tickets@[i as int]@);
        let missing = self.tickets[i].missing.duplicate();
        let count: usize = self.tickets[i].subscribers.len();
        let mut k: usize = 0;
        while k < count && self.tickets[i].subscribers[k].job != request.job
            invariant
                k <= count,
                i < self.tickets@.len(),
                self.tickets@[i as int].subscribers@ == record.subscribers,
                count == record.subscribers.len(),
                job_index(record.subscribers, request.job, 0) == job_index(
                    record.subscribers,
                    request.job,
                    k as int,
                ),
            decreases count - k,
        {
            k = k + 1;
        }
        if k < count {
            if self.tickets[i].subscribers[k].checkpoint != request.checkpoint {
                return ReadPoll::Failed(
                    SourceError::for_code(SourceErrorCode::CheckpointConflict),
                );
            }
            return ReadPoll::Pending { ticket: self.tickets[i].ticket, missing };
        }
        if self.subscription_count >= self.limits.max_total_subscriptions() {
            return ReadPoll::Failed(
                SourceError::resource(
                    SourceLimitKind::TotalSubscriptions,
                    self.limits.max_total_subscriptions() as u64,
                    self.subscription_count as u64 + 1,
                ),
            );
        }
        let most: usize = self.limits.max_subscribers_per_ticket();
        if count >= most {
            return ReadPoll::Failed(
                SourceError::resource(
                    SourceLimitKind::TicketSubscribers,
                    most as u64,
                    count as u64 + 1,
                ),
            );
        }
        let reserved = self.tickets[i].subscribers.try_reserve(1);
        if reserved.is_err() {
            assert(self@.tickets =~= before.tickets);
            return ReadPoll::Failed(
                SourceError::resource(SourceLimitKind::Allocation, most as u64, count as u64 + 1),
            );
        }
        let subscriber = ResumeSubscription { job: request.job, checkpoint: request.checkpoint };
        let ghost next = TicketView { subscribers: record.subscribers.push(subscriber), ..record };
        self.tickets[i].subscribers.push(subscriber);
        self.subscription_count = self.subscription_count + 1;
        proof {
            subscriber_total_update(before.tickets, i as int, next);
            assert(self@.tickets =~= with_ticket(before, i as int, next).tickets);
        }
        ReadPoll::Pending { ticket: self.tickets[i].ticket, missing }
    }

    /// Reads one exact range: its bytes when they are held, a ticket when they are not.
    ///
    /// Only a read that subscribes anew takes memory, and fails where the allocator refuses it. That
    /// leaves the store as it was, except that the identifier meant for a new ticket may stay spent.
    pub fn poll(&mut self, request: ReadRequest) -> (poll: ReadPoll<ByteSlice>)
        requires
            old(self).well_formed(),
        ensures
            final(self).well_formed(),
            called(old(self)@, CallView::Other, final(self)@),
            terminal_kept(old(self)@, final(self)@),
            final(self).spec_resident_bytes() == old(self).spec_resident_bytes(),
            (read_view(poll), final(self)@) == poll_outcome(old(self)@, request)
                || poll_memory_failure(old(self)@, request, read_view(poll), final(self)@),
    {
        let ghost before = self@;
        let range = request.range;
        let start: u64 = range.start();
        let end: u64 = range.end_exclusive();
        proof {
            polling_keeps_the_invariant(before, request);
            gaps_meaning(before.segments, range);
        }
        if self.source_changed {
            return ReadPoll::Failed(SourceError::for_code(SourceErrorCode::SourceChanged));
        }
        if range.len() > self.limits.max_read_bytes() {
            return ReadPoll::Failed(
                SourceError::resource(
                    SourceLimitKind::ReadBytes,
                    self.limits.max_read_bytes(),
                    range.len(),
                ),
            );
        }
        if let Some(source_len) = self.observed_len {
            if end > source_len {
                return ReadPoll::EndOfFile;
            }
        }
        if end > self.limits.max_input_bytes() {
            return ReadPoll::Failed(
                SourceError::resource(
                    SourceLimitKind::InputBytes,
                    self.limits.max_input_bytes(),
                    end,
                ),
            );
        }
        if range_is_covered(&self.segments, range) {
            return ReadPoll::Ready(self.borrow_range(range));
        }
        let max_missing: usize = self.limits.max_missing_ranges();
        if !gaps_within(&self.segments, range, max_missing) {
            return ReadPoll::Failed(
                SourceError::resource(
                    SourceLimitKind::MissingRanges,
                    max_missing as u64,
                    max_missing as u64 + 1,
                ),
            );
        }
        let i: usize = self.find_waiting(range);
        if i < self.tickets.len() {
            return self.join_ticket(i, request);
        }
        if self.tickets.len() >= self.limits.max_tickets() {
            return ReadPoll::Failed(
                SourceError::resource(
                    SourceLimitKind::Tickets,
                    self.limits.max_tickets() as u64,
                    self.tickets.len() as u64 + 1,
                ),
            );
        }
        if self.subscription_count >= self.limits.max_total_subscriptions() {
            return ReadPoll::Failed(
                SourceError::resource(
                    SourceLimitKind::TotalSubscriptions,
                    self.limits.max_total_subscriptions() as u64,
                    self.subscription_count as u64 + 1,
                ),
            );
        }
        let ticket = DataTicket(self.next_ticket);
        if self.next_ticket == u64::MAX {
            return ReadPoll::Failed(
                SourceError::resource(
                    SourceLimitKind::Tickets,
                    self.limits.max_tickets() as u64,
                    u64::MAX,
                ),
            );
        }
        let missing = match missing_ranges(&self.segments, range, max_missing) {
            Ok(missing) => missing,
            Err(error) => {
                return ReadPoll::Failed(error);
            },
        };
        self.next_ticket = self.next_ticket + 1;
        let mut subscribers: Vec<ResumeSubscription> = Vec::new();
        if !try_reserve_exact(&mut subscribers, 1) {
            return ReadPoll::Failed(SourceError::resource(SourceLimitKind::Allocation, 1, 1));
        }
        let subscriber = ResumeSubscription { job: request.job, checkpoint: request.checkpoint };
        subscribers.push(subscriber);
        let ghost next = TicketView {
            ticket,
            missing: missing@,
            subscribers: seq![subscriber],
            phase: TicketPhase::Pending,
        };
        let record = TicketRecord {
            ticket,
            missing: missing.duplicate(),
            subscribers,
            phase: TicketPhase::Pending,
        };
        assert(record@.subscribers =~= next.subscribers);
        self.tickets.push(record);
        self.subscription_count = self.subscription_count + 1;
        proof {
            assert(self@.tickets =~= before.tickets.push(next));
            assert(before.tickets.push(next).drop_last() =~= before.tickets);
        }
        ReadPoll::Pending { ticket, missing }
    }
}

impl ByteSource for RangeStore {
    fn snapshot(&self) -> (snapshot: SourceSnapshot)
        ensures
            snapshot == self@.snapshot,
    {
        self.snapshot
    }
}

/// The observable state of a ticket.
pub open spec fn status_of(ticket: TicketView) -> TicketStatus {
    match ticket.phase {
        TicketPhase::Pending => TicketStatus::Pending {
            subscriber_count: ticket.subscribers.len() as usize,
        },
        TicketPhase::Ready => TicketStatus::Ready,
        TicketPhase::Failed(error) => TicketStatus::Failed(error),
        TicketPhase::SourceChanged => TicketStatus::SourceChanged,
        TicketPhase::Abandoned => TicketStatus::Abandoned,
    }
}

proof fn same_place(left: Seq<TicketView>, right: Seq<TicketView>, ticket: DataTicket, i: int)
    requires
        left.len() == right.len(),
        forall|k: int| 0 <= k < left.len() ==> (#[trigger] left[k]).ticket == right[k].ticket,
        0 <= i,
    ensures
        ticket_index(left, ticket, i) == ticket_index(right, ticket, i),
    decreases left.len() - i,
{
    if i < left.len() {
        assert(left[i].ticket == right[i].ticket);
        same_place(left, right, ticket, i + 1);
    }
}

/// The gaps of the first ranges are no more than those of all.
proof fn gaps_of_all_grows(segments: Seq<Segment>, wanted: Seq<ByteRange>, i: int)
    requires
        0 <= i <= wanted.len(),
    ensures
        gaps_of_all(segments, wanted.take(i)).len() <= gaps_of_all(segments, wanted).len(),
    decreases wanted.len() - i,
{
    if i < wanted.len() {
        assert(wanted.take(i + 1).drop_last() =~= wanted.take(i));
        gaps_of_all_grows(segments, wanted, i + 1);
    } else {
        assert(wanted.take(i) =~= wanted);
    }
}

/// Storage for as many missing ranges as the budget admits.
fn missing_range_storage(max_ranges: usize) -> (storage: Result<Vec<ByteRange>, SourceError>)
    ensures
        storage matches Ok(ranges) ==> ranges@.len() == 0,
        storage matches Err(error) ==> error == source_resource(
            SourceLimitKind::Allocation,
            max_ranges as u64,
            max_ranges as u64,
        ),
{
    let mut ranges: Vec<ByteRange> = Vec::new();
    if !try_reserve_exact(&mut ranges, max_ranges) {
        return Err(
            SourceError::resource(
                SourceLimitKind::Allocation,
                max_ranges as u64,
                max_ranges as u64,
            ),
        );
    }
    Ok(ranges)
}

/// The gaps of one requested range, which are within the budget.
fn missing_ranges(segments: &Vec<Segment>, requested: ByteRange, max_ranges: usize) -> (missing:
    Result<SmallRanges, SourceError>)
    requires
        segments_ok(segments@),
        max_ranges < usize::MAX,
        gaps(segments@, requested).len() <= max_ranges,
    ensures
        missing matches Ok(value) ==> value@ == gaps(segments@, requested),
        missing matches Err(error) ==> error == source_resource(
            SourceLimitKind::Allocation,
            max_ranges as u64,
            max_ranges as u64,
        ),
{
    match missing_range_storage(max_ranges) {
        Ok(storage) => {
            let mut ranges = storage;
            match append_uncovered_ranges(segments, requested, &mut ranges, max_ranges) {
                Ok(_) => {
                    assert(ranges@ =~= gaps(segments@, requested));
                    Ok(SmallRanges::from_vec(ranges))
                },
                Err(error) => Err(error),
            }
        },
        Err(error) => Err(error),
    }
}

/// The gaps that are left of ranges which were missing.
fn remaining_missing_ranges(
    segments: &Vec<Segment>,
    requested: &SmallRanges,
    max_ranges: usize,
) -> (remaining: Result<SmallRanges, SourceError>)
    requires
        segments_ok(segments@),
        max_ranges < usize::MAX,
    ensures
        remaining matches Ok(value) ==> value@ == gaps_of_all(segments@, requested@) && value@.len()
            <= max_ranges,
        remaining matches Err(error) ==> error == source_resource(
            SourceLimitKind::Allocation,
            max_ranges as u64,
            max_ranges as u64,
        ) || (error == source_resource(
            SourceLimitKind::MissingRanges,
            max_ranges as u64,
            (max_ranges + 1) as u64,
        ) && gaps_of_all(segments@, requested@).len() > max_ranges),
{
    let mut ranges: Vec<ByteRange> = match missing_range_storage(max_ranges) {
        Ok(storage) => storage,
        Err(error) => {
            return Err(error);
        },
    };
    let wanted = requested.as_slice();
    let mut i: usize = 0;
    assert(ranges@ =~= gaps_of_all(segments@, wanted@.take(0)));
    while i < wanted.len()
        invariant
            i <= wanted@.len(),
            wanted@ == requested@,
            segments_ok(segments@),
            max_ranges < usize::MAX,
            ranges@ == gaps_of_all(segments@, wanted@.take(i as int)),
            ranges@.len() <= max_ranges,
        decreases wanted@.len() - i,
    {
        proof {
            assert(wanted@.take(i + 1).drop_last() =~= wanted@.take(i as int));
            gaps_of_all_grows(segments@, wanted@, i + 1);
        }
        match append_uncovered_ranges(segments, wanted[i], &mut ranges, max_ranges) {
            Ok(_) => {},
            Err(error) => {
                return Err(error);
            },
        }
        i = i + 1;
    }
    assert(wanted@.take(i as int) =~= wanted@);
    Ok(SmallRanges::from_vec(ranges))
}

proof fn nothing_became_ready(tickets: Seq<TicketView>)
    ensures
        became_ready(tickets, tickets) == Seq::<DataTicket>::empty(),
    decreases tickets.len(),
{
    if tickets.len() > 0 {
        nothing_became_ready(tickets.drop_last());
    }
}

/// Whether the last missing range ends beyond the source.
fn missing_crosses_eof(missing: &SmallRanges, observed_len: u64) -> (crosses: bool)
    ensures
        crosses == crosses_eof(missing@, observed_len),
{
    let ranges = missing.as_slice();
    let count: usize = ranges.len();
    count > 0 && ranges[count - 1].end_exclusive() > observed_len
}

/// A failure of another budget is not that of a ticket which would be split.
proof fn no_split_failure(store: StoreView, kind: SourceLimitKind, limit: u64, attempted: u64)
    requires
        kind != SourceLimitKind::MissingRanges,
    ensures
        source_resource(kind, limit, attempted) != fragmentation_failure(store),
{
    source_constructors_expose_their_arguments(
        SourceErrorCode::ResourceLimit,
        kind,
        limit,
        attempted,
    );
    source_constructors_expose_their_arguments(
        SourceErrorCode::ResourceLimit,
        SourceLimitKind::MissingRanges,
        store.limits.max_missing_ranges as u64,
        (store.limits.max_missing_ranges + 1) as u64,
    );
}

} // verus!
