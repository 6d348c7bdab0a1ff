//! What reads are answered, what the tickets of a store wait for, and what ends their waiting.

use vstd::prelude::*;

use crate::bytes::model::{
    canonical_ranges, in_ranges, ByteRange, JobId, ReadRequest, ResumeSubscription, SourceSnapshot,
};
use crate::bytes::segments::{
    covers, covers_all, gaps, gaps_meaning, gaps_of_all, gaps_of_all_meaning, holds,
    inserted_meaning, segments_within,
};
use crate::bytes::store::{status_of, TicketStatus};
use crate::bytes::store_laws::{supplying_keeps_the_invariant, waiting_index_meaning};
use crate::bytes::store_model::{
    after_observe, after_supply, became_ready, crosses_eof, job_index, left_ticket, newly_bound,
    observe_refusal, poll_outcome, store_ok, supplied_ticket, supply_refusal, ticket_at_eof,
    ticket_ok, waiting_index, without_job, ReadView, StoreView, TicketPhase, TicketView,
};

verus! {

/// Whether a store lacks a byte that a ticket waits for.
pub open spec fn still_missing(store: StoreView, ticket: TicketView, offset: int) -> bool {
    in_ranges(ticket.missing, offset) && !store.bytes.dom().contains(offset)
}

/// Whether a ticket waits, in whatever place, for exactly the given ranges.
pub open spec fn waits_for(ticket: TicketView, missing: Seq<ByteRange>) -> bool {
    ticket.phase == TicketPhase::Pending && ticket.missing == missing
}

/// A read within the budgets is answered by what the store holds: it ends beyond the source exactly
/// where the length is known and its range reaches past it, and it is ready exactly where every byte
/// of its range is held. Then each byte is the one held at its offset, and the store stays as it is.
pub proof fn reads_are_answered_by_what_is_held(store: StoreView, request: ReadRequest)
    requires
        store_ok(store),
        0 <= request.range.first() < request.range.end() <= u64::MAX,
        !store.source_changed,
        request.range.end() - request.range.first() <= store.limits.max_read_bytes,
    ensures
        poll_outcome(store, request).0 is EndOfFile <==> (store.observed_len matches Some(len)
            && len < request.range.end()),
        poll_outcome(store, request).0 is Ready <==> (forall|offset: int|
            request.range.contains(offset) ==> #[trigger] store.bytes.dom().contains(offset)),
        poll_outcome(store, request).0 matches ReadView::Ready { identity, range, bytes } ==> {
            &&& identity == store.snapshot.identity
            &&& range == request.range
            &&& bytes.len() == range.end() - range.first()
            &&& forall|k: int|
                0 <= k < bytes.len() ==> #[trigger] bytes[k] == store.bytes[range.first() + k]
            &&& poll_outcome(store, request).1 == store
        },
{
    let range = request.range;
    let last = range.end() - 1;
    if covers_all(store.segments, range.first(), range.end()) {
        assert(covers(store.segments, last));
        if store.observed_len is Some {
            assert(segments_within(store.segments, store.observed_len->0 as int));
        }
        assert(segments_within(store.segments, store.limits.max_input_bytes as int));
    }
    assert(covers_all(store.segments, range.first(), range.end()) <==> (forall|offset: int|
        range.contains(offset) ==> #[trigger] store.bytes.dom().contains(offset))) by {
        if forall|offset: int|
            range.contains(offset) ==> #[trigger] store.bytes.dom().contains(offset) {
            assert forall|offset: int| range.first() <= offset < range.end() implies
                #[trigger] covers(store.segments, offset) by {
                assert(store.bytes.dom().contains(offset));
            }
        }
    }
}

proof fn waiting_tickets_are_found(tickets: Seq<TicketView>, missing: Seq<ByteRange>, i: int)
    requires
        0 <= i <= tickets.len(),
    ensures
        waiting_index(tickets, missing, i) == tickets.len() ==> forall|k: int|
            i <= k < tickets.len() ==> !waits_for(#[trigger] tickets[k], missing),
    decreases tickets.len() - i,
{
    if i < tickets.len() && !waits_for(tickets[i], missing) {
        waiting_tickets_are_found(tickets, missing, i + 1);
    }
}

proof fn found_jobs_subscribe(subscribers: Seq<ResumeSubscription>, job: JobId, i: int)
    requires
        0 <= i <= subscribers.len(),
    ensures
        i <= job_index(subscribers, job, i) <= subscribers.len(),
        job_index(subscribers, job, i) < subscribers.len() ==> subscribers[job_index(
            subscribers,
            job,
            i,
        )].job == job,
    decreases subscribers.len() - i,
{
    if i < subscribers.len() && subscribers[i].job != job {
        found_jobs_subscribe(subscribers, job, i + 1);
    }
}

/// A read that has to wait waits for exactly the bytes of its range that the store lacks, under a
/// ticket that its job is subscribed to at its checkpoint. Where a ticket already waits for the same
/// bytes that one is shared, and a new one is made otherwise. No byte, and no other ticket, changes.
pub proof fn waiting_reads_ask_for_what_is_missing(store: StoreView, request: ReadRequest)
    requires
        store_ok(store),
        0 <= request.range.first() < request.range.end() <= u64::MAX,
        poll_outcome(store, request).0 is Pending,
    ensures
        ({
            let missing = poll_outcome(store, request).0->missing;
            let ticket = poll_outcome(store, request).0->ticket;
            let after = poll_outcome(store, request).1;
            let shared = exists|k: int|
                0 <= k < store.tickets.len() && waits_for(#[trigger] store.tickets[k], missing);
            &&& canonical_ranges(missing)
            &&& forall|offset: int| #[trigger]
                in_ranges(missing, offset) <==> request.range.contains(offset)
                    && !store.bytes.dom().contains(offset)
            &&& exists|k: int|
                0 <= k < after.tickets.len() && waits_for(#[trigger] after.tickets[k], missing)
                    && after.tickets[k].ticket == ticket && after.tickets[k].subscribers.contains(
                    ResumeSubscription { job: request.job, checkpoint: request.checkpoint },
                )
            &&& after.tickets.len() == store.tickets.len() + (if shared {
                0int
            } else {
                1int
            })
            &&& forall|k: int|
                0 <= k < store.tickets.len() ==> {
                    &&& (#[trigger] after.tickets[k]).ticket == store.tickets[k].ticket
                    &&& after.tickets[k].missing == store.tickets[k].missing
                    &&& after.tickets[k].phase == store.tickets[k].phase
                    &&& store.tickets[k].ticket != ticket ==> after.tickets[k] == store.tickets[k]
                }
            &&& !shared ==> forall|k: int|
                0 <= k < store.tickets.len() ==> (#[trigger] store.tickets[k]).ticket != ticket
            &&& after.bytes == store.bytes && after.segments == store.segments
            &&& after.observed_len == store.observed_len && !after.source_changed
        }),
{
    let (read, after) = poll_outcome(store, request);
    let missing = gaps(store.segments, request.range);
    let subscriber = ResumeSubscription { job: request.job, checkpoint: request.checkpoint };
    let i = waiting_index(store.tickets, missing, 0);
    gaps_meaning(store.segments, request.range);
    waiting_index_meaning(store.tickets, missing, 0);
    waiting_tickets_are_found(store.tickets, missing, 0);
    assert(read->missing == missing);
    if i < store.tickets.len() {
        let record = store.tickets[i];
        let k = job_index(record.subscribers, request.job, 0);
        found_jobs_subscribe(record.subscribers, request.job, 0);
        assert(waits_for(record, missing));
        assert(read->ticket == record.ticket);
        if k < record.subscribers.len() {
            assert(record.subscribers[k] == subscriber);
            assert(waits_for(after.tickets[i], missing));
        } else {
            let pushed = record.subscribers.push(subscriber);
            assert(pushed[record.subscribers.len() as int] == subscriber);
            assert(after.tickets[i].subscribers == pushed);
            assert(waits_for(after.tickets[i], missing));
        }
        assert(after.tickets[i].subscribers.contains(subscriber));
    } else {
        let n = store.tickets.len() as int;
        assert(after.tickets[n].subscribers[0] == subscriber);
        assert(waits_for(after.tickets[n], missing));
        assert forall|k: int| 0 <= k < n implies (#[trigger] store.tickets[k]).ticket
            != read->ticket by {
            assert(ticket_ok(store.tickets[k], store));
        }
    }
}

proof fn crossing_is_a_missing_offset(ranges: Seq<ByteRange>, end: u64)
    requires
        canonical_ranges(ranges),
        forall|i: int| 0 <= i < ranges.len() ==> (#[trigger] ranges[i]).first() < ranges[i].end(),
    ensures
        crosses_eof(ranges, end) <==> exists|offset: int| #[trigger]
            in_ranges(ranges, offset) && offset >= end,
{
    if crosses_eof(ranges, end) {
        let last = ranges.last().end() - 1;
        assert(ranges[ranges.len() - 1].contains(last));
        assert(in_ranges(ranges, last));
    }
    if exists|offset: int| #[trigger] in_ranges(ranges, offset) && offset >= end {
        let offset = choose|offset: int| #[trigger] in_ranges(ranges, offset) && offset >= end;
        let k = choose|k: int| 0 <= k < ranges.len() && (#[trigger] ranges[k]).contains(offset);
        if k < ranges.len() - 1 {
            assert(ranges[k].end() < ranges[ranges.len() - 1].first());
            assert(ranges[ranges.len() - 1].first() < ranges[ranges.len() - 1].end());
        }
    }
}

/// A response ends the waiting of a ticket exactly where every byte that the ticket waits for is
/// held now, or where the response makes known that the source ends before one that is not. Else the
/// ticket goes on waiting, for exactly the bytes that are still missing. Whoever waits for it stays.
pub proof fn tickets_are_ready_once_nothing_is_missing(
    store: StoreView,
    observed: SourceSnapshot,
    range: ByteRange,
    bytes: Seq<u8>,
    i: int,
)
    requires
        store_ok(store),
        0 <= range.first() < range.end() <= u64::MAX,
        bytes.len() == range.end() - range.first(),
        observed.len matches Some(len) ==> range.end() <= len,
        supply_refusal(store, observed, range, bytes) is None,
        0 <= i < store.tickets.len(),
        store.tickets[i].phase == TicketPhase::Pending,
    ensures
        ({
            let after = after_supply(store, observed, range, bytes);
            let ticket = store.tickets[i];
            let now = after.tickets[i];
            let ended = store.observed_len is None && (after.observed_len matches Some(len)
                && exists|offset: int| #[trigger]
                still_missing(after, ticket, offset) && offset >= len);
            &&& now.ticket == ticket.ticket && now.subscribers == ticket.subscribers
            &&& now.phase == TicketPhase::Ready || now.phase == TicketPhase::Pending
            &&& now.phase == TicketPhase::Ready <==> ended || forall|offset: int| !#[trigger]
            still_missing(after, ticket, offset)
            &&& now.phase == TicketPhase::Pending ==> forall|offset: int| #[trigger]
            in_ranges(now.missing, offset) <==> still_missing(after, ticket, offset)
        }),
{
    let after = after_supply(store, observed, range, bytes);
    let ticket = store.tickets[i];
    let bound = newly_bound(store, observed.len);
    assert(ticket_ok(ticket, store));
    supplying_keeps_the_invariant(store, observed, range, bytes);
    let start = range.first() as u64;
    let end = range.end() as u64;
    inserted_meaning(store.segments, start, end);
    let segments = after.segments;
    assert(forall|k: int|
        0 <= k < ticket.missing.len() ==> 0 <= (#[trigger] ticket.missing[k]).first()
            < ticket.missing[k].end() <= u64::MAX);
    gaps_of_all_meaning(segments, ticket.missing);
    let remaining = gaps_of_all(segments, ticket.missing);
    assert forall|offset: int| #[trigger] still_missing(after, ticket, offset) <==> in_ranges(
        remaining,
        offset,
    ) by {
        assert(after.bytes.dom().contains(offset) <==> covers(segments, offset));
    }
    if remaining.len() > 0 {
        assert(remaining[0].contains(remaining[0].first()));
        assert(in_ranges(remaining, remaining[0].first()));
        assert(still_missing(after, ticket, remaining[0].first()));
    } else {
        assert forall|offset: int| !#[trigger] still_missing(after, ticket, offset) by {
            assert(!in_ranges(remaining, offset));
        }
    }
    if bound is Some {
        crossing_is_a_missing_offset(remaining, bound->0);
        crossing_is_a_missing_offset(ticket.missing, bound->0);
        assert((exists|offset: int| #[trigger]
            in_ranges(remaining, offset) && offset >= bound->0) <==> (exists|offset: int| #[trigger]
            still_missing(after, ticket, offset) && offset >= bound->0)) by {
            if exists|offset: int| #[trigger] in_ranges(remaining, offset) && offset >= bound->0 {
                let offset = choose|offset: int| #[trigger]
                    in_ranges(remaining, offset) && offset >= bound->0;
                assert(still_missing(after, ticket, offset));
            }
        }
    }
    if covers_all(store.segments, range.first(), range.end()) {
        assert(after.tickets[i] == ticket_at_eof(ticket, bound));
        assert forall|offset: int| #[trigger] in_ranges(ticket.missing, offset) <==> in_ranges(
            remaining,
            offset,
        ) by {
            if in_ranges(ticket.missing, offset) {
                let k = choose|k: int|
                    0 <= k < ticket.missing.len() && (#[trigger] ticket.missing[k]).contains(offset);
                assert(!covers(store.segments, offset));
            }
        }
        let first = ticket.missing[0].first();
        assert(ticket.missing[0].contains(first));
        assert(in_ranges(ticket.missing, first));
        assert(still_missing(after, ticket, first));
        if bound is Some {
            assert(crosses_eof(ticket.missing, bound->0) <==> (exists|offset: int| #[trigger]
                still_missing(after, ticket, offset) && offset >= bound->0)) by {
                if crosses_eof(ticket.missing, bound->0) {
                    let offset = choose|offset: int| #[trigger]
                        in_ranges(ticket.missing, offset) && offset >= bound->0;
                    assert(still_missing(after, ticket, offset));
                }
            }
        }
        assert forall|offset: int| #[trigger] in_ranges(
            after.tickets[i].missing,
            offset,
        ) <==> still_missing(after, ticket, offset) by {}
    } else {
        assert(after.tickets[i] == supplied_ticket(ticket, segments, bound));
    }
}

/// An observed length ends the waiting of a ticket exactly where it makes known that the source ends
/// before a byte that the ticket waits for. Else the ticket stays as it is, and so do all bytes.
pub proof fn tickets_beyond_the_end_are_ready(
    store: StoreView,
    observed: SourceSnapshot,
    i: int,
)
    requires
        store_ok(store),
        observe_refusal(store, observed) is None,
        0 <= i < store.tickets.len(),
    ensures
        ({
            let after = after_observe(store, observed.len);
            let ticket = store.tickets[i];
            let ended = store.observed_len is None && (after.observed_len matches Some(len)
                && exists|offset: int| #[trigger]
                in_ranges(ticket.missing, offset) && offset >= len);
            &&& after.bytes == store.bytes
            &&& observed.len is Some ==> after.observed_len == observed.len
            &&& ticket.phase == TicketPhase::Pending && ended ==> after.tickets[i] == (TicketView {
                phase: TicketPhase::Ready,
                ..ticket
            })
            &&& !(ticket.phase == TicketPhase::Pending && ended) ==> after.tickets[i] == ticket
        }),
{
    let ticket = store.tickets[i];
    let bound = newly_bound(store, observed.len);
    assert(ticket_ok(ticket, store));
    if bound is Some {
        crossing_is_a_missing_offset(ticket.missing, bound->0);
    }
}

/// Every ticket that is ready now and was pending before is announced.
pub proof fn ready_tickets_are_announced(
    before: Seq<TicketView>,
    after: Seq<TicketView>,
    i: int,
)
    requires
        before.len() == after.len(),
        0 <= i < before.len(),
        before[i].phase == TicketPhase::Pending,
        after[i].phase == TicketPhase::Ready,
    ensures
        became_ready(before, after).contains(after[i].ticket),
    decreases before.len(),
{
    let front = became_ready(before.drop_last(), after.drop_last());
    let all = became_ready(before, after);
    if i == before.len() - 1 {
        assert(all[front.len() as int] == after[i].ticket);
    } else {
        ready_tickets_are_announced(before.drop_last(), after.drop_last(), i);
        let k = choose|k: int| 0 <= k < front.len() && front[k] == after[i].ticket;
        assert(all[k] == after[i].ticket);
    }
}

proof fn other_subscriptions_stay(subscribers: Seq<ResumeSubscription>, job: JobId, k: int)
    requires
        0 <= k < subscribers.len(),
        subscribers[k].job != job,
    ensures
        without_job(subscribers, job).contains(subscribers[k]),
    decreases subscribers.len(),
{
    let front = without_job(subscribers.drop_last(), job);
    let all = without_job(subscribers, job);
    if k == subscribers.len() - 1 {
        assert(all[front.len() as int] == subscribers[k]);
    } else {
        other_subscriptions_stay(subscribers.drop_last(), job, k);
        let j = choose|j: int| 0 <= j < front.len() && front[j] == subscribers[k];
        assert(all[j] == subscribers[k]);
    }
}

proof fn only_other_subscriptions_stay(subscribers: Seq<ResumeSubscription>, job: JobId)
    ensures
        forall|k: int|
            0 <= k < without_job(subscribers, job).len() ==> (#[trigger] without_job(
                subscribers,
                job,
            )[k]).job != job,
    decreases subscribers.len(),
{
    if subscribers.len() > 0 {
        only_other_subscriptions_stay(subscribers.drop_last(), job);
        let front = without_job(subscribers.drop_last(), job);
        let all = without_job(subscribers, job);
        assert forall|k: int| 0 <= k < all.len() implies (#[trigger] all[k]).job != job by {
            if k < front.len() {
                assert(all[k] == front[k]);
            }
        }
    }
}

/// A job that leaves a ticket takes its own subscriptions and no other. The ticket is abandoned
/// exactly where nobody else waits for it; what it waits for stays.
pub proof fn tickets_are_abandoned_by_their_last_job(ticket: TicketView, job: JobId)
    ensures
        forall|k: int|
            0 <= k < ticket.subscribers.len() ==> ((#[trigger] ticket.subscribers[k]).job != job
                ==> left_ticket(ticket, job).subscribers.contains(ticket.subscribers[k])),
        forall|k: int|
            0 <= k < left_ticket(ticket, job).subscribers.len() ==> (#[trigger] left_ticket(
                ticket,
                job,
            ).subscribers[k]).job != job,
        left_ticket(ticket, job).phase == (if exists|k: int|
            0 <= k < ticket.subscribers.len() && (#[trigger] ticket.subscribers[k]).job != job {
            ticket.phase
        } else {
            TicketPhase::Abandoned
        }),
        left_ticket(ticket, job).ticket == ticket.ticket,
        left_ticket(ticket, job).missing == ticket.missing,
{
    let all = ticket.subscribers;
    let rest = without_job(all, job);
    only_other_subscriptions_stay(all, job);
    assert forall|k: int| 0 <= k < all.len() && (#[trigger] all[k]).job != job implies rest.contains(
        all[k],
    ) by {
        other_subscriptions_stay(all, job, k);
    }
    if rest.len() > 0 {
        staying_subscriptions_were_there(all, job, 0);
    }
}

proof fn staying_subscriptions_were_there(
    subscribers: Seq<ResumeSubscription>,
    job: JobId,
    k: int,
)
    requires
        0 <= k < without_job(subscribers, job).len(),
    ensures
        exists|j: int|
            0 <= j < subscribers.len() && #[trigger] subscribers[j] == without_job(
                subscribers,
                job,
            )[k] && subscribers[j].job != job,
    decreases subscribers.len(),
{
    let front = without_job(subscribers.drop_last(), job);
    if k < front.len() {
        staying_subscriptions_were_there(subscribers.drop_last(), job, k);
        let j = choose|j: int|
            0 <= j < subscribers.drop_last().len() && #[trigger] subscribers.drop_last()[j] == front[k]
                && subscribers.drop_last()[j].job != job;
        assert(subscribers[j] == front[k]);
    } else {
        let n = subscribers.len() - 1;
        assert(subscribers[n] == without_job(subscribers, job)[k]);
    }
}

/// A store follows one source: an observation is accepted exactly where it is of the same identity
/// and validator, its length is the known one, or else within the budget and past every held byte,
/// and nothing contradicted the source before.
pub proof fn observations_are_of_one_source(store: StoreView, observed: SourceSnapshot)
    requires
        store_ok(store),
    ensures
        observe_refusal(store, observed) is None <==> {
            &&& !store.source_changed
            &&& observed.identity == store.snapshot.identity
            &&& observed.validator == store.snapshot.validator
            &&& match store.observed_len {
                Some(_) => observed.len == store.observed_len,
                None => observed.len matches Some(len) ==> len <= store.limits.max_input_bytes
                    && forall|offset: int| #[trigger]
                    store.bytes.dom().contains(offset) ==> offset < len,
            }
        },
{
    let segments = store.segments;
    if store.observed_len is None && observed.len is Some && segments.len() > 0 {
        let len = observed.len->0;
        let last = segments.len() - 1;
        if segments[last].end_exclusive > len {
            let offset = segments[last].end_exclusive - 1;
            assert(segments[last].start < segments[last].end_exclusive);
            assert(holds(segments, last, offset));
            assert(covers(segments, offset));
            assert(store.bytes.dom().contains(offset));
        } else {
            assert forall|offset: int| #[trigger] store.bytes.dom().contains(offset) implies offset
                < len by {
                assert(covers(segments, offset));
                let k = choose|k: int| #[trigger] holds(segments, k, offset);
                if k < last {
                    assert(segments[k].end_exclusive < segments[last].start);
                    assert(segments[last].start < segments[last].end_exclusive);
                }
            }
        }
    }
    if segments.len() == 0 {
        assert forall|offset: int| !#[trigger] store.bytes.dom().contains(offset) by {
            assert(!covers(segments, offset));
        }
    }
}

/// Whether a response agrees with a store: it is of the same source, whose length it does not
/// contradict, and of no byte that the store holds it says another.
pub open spec fn agrees(
    store: StoreView,
    observed: SourceSnapshot,
    range: ByteRange,
    bytes: Seq<u8>,
) -> bool {
    &&& observe_refusal(store, observed) is None
    &&& forall|offset: int|
        range.contains(offset) && #[trigger] store.bytes.dom().contains(offset)
            ==> store.bytes[offset] == bytes[offset - range.first()]
}

/// Only a response that agrees with the store and stays within the read and input budgets is
/// accepted. One that does so and brings no new byte is accepted always.
pub proof fn agreeing_responses_are_accepted(
    store: StoreView,
    observed: SourceSnapshot,
    range: ByteRange,
    bytes: Seq<u8>,
)
    requires
        store_ok(store),
        0 <= range.first() < range.end() <= u64::MAX,
        bytes.len() == range.end() - range.first(),
    ensures
        ({
            let within = range.end() - range.first() <= store.limits.max_read_bytes && range.end()
                <= store.limits.max_input_bytes;
            let known = forall|offset: int|
                range.contains(offset) ==> #[trigger] store.bytes.dom().contains(offset);
            &&& supply_refusal(store, observed, range, bytes) is None ==> within && agrees(
                store,
                observed,
                range,
                bytes,
            )
            &&& within && agrees(store, observed, range, bytes) && known ==> supply_refusal(
                store,
                observed,
                range,
                bytes,
            ) is None
        }),
{
    if forall|offset: int| range.contains(offset) ==> #[trigger] store.bytes.dom().contains(offset) {
        assert forall|offset: int| range.first() <= offset < range.end() implies #[trigger] covers(
            store.segments,
            offset,
        ) by {
            assert(store.bytes.dom().contains(offset));
        }
    }
}

/// A status tells the phase of its ticket, with the failure of one that failed and the number of
/// those who wait for one that is pending.
pub proof fn statuses_tell_their_phase(ticket: TicketView)
    requires
        ticket.subscribers.len() <= usize::MAX,
    ensures
        ({
            let status = status_of(ticket);
            &&& ticket.phase == TicketPhase::Pending <==> status is Pending
            &&& ticket.phase == TicketPhase::Ready <==> status is Ready
            &&& ticket.phase == TicketPhase::SourceChanged <==> status is SourceChanged
            &&& ticket.phase == TicketPhase::Abandoned <==> status is Abandoned
            &&& status matches TicketStatus::Failed(error) ==> ticket.phase == TicketPhase::Failed(
                error,
            )
            &&& status matches TicketStatus::Pending { subscriber_count } ==> subscriber_count
                == ticket.subscribers.len()
        }),
{
}

} // verus!
