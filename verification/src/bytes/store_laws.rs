//! What holds of every range store, whatever is done to it.

use vstd::prelude::*;
use vstd::set_lib::lemma_len_subset;

use crate::bytes::error::{
    source_constructors_expose_their_arguments, source_failure, source_resource, SourceError,
    SourceErrorCode, SourceLimitKind,
};
use crate::bytes::model::{in_ranges, ByteRange, DataTicket, JobId, ReadRequest, SourceSnapshot};
use crate::bytes::segments::{
    covered_offsets, covers, covers_all, gaps, gaps_meaning, gaps_of_all, gaps_of_all_meaning,
    inserted, inserted_meaning, join_block, segments_within, total_len, total_len_counts_offsets,
    total_len_is_bounded, Segment,
};
use crate::bytes::store_model::{
    accepted_offsets, after_history, after_observe, after_refusal, after_supply, became_ready,
    called, changed_ticket, conflicts, exceeds_its_ceiling, job_index, left_ticket, length_conflict,
    observe_refusal, placed, poisoned, poll_memory_failure, poll_outcome, prompt_refusal, store_ok,
    subscriber_total, supplied_offsets, supplied_ticket, supply_memory_failure, supply_refusal,
    terminal_kept, ticket_at_eof, ticket_index, ticket_ok, ticket_spent, too_fragmented,
    waiting_index, with_ticket, without_job, CallView, ReadView, ResponseView, StoreView,
    TicketPhase, TicketView,
};

verus! {

/// The total depends on the number of subscriptions of each ticket only.
pub proof fn subscriber_total_same(left: Seq<TicketView>, right: Seq<TicketView>)
    requires
        left.len() == right.len(),
        forall|i: int|
            0 <= i < left.len() ==> (#[trigger] left[i]).subscribers.len()
                == right[i].subscribers.len(),
    ensures
        subscriber_total(left) == subscriber_total(right),
    decreases left.len(),
{
    if left.len() > 0 {
        let l = left.drop_last();
        let r = right.drop_last();
        assert forall|i: int| 0 <= i < l.len() implies (#[trigger] l[i]).subscribers.len()
            == r[i].subscribers.len() by {
            assert(l[i] == left[i]);
        }
        subscriber_total_same(l, r);
        assert(left[left.len() - 1].subscribers.len() == right[right.len() - 1].subscribers.len());
    }
}

/// The total is at least each ticket's share.
pub proof fn subscriber_total_bounds(tickets: Seq<TicketView>, i: int)
    requires
        0 <= i < tickets.len(),
    ensures
        tickets[i].subscribers.len() <= subscriber_total(tickets),
    decreases tickets.len(),
{
    subscriber_total_nonnegative(tickets.drop_last());
    if i < tickets.len() - 1 {
        subscriber_total_bounds(tickets.drop_last(), i);
    }
}

pub proof fn subscriber_total_nonnegative(tickets: Seq<TicketView>)
    ensures
        subscriber_total(tickets) >= 0,
    decreases tickets.len(),
{
    if tickets.len() > 0 {
        subscriber_total_nonnegative(tickets.drop_last());
    }
}

/// Replacing one ticket changes the total by the difference of its subscriptions.
pub proof fn subscriber_total_update(tickets: Seq<TicketView>, i: int, ticket: TicketView)
    requires
        0 <= i < tickets.len(),
    ensures
        subscriber_total(tickets.update(i, ticket)) == subscriber_total(tickets)
            - tickets[i].subscribers.len() + ticket.subscribers.len(),
    decreases tickets.len(),
{
    let after = tickets.update(i, ticket);
    if i == tickets.len() - 1 {
        assert(after.drop_last() =~= tickets.drop_last());
    } else {
        assert(after.drop_last() =~= tickets.drop_last().update(i, ticket));
        subscriber_total_update(tickets.drop_last(), i, ticket);
    }
}

/// Removing one ticket takes its subscriptions out of the total.
pub proof fn subscriber_total_remove(tickets: Seq<TicketView>, i: int)
    requires
        0 <= i < tickets.len(),
    ensures
        subscriber_total(tickets.remove(i)) == subscriber_total(tickets)
            - tickets[i].subscribers.len(),
    decreases tickets.len(),
{
    let after = tickets.remove(i);
    if i == tickets.len() - 1 {
        assert(after =~= tickets.drop_last());
    } else {
        assert(after.drop_last() =~= tickets.drop_last().remove(i));
        assert(after.last() == tickets.last());
        subscriber_total_remove(tickets.drop_last(), i);
    }
}

proof fn subscriber_total_push(tickets: Seq<TicketView>, ticket: TicketView)
    ensures
        subscriber_total(tickets.push(ticket)) == subscriber_total(tickets)
            + ticket.subscribers.len(),
{
    assert(tickets.push(ticket).drop_last() =~= tickets);
}

/// Poisoning keeps the invariant, leaves no ticket pending, and does nothing the second time.
pub proof fn poisoning_is_final(store: StoreView)
    requires
        store_ok(store),
    ensures
        store_ok(poisoned(store)),
        poisoned(store).source_changed,
        forall|i: int|
            0 <= i < poisoned(store).tickets.len() ==> (#[trigger] poisoned(store).tickets[i]).phase
                != TicketPhase::Pending,
        poisoned(poisoned(store)) == poisoned(store),
        store.source_changed ==> poisoned(store) == store,
{
    let after = poisoned(store);
    subscriber_total_same(store.tickets, after.tickets);
    assert forall|i: int| 0 <= i < after.tickets.len() implies #[trigger] ticket_ok(
        after.tickets[i],
        after,
    ) && after.tickets[i].phase != TicketPhase::Pending by {
        assert(ticket_ok(store.tickets[i], store));
        assert(after.tickets[i] == changed_ticket(store.tickets[i]));
    }
    assert(poisoned(after).tickets =~= after.tickets);
    if store.source_changed {
        assert forall|i: int| 0 <= i < store.tickets.len() implies #[trigger] after.tickets[i]
            == store.tickets[i] by {
            assert(ticket_ok(store.tickets[i], store));
        }
        assert(after.tickets =~= store.tickets);
    }
}

/// A stale store refuses every observation, every response and every read, and stays as it is.
pub proof fn stale_store_refuses_everything(
    store: StoreView,
    observed: SourceSnapshot,
    range: ByteRange,
    bytes: Seq<u8>,
    request: ReadRequest,
)
    requires
        store_ok(store),
        store.source_changed,
    ensures
        observe_refusal(store, observed) == Some(source_failure(SourceErrorCode::SourceChanged)),
        supply_refusal(store, observed, range, bytes) == Some(
            source_failure(SourceErrorCode::SourceChanged),
        ),
        after_refusal(store, source_failure(SourceErrorCode::SourceChanged)) == store,
        poll_outcome(store, request) == (
            ReadView::Failed(source_failure(SourceErrorCode::SourceChanged)),
            store,
        ),
{
    poisoning_is_final(store);
}

/// A mismatched snapshot or a contradicting byte poisons the store: no ticket stays pending, and
/// every later read fails with `SourceChanged`.
pub proof fn mismatch_or_conflict_poisons(
    store: StoreView,
    observed: SourceSnapshot,
    range: ByteRange,
    bytes: Seq<u8>,
    request: ReadRequest,
)
    requires
        store_ok(store),
        !observed.same_source(store.snapshot) || length_conflict(store, observed.len) || (conflicts(
            store.bytes,
            range,
            bytes,
        ) && supply_refusal(store, observed, range, bytes) == Some(
            source_failure(SourceErrorCode::ConflictingBytes),
        )),
    ensures
        supply_refusal(store, observed, range, bytes) is Some,
        ({
            let after = after_refusal(store, supply_refusal(store, observed, range, bytes)->0);
            &&& after == poisoned(store)
            &&& forall|i: int|
                0 <= i < after.tickets.len() ==> (#[trigger] after.tickets[i]).phase
                    != TicketPhase::Pending
            &&& poll_outcome(after, request) == (
                ReadView::Failed(source_failure(SourceErrorCode::SourceChanged)),
                after,
            )
        }),
{
    poisoning_is_final(store);
    source_constructors_expose_their_arguments(
        SourceErrorCode::SourceChanged,
        SourceLimitKind::Allocation,
        0,
        0,
    );
    source_constructors_expose_their_arguments(
        SourceErrorCode::ConflictingBytes,
        SourceLimitKind::Allocation,
        0,
        0,
    );
}

/// A terminal state is never rewritten by metadata, by bytes or by a change of the source.
pub proof fn terminal_tickets_are_final(
    ticket: TicketView,
    segments: Seq<Segment>,
    bound: Option<u64>,
)
    requires
        ticket.phase != TicketPhase::Pending,
    ensures
        changed_ticket(ticket) == ticket,
        ticket_at_eof(ticket, bound) == ticket,
        supplied_ticket(ticket, segments, bound) == ticket,
{
}

/// An accepted observation keeps the invariant.
pub proof fn observing_keeps_the_invariant(store: StoreView, observed: SourceSnapshot)
    requires
        store_ok(store),
        observe_refusal(store, observed) is None,
    ensures
        store_ok(after_observe(store, observed.len)),
{
    let after = after_observe(store, observed.len);
    subscriber_total_same(store.tickets, after.tickets);
    assert forall|i: int| 0 <= i < after.tickets.len() implies #[trigger] ticket_ok(
        after.tickets[i],
        after,
    ) by {
        assert(ticket_ok(store.tickets[i], store));
    }
    if store.observed_len is None && observed.len is Some {
        let len = observed.len->0;
        assert forall|i: int| 0 <= i < store.segments.len() implies (
        #[trigger] store.segments[i]).end_exclusive <= len by {
            if i < store.segments.len() - 1 {
                assert(store.segments[i].end_exclusive < store.segments[store.segments.len()
                    - 1].start);
                assert(store.segments[store.segments.len() - 1].start
                    < store.segments[store.segments.len() - 1].end_exclusive);
            }
        }
    }
}

/// An accepted response keeps the invariant.
///
/// Where the total length is already known the response lies within it, as every
/// [`crate::RangeResponse`] does.
pub proof fn supplying_keeps_the_invariant(
    store: StoreView,
    observed: SourceSnapshot,
    range: ByteRange,
    bytes: Seq<u8>,
)
    requires
        store_ok(store),
        0 <= range.first() < range.end() <= u64::MAX,
        bytes.len() == range.end() - range.first(),
        observed.len matches Some(len) ==> range.end() <= len,
        supply_refusal(store, observed, range, bytes) is None,
    ensures
        store_ok(after_supply(store, observed, range, bytes)),
{
    let after = after_supply(store, observed, range, bytes);
    if covers_all(store.segments, range.first(), range.end()) {
        observing_keeps_the_invariant(store, observed);
    } else {
        let start = range.first() as u64;
        let end = range.end() as u64;
        let segments = inserted(store.segments, start, end);
        inserted_meaning(store.segments, start, end);
        assert(segments_within(store.segments, store.limits.max_input_bytes as int));
        assert(segments_within(segments, store.limits.max_input_bytes as int));
        if store.observed_len is Some {
            assert(segments_within(store.segments, store.observed_len->0 as int));
        } else if observed.len is Some {
            let len = observed.len->0;
            assert forall|i: int| 0 <= i < store.segments.len() implies (
            #[trigger] store.segments[i]).end_exclusive <= len by {
                if i < store.segments.len() - 1 {
                    assert(store.segments[i].end_exclusive < store.segments[store.segments.len()
                        - 1].start);
                    assert(store.segments[store.segments.len() - 1].start
                        < store.segments[store.segments.len() - 1].end_exclusive);
                }
            }
            assert(segments_within(store.segments, len as int));
        }
        assert forall|offset: int| #[trigger] after.bytes.dom().contains(offset) <==> covers(
            after.segments,
            offset,
        ) by {
            assert(store.bytes.dom().contains(offset) <==> covers(store.segments, offset));
            assert(placed(range, bytes).dom().contains(offset) <==> range.contains(offset));
        }
        subscriber_total_same(store.tickets, after.tickets);
        assert forall|i: int| 0 <= i < after.tickets.len() implies #[trigger] ticket_ok(
            after.tickets[i],
            after,
        ) by {
            let ticket = store.tickets[i];
            assert(ticket_ok(ticket, store));
            gaps_of_all_meaning(segments, ticket.missing);
            let remaining = gaps_of_all(segments, ticket.missing);
            assert(!too_fragmented(
                store.tickets[i],
                segments,
                store.limits.max_missing_ranges as int,
            ));
            assert forall|k: int, offset: int|
                0 <= k < remaining.len() && (#[trigger] remaining[k]).contains(offset) implies
                !#[trigger] covers(segments, offset) by {
                assert(in_ranges(remaining, offset));
            }
        }
    }
}

/// Bytes that are held stay as they are: a response only adds to them.
pub proof fn held_bytes_never_change(
    store: StoreView,
    observed: SourceSnapshot,
    range: ByteRange,
    bytes: Seq<u8>,
    offset: int,
)
    requires
        store_ok(store),
        supply_refusal(store, observed, range, bytes) is None,
        store.bytes.dom().contains(offset),
    ensures
        after_supply(store, observed, range, bytes).bytes.dom().contains(offset),
        after_supply(store, observed, range, bytes).bytes[offset] == store.bytes[offset],
{
}

/// What was supplied is what is read: any nonempty part of an accepted response reads back as the
/// bytes of that response.
pub proof fn supplied_bytes_are_read_back(
    store: StoreView,
    observed: SourceSnapshot,
    range: ByteRange,
    bytes: Seq<u8>,
    request: ReadRequest,
)
    requires
        store_ok(store),
        0 <= range.first() < range.end() <= u64::MAX,
        bytes.len() == range.end() - range.first(),
        observed.len matches Some(len) ==> range.end() <= len,
        supply_refusal(store, observed, range, bytes) is None,
        range.first() <= request.range.first() < request.range.end() <= range.end(),
    ensures
        poll_outcome(after_supply(store, observed, range, bytes), request) == (
            ReadView::Ready {
                identity: store.snapshot.identity,
                range: request.range,
                bytes: bytes.subrange(
                    request.range.first() - range.first(),
                    request.range.end() - range.first(),
                ),
            },
            after_supply(store, observed, range, bytes),
        ),
{
    let after = after_supply(store, observed, range, bytes);
    let wanted = request.range;
    supplying_keeps_the_invariant(store, observed, range, bytes);
    inserted_meaning(store.segments, range.first() as u64, range.end() as u64);
    assert forall|offset: int| wanted.first() <= offset < wanted.end() implies #[trigger] covers(
        after.segments,
        offset,
    ) by {}
    if after.observed_len is Some {
        assert(range.end() <= after.observed_len->0);
    }
    let expected = bytes.subrange(wanted.first() - range.first(), wanted.end() - range.first());
    let len = (wanted.end() - wanted.first()) as u64;
    let read = Seq::new(len as nat, |k: int| after.bytes[wanted.first() + k]);
    assert forall|k: int| 0 <= k < len implies #[trigger] read[k] == expected[k] by {
        let offset = wanted.first() + k;
        assert(covers(after.segments, offset));
        if covers_all(store.segments, range.first(), range.end()) {
            assert(covers(store.segments, offset));
            assert(store.bytes.dom().contains(offset));
            assert(range.contains(offset));
        } else {
            assert(placed(range, bytes).dom().contains(offset));
        }
    }
    assert(read =~= expected);
}

pub(crate) proof fn waiting_index_meaning(tickets: Seq<TicketView>, missing: Seq<ByteRange>, i: int)
    requires
        0 <= i <= tickets.len(),
    ensures
        i <= waiting_index(tickets, missing, i) <= tickets.len(),
        waiting_index(tickets, missing, i) < tickets.len() ==> {
            let ticket = tickets[waiting_index(tickets, missing, i)];
            ticket.phase == TicketPhase::Pending && ticket.missing == missing
        },
    decreases tickets.len() - i,
{
    if i < tickets.len() && !(tickets[i].phase == TicketPhase::Pending && tickets[i].missing
        == missing) {
        waiting_index_meaning(tickets, missing, i + 1);
    }
}

proof fn job_index_meaning(ticket: TicketView, job: JobId, i: int)
    requires
        0 <= i <= ticket.subscribers.len(),
        forall|k: int| 0 <= k < i ==> (#[trigger] ticket.subscribers[k]).job != job,
    ensures
        i <= job_index(ticket.subscribers, job, i) <= ticket.subscribers.len(),
        job_index(ticket.subscribers, job, i) == ticket.subscribers.len() ==> forall|k: int|
            0 <= k < ticket.subscribers.len() ==> (#[trigger] ticket.subscribers[k]).job != job,
    decreases ticket.subscribers.len() - i,
{
    if i < ticket.subscribers.len() && ticket.subscribers[i].job != job {
        job_index_meaning(ticket, job, i + 1);
    }
}

/// A read keeps the invariant, also where it had to give up after a ticket was counted.
pub proof fn polling_keeps_the_invariant(store: StoreView, request: ReadRequest)
    requires
        store_ok(store),
        0 <= request.range.first() < request.range.end() <= u64::MAX,
    ensures
        store_ok(poll_outcome(store, request).1),
        store.next_ticket < u64::MAX ==> store_ok(ticket_spent(store)),
{
    let missing = gaps(store.segments, request.range);
    let i = waiting_index(store.tickets, missing, 0);
    let after = poll_outcome(store, request).1;
    waiting_index_meaning(store.tickets, missing, 0);
    gaps_meaning(store.segments, request.range);
    if store.next_ticket < u64::MAX {
        let spent = ticket_spent(store);
        assert forall|k: int| 0 <= k < spent.tickets.len() implies #[trigger] ticket_ok(
            spent.tickets[k],
            spent,
        ) by {
            assert(ticket_ok(store.tickets[k], store));
        }
    }
    if after.tickets.len() == store.tickets.len() && i < store.tickets.len() && after != store {
        let record = store.tickets[i];
        let next = after.tickets[i];
        assert(ticket_ok(record, store));
        job_index_meaning(record, request.job, 0);
        subscriber_total_update(store.tickets, i, next);
        assert forall|k: int| 0 <= k < after.tickets.len() implies #[trigger] ticket_ok(
            after.tickets[k],
            after,
        ) by {
            assert(ticket_ok(store.tickets[k], store));
            if k == i {
                assert forall|a: int, b: int|
                    #![trigger next.subscribers[a], next.subscribers[b]]
                    0 <= a < b < next.subscribers.len() implies next.subscribers[a].job
                    != next.subscribers[b].job by {
                    assert(next.subscribers[a] == record.subscribers[a]);
                    if b < record.subscribers.len() {
                        assert(next.subscribers[b] == record.subscribers[b]);
                    }
                }
            }
        }
    } else if after.tickets.len() > store.tickets.len() {
        let record = after.tickets.last();
        subscriber_total_push(store.tickets, record);
        assert(after.tickets == store.tickets.push(record));
        assert forall|k: int| 0 <= k < after.tickets.len() implies #[trigger] ticket_ok(
            after.tickets[k],
            after,
        ) by {
            if k < store.tickets.len() {
                assert(after.tickets[k] == store.tickets[k]);
                assert(ticket_ok(store.tickets[k], store));
            } else {
                assert(record.missing == missing);
                assert forall|m: int, offset: int|
                    0 <= m < missing.len() && (#[trigger] missing[m]).contains(offset) implies
                    !#[trigger] covers(store.segments, offset) by {
                    assert(in_ranges(missing, offset));
                }
                assert(missing.len() > 0);
            }
        }
        assert forall|a: int, b: int|
            #![trigger after.tickets[a], after.tickets[b]]
            0 <= a < b < after.tickets.len() implies after.tickets[a].ticket
            != after.tickets[b].ticket by {
            assert(after.tickets[a] == store.tickets[a]);
            assert(ticket_ok(store.tickets[a], store));
            if b < store.tickets.len() {
                assert(after.tickets[b] == store.tickets[b]);
            }
        }
    }
}

/// Leaving a ticket keeps the rest in order and takes out every subscription of the job.
pub proof fn without_job_meaning(ticket: TicketView, job: JobId)
    requires
        forall|i: int, j: int|
            #![trigger ticket.subscribers[i], ticket.subscribers[j]]
            0 <= i < j < ticket.subscribers.len() ==> ticket.subscribers[i].job
                != ticket.subscribers[j].job,
    ensures
        left_ticket(ticket, job).subscribers.len() <= ticket.subscribers.len(),
        forall|i: int|
            0 <= i < left_ticket(ticket, job).subscribers.len() ==> {
                &&& (#[trigger] left_ticket(ticket, job).subscribers[i]).job != job
                &&& ticket.subscribers.contains(left_ticket(ticket, job).subscribers[i])
            },
        forall|i: int, j: int|
            #![trigger left_ticket(ticket, job).subscribers[i], left_ticket(ticket, job).subscribers[j]]
            0 <= i < j < left_ticket(ticket, job).subscribers.len() ==> left_ticket(
                ticket,
                job,
            ).subscribers[i].job != left_ticket(ticket, job).subscribers[j].job,
    decreases ticket.subscribers.len(),
{
    let all = ticket.subscribers;
    if all.len() > 0 {
        let front = TicketView { subscribers: all.drop_last(), ..ticket };
        assert forall|i: int, j: int|
            #![trigger front.subscribers[i], front.subscribers[j]]
            0 <= i < j < front.subscribers.len() implies front.subscribers[i].job
            != front.subscribers[j].job by {
            assert(all[i] == front.subscribers[i] && all[j] == front.subscribers[j]);
        }
        without_job_meaning(front, job);
        let kept = without_job(front.subscribers, job);
        let now = without_job(all, job);
        assert(left_ticket(front, job).subscribers == kept);
        assert forall|i: int| 0 <= i < kept.len() implies exists|k: int|
            0 <= k < all.len() - 1 && all[k] == #[trigger] kept[i] by {
            assert(front.subscribers.contains(kept[i]));
            let k = choose|k: int| 0 <= k < front.subscribers.len() && front.subscribers[k] == kept[i];
            assert(all[k] == kept[i]);
        }
        assert forall|i: int| 0 <= i < now.len() implies (#[trigger] now[i]).job != job
            && all.contains(now[i]) by {
            if i < kept.len() {
                assert(now[i] == kept[i]);
                assert(left_ticket(front, job).subscribers[i].job != job);
                let k = choose|k: int| 0 <= k < all.len() - 1 && all[k] == kept[i];
                assert(all[k] == now[i]);
            } else {
                assert(all[all.len() - 1] == now[i]);
            }
        }
        assert forall|i: int, j: int|
            #![trigger now[i], now[j]]
            0 <= i < j < now.len() implies now[i].job != now[j].job by {
            if j < kept.len() {
                assert(now[i] == kept[i] && now[j] == kept[j]);
                assert(left_ticket(front, job).subscribers[i].job != left_ticket(
                    front,
                    job,
                ).subscribers[j].job);
            } else {
                assert(now[i] == kept[i]);
                let k = choose|k: int| 0 <= k < all.len() - 1 && all[k] == kept[i];
                assert(all[k].job != all[all.len() - 1].job);
            }
        }
    }
}

/// Where a ticket stands, when it is retained.
pub proof fn ticket_index_meaning(tickets: Seq<TicketView>, ticket: DataTicket, i: int)
    requires
        0 <= i <= tickets.len(),
    ensures
        i <= ticket_index(tickets, ticket, i) <= tickets.len(),
        ticket_index(tickets, ticket, i) < tickets.len() ==> tickets[ticket_index(
            tickets,
            ticket,
            i,
        )].ticket == ticket,
        forall|k: int|
            i <= k < ticket_index(tickets, ticket, i) ==> (#[trigger] tickets[k]).ticket != ticket,
    decreases tickets.len() - i,
{
    if i < tickets.len() && tickets[i].ticket != ticket {
        ticket_index_meaning(tickets, ticket, i + 1);
    }
}

/// Replacing a ticket by a consistent one keeps the invariant and the place of every ticket.
pub proof fn replacing_keeps_the_invariant(store: StoreView, i: int, ticket: TicketView)
    requires
        store_ok(store),
        0 <= i < store.tickets.len(),
        ticket.ticket == store.tickets[i].ticket,
        ticket.subscribers.len() <= store.tickets[i].subscribers.len(),
        ticket_ok(ticket, store),
    ensures
        store_ok(with_ticket(store, i, ticket)),
{
    let after = with_ticket(store, i, ticket);
    subscriber_total_update(store.tickets, i, ticket);
    assert forall|k: int| 0 <= k < after.tickets.len() implies #[trigger] ticket_ok(
        after.tickets[k],
        after,
    ) by {
        assert(ticket_ok(store.tickets[k], store));
    }
    assert forall|a: int, b: int|
        #![trigger after.tickets[a], after.tickets[b]]
        0 <= a < b < after.tickets.len() implies after.tickets[a].ticket
        != after.tickets[b].ticket by {
        assert(store.tickets[a].ticket != store.tickets[b].ticket);
    }
}

/// Releasing a ticket keeps the invariant.
pub proof fn releasing_keeps_the_invariant(store: StoreView, i: int)
    requires
        store_ok(store),
        0 <= i < store.tickets.len(),
    ensures
        store_ok(StoreView { tickets: store.tickets.remove(i), ..store }),
{
    let after = StoreView { tickets: store.tickets.remove(i), ..store };
    subscriber_total_remove(store.tickets, i);
    assert forall|k: int| 0 <= k < after.tickets.len() implies #[trigger] ticket_ok(
        after.tickets[k],
        after,
    ) by {
        let from = if k < i {
            k
        } else {
            k + 1
        };
        assert(after.tickets[k] == store.tickets[from]);
        assert(ticket_ok(store.tickets[from], store));
    }
    assert forall|a: int, b: int|
        #![trigger after.tickets[a], after.tickets[b]]
        0 <= a < b < after.tickets.len() implies after.tickets[a].ticket
        != after.tickets[b].ticket by {
        let x = if a < i {
            a
        } else {
            a + 1
        };
        let y = if b < i {
            b
        } else {
            b + 1
        };
        assert(after.tickets[a] == store.tickets[x] && after.tickets[b] == store.tickets[y]);
    }
}

/// Only tickets that were pending become ready.
pub proof fn ready_tickets_were_pending(
    before: Seq<TicketView>,
    after: Seq<TicketView>,
    ticket: DataTicket,
)
    requires
        before.len() == after.len(),
        became_ready(before, after).contains(ticket),
    ensures
        exists|i: int|
            0 <= i < before.len() && #[trigger] before[i].phase == TicketPhase::Pending
                && after[i].phase == TicketPhase::Ready && after[i].ticket == ticket,
    decreases before.len(),
{
    let all = became_ready(before, after);
    let n = before.len() - 1;
    if before.len() > 0 {
        let front = became_ready(before.drop_last(), after.drop_last());
        let k = choose|k: int| 0 <= k < all.len() && all[k] == ticket;
        if k < front.len() {
            assert(front[k] == ticket);
            ready_tickets_were_pending(before.drop_last(), after.drop_last(), ticket);
            let i = choose|i: int|
                0 <= i < before.drop_last().len() && #[trigger] before.drop_last()[i].phase
                    == TicketPhase::Pending && after.drop_last()[i].phase == TicketPhase::Ready
                    && after.drop_last()[i].ticket == ticket;
            assert(before[i].phase == TicketPhase::Pending);
        } else {
            assert(before[n].phase == TicketPhase::Pending);
        }
    }
}

/// Nothing but its release ends a terminal ticket: whatever else is done to the store, it is still
/// retained in the same state.
pub proof fn terminal_tickets_keep_their_state(
    store: StoreView,
    observed: SourceSnapshot,
    range: ByteRange,
    bytes: Seq<u8>,
    request: ReadRequest,
    error: SourceError,
    i: int,
    ticket: TicketView,
)
    requires
        store_ok(store),
        0 <= i < store.tickets.len(),
        ticket.ticket == store.tickets[i].ticket,
        store.tickets[i].phase != TicketPhase::Pending ==> ticket.phase == store.tickets[i].phase,
    ensures
        terminal_kept(store, poisoned(store)),
        terminal_kept(store, after_refusal(store, error)),
        terminal_kept(store, after_observe(store, observed.len)),
        terminal_kept(store, after_supply(store, observed, range, bytes)),
        terminal_kept(store, poll_outcome(store, request).1),
        terminal_kept(store, ticket_spent(store)),
        terminal_kept(store, with_ticket(store, i, ticket)),
{
    waiting_index_meaning(store.tickets, gaps(store.segments, request.range), 0);
}

/// A failure that names a budget reports the ceiling of that budget, and a total beyond it.
pub proof fn budget_failures_exceed_their_ceiling(
    store: StoreView,
    resident: u64,
    capacity: u64,
    observed: SourceSnapshot,
    range: ByteRange,
    bytes: Seq<u8>,
    request: ReadRequest,
    error: SourceError,
)
    requires
        store_ok(store),
        0 <= range.first() < range.end() <= u64::MAX,
        0 <= request.range.first() < request.range.end() <= u64::MAX,
    ensures
        prompt_refusal(store, resident, capacity, observed, range, bytes) == Some(error)
            ==> exceeds_its_ceiling(store.limits, error),
        supply_refusal(store, observed, range, bytes) == Some(error) ==> exceeds_its_ceiling(
            store.limits,
            error,
        ),
        supply_memory_failure(store, resident, capacity, observed, range, error) ==> exceeds_its_ceiling(
            store.limits,
            error,
        ),
        observe_refusal(store, observed) == Some(error) ==> exceeds_its_ceiling(
            store.limits,
            error,
        ),
        poll_outcome(store, request).0 == ReadView::Failed(error) ==> exceeds_its_ceiling(
            store.limits,
            error,
        ),
        forall|after: StoreView| #[trigger]
            poll_memory_failure(store, request, ReadView::Failed(error), after)
                ==> exceeds_its_ceiling(store.limits, error),
{
    assert forall|code: SourceErrorCode| (#[trigger] source_failure(code)).spec_limit() is None by {
        source_constructors_expose_their_arguments(code, SourceLimitKind::Allocation, 0, 0);
    }
    assert forall|kind: SourceLimitKind, limit: u64, attempted: u64|
        (#[trigger] source_resource(kind, limit, attempted)).spec_limit() matches Some(context)
            && context.spec_kind() == kind && context.spec_limit() == limit
            && context.spec_attempted() == attempted by {
        source_constructors_expose_their_arguments(
            SourceErrorCode::SourceChanged,
            kind,
            limit,
            attempted,
        );
    }
    inserted_meaning(store.segments, range.first() as u64, range.end() as u64);
    let after = inserted(store.segments, range.first() as u64, range.end() as u64);
    if range.end() <= store.limits.max_input_bytes {
        assert(segments_within(store.segments, store.limits.max_input_bytes as int));
        total_len_is_bounded(after, store.limits.max_input_bytes as int);
    }
    let (lo, hi) = join_block(store.segments, range.first() as u64, range.end() as u64);
    assert(after.len() == lo + 1 + (store.segments.len() - hi));
    let i = waiting_index(store.tickets, gaps(store.segments, request.range), 0);
    waiting_index_meaning(store.tickets, gaps(store.segments, request.range), 0);
    if i < store.tickets.len() {
        assert(ticket_ok(store.tickets[i], store));
    }
    subscriber_total_nonnegative(store.tickets);
}

/// The total counts each offset once that the store held at first or that an accepted response of
/// the history brought, however often it came.
pub proof fn cached_total_counts_distinct_offsets(store: StoreView, history: Seq<ResponseView>)
    requires
        store_ok(store),
        forall|i: int| 0 <= i < history.len() ==> (#[trigger] history[i]).well_formed(),
    ensures
        store_ok(after_history(store, history)),
        supplied_offsets(store, history).finite(),
        total_len(after_history(store, history).segments) == supplied_offsets(store, history).len(),
        supplied_offsets(store, history) == covered_offsets(after_history(store, history).segments),
    decreases history.len(),
{
    if history.len() > 0 {
        let front = history.drop_last();
        let last = history.last();
        assert(forall|i: int| 0 <= i < front.len() ==> front[i] == history[i]);
        cached_total_counts_distinct_offsets(store, front);
        assert(history[history.len() - 1].well_formed());
        let before = after_history(store, front);
        let after = after_history(store, history);
        match supply_refusal(before, last.snapshot, last.range, last.bytes) {
            Some(error) => {
                poisoning_is_final(before);
            },
            None => {
                supplying_keeps_the_invariant(before, last.snapshot, last.range, last.bytes);
                inserted_meaning(
                    before.segments,
                    last.range.first() as u64,
                    last.range.end() as u64,
                );
                assert forall|offset: int| covered_offsets(after.segments).contains(offset)
                    <==> supplied_offsets(store, history).contains(offset) by {
                    assert(covers(
                        inserted(
                            before.segments,
                            last.range.first() as u64,
                            last.range.end() as u64,
                        ),
                        offset,
                    ) <==> covers(before.segments, offset) || last.range.contains(offset));
                    assert(covered_offsets(before.segments).contains(offset) <==> covers(
                        before.segments,
                        offset,
                    ));
                }
                assert(supplied_offsets(store, history) =~= covered_offsets(after.segments));
            },
        }
    }
    total_len_counts_offsets(after_history(store, history).segments);
}

/// Whatever is called on a store that starts empty, in whatever order: the total counts the distinct
/// offsets of the responses that were accepted so far, stays within its budget, and never falls.
pub proof fn cached_total_over_any_calls(
    states: Seq<StoreView>,
    calls: Seq<CallView>,
    low: int,
    high: int,
)
    requires
        states.len() == calls.len() + 1,
        store_ok(states[0]),
        states[0].segments.len() == 0,
        forall|i: int|
            0 <= i < calls.len() ==> called(states[i], #[trigger] calls[i], states[i + 1]),
        0 <= low <= high < states.len(),
    ensures
        states[high].limits == states[0].limits,
        covered_offsets(states[high].segments) == accepted_offsets(calls, high),
        accepted_offsets(calls, high).finite(),
        total_len(states[high].segments) == accepted_offsets(calls, high).len(),
        total_len(states[high].segments) <= states[0].limits.max_cached_bytes,
        total_len(states[low].segments) <= total_len(states[high].segments),
    decreases high,
{
    if high == 0 {
        assert(covered_offsets(states[0].segments) =~= Set::empty());
    } else {
        let before = states[high - 1];
        let after = states[high];
        assert(called(before, calls[high - 1], after));
        cached_total_over_any_calls(
            states,
            calls,
            if low < high {
                low
            } else {
                high - 1
            },
            high - 1,
        );
        let count = accepted_offsets(calls, high);
        if let CallView::Accepted(response) = calls[high - 1] {
            let range = response.range;
            let grown = inserted(before.segments, range.first() as u64, range.end() as u64);
            inserted_meaning(before.segments, range.first() as u64, range.end() as u64);
            assert forall|offset: int| covered_offsets(after.segments).contains(offset)
                <==> count.contains(offset) by {
                assert(covers(grown, offset) <==> covers(before.segments, offset)
                    || range.contains(offset));
                assert(covered_offsets(before.segments).contains(offset) <==> covers(
                    before.segments,
                    offset,
                ));
            }
            assert(covered_offsets(after.segments) =~= count);
        }
    }
    total_len_counts_offsets(states[high].segments);
    if low < high {
        let held = accepted_offsets(calls, high);
        let kept = accepted_offsets(calls, high - 1);
        assert(kept.subset_of(held));
        lemma_len_subset(kept, held);
    }
}

} // verus!
