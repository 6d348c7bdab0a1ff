use pdf_content::{
    ByteRange, ByteSource, DataTicket, JobId, RangeResponse, RangeStore, RangeStoreLimitConfig,
    RangeStoreLimits, ReadPoll, ReadRequest, ResumeCheckpoint, SourceError, SourceErrorCategory,
    SourceErrorCode, SourceIdentity, SourceLimitKind, SourceRecoverability, SourceSnapshot,
    SourceValidator, TicketStatus,
};

fn snapshot(len: Option<u64>, validator: u128) -> SourceSnapshot {
    SourceSnapshot::new(SourceIdentity { value: 7 }, len, SourceValidator { value: validator })
}

fn store(len: Option<u64>) -> RangeStore {
    RangeStore::new(snapshot(len, 1), RangeStoreLimits::default()).unwrap()
}

fn small_store(config: RangeStoreLimitConfig) -> RangeStore {
    RangeStore::new(snapshot(Some(64), 1), RangeStoreLimits::validate(config).unwrap()).unwrap()
}

fn tiny() -> RangeStoreLimitConfig {
    RangeStoreLimitConfig {
        max_input_bytes: 64,
        max_read_bytes: 16,
        max_cached_bytes: 32,
        max_resident_bytes: 1024,
        max_segments: 4,
        max_tickets: 2,
        max_subscribers_per_ticket: 2,
        max_total_subscriptions: 3,
        max_missing_ranges: 4,
    }
}

fn range(start: u64, len: u64) -> ByteRange {
    ByteRange::new(start, len).unwrap()
}

fn request(start: u64, len: u64, job: u64, checkpoint: u64) -> ReadRequest {
    ReadRequest {
        range: range(start, len),
        job: JobId(job),
        checkpoint: ResumeCheckpoint(checkpoint),
    }
}

fn response(len: Option<u64>, start: u64, bytes: &[u8]) -> RangeResponse {
    RangeResponse::new(snapshot(len, 1), range(start, bytes.len() as u64), bytes.to_vec()).unwrap()
}

fn pending(store: &mut RangeStore, request: ReadRequest) -> (DataTicket, Vec<(u64, u64)>) {
    match store.poll(request) {
        ReadPoll::Pending { ticket, missing } => (
            ticket,
            missing.as_slice().iter().map(|range| (range.start(), range.len())).collect(),
        ),
        _ => panic!("expected a pending read"),
    }
}

fn code_of<T>(result: Result<T, SourceError>) -> SourceErrorCode {
    match result {
        Ok(_) => panic!("expected an error"),
        Err(error) => error.code(),
    }
}

#[test]
fn ranges_reject_zero_lengths_and_overflow() {
    assert_eq!(code_of(ByteRange::new(3, 0)), SourceErrorCode::InvalidRange);
    assert_eq!(code_of(ByteRange::new(u64::MAX, 1)), SourceErrorCode::InvalidRange);
    let last = ByteRange::new(u64::MAX - 1, 1).unwrap();
    assert_eq!(last.end_exclusive(), u64::MAX);
}

#[test]
fn responses_must_have_the_length_of_their_range() {
    let error = match RangeResponse::new(snapshot(None, 1), range(0, 3), vec![1, 2]) {
        Ok(_) => panic!("expected an error"),
        Err(error) => error,
    };
    assert_eq!(error.code(), SourceErrorCode::ResponseLengthMismatch);
}

#[test]
fn supplied_bytes_are_read_back() {
    let mut store = store(Some(32));
    let (ticket, missing) = pending(&mut store, request(4, 6, 1, 1));
    assert_eq!(missing, vec![(4, 6)]);
    let outcome = store.supply(response(Some(32), 0, b"abcdefghijkl")).unwrap();
    assert_eq!(outcome.cached_bytes(), 12);
    assert_eq!(outcome.ready_tickets(), [ticket]);
    match store.poll(request(4, 6, 1, 1)) {
        ReadPoll::Ready(slice) => {
            assert_eq!(slice.bytes(), b"efghij");
            assert_eq!(slice.range().start(), 4);
            assert_eq!(slice.identity(), SourceIdentity { value: 7 });
        }
        _ => panic!("expected bytes"),
    }
    assert!(matches!(store.ticket_status(ticket), Ok(TicketStatus::Ready)));
}

#[test]
fn only_absent_ranges_are_reported_missing() {
    let mut store = store(Some(64));
    store.supply(response(Some(64), 4, b"abcd")).unwrap();
    store.supply(response(Some(64), 12, b"efgh")).unwrap();
    let (_, missing) = pending(&mut store, request(2, 20, 1, 1));
    assert_eq!(missing, vec![(2, 2), (8, 4), (16, 6)]);
}

#[test]
fn adjacent_and_overlapping_bytes_coalesce() {
    let mut store = store(Some(64));
    store.supply(response(Some(64), 0, b"abcd")).unwrap();
    store.supply(response(Some(64), 4, b"efgh")).unwrap();
    store.supply(response(Some(64), 2, b"cdef")).unwrap();
    assert_eq!(store.cached_bytes().unwrap(), 8);
    match store.poll(request(0, 8, 1, 1)) {
        ReadPoll::Ready(slice) => assert_eq!(slice.bytes(), b"abcdefgh"),
        _ => panic!("expected bytes"),
    }
}

#[test]
fn conflicting_bytes_poison_the_store() {
    let mut store = store(Some(64));
    store.supply(response(Some(64), 0, b"abcd")).unwrap();
    let (ticket, _) = pending(&mut store, request(8, 4, 1, 1));
    assert_eq!(
        code_of(store.supply(response(Some(64), 2, b"xx"))),
        SourceErrorCode::ConflictingBytes
    );
    assert!(matches!(store.ticket_status(ticket), Ok(TicketStatus::SourceChanged)));
    assert!(matches!(store.poll(request(0, 4, 1, 1)), ReadPoll::Failed(_)));
}

#[test]
fn a_changed_validator_poisons_the_store() {
    let mut store = store(Some(64));
    let changed =
        RangeResponse::new(snapshot(Some(64), 2), range(0, 2), b"ab".to_vec()).unwrap();
    assert_eq!(code_of(store.supply(changed)), SourceErrorCode::SourceChanged);
    match store.poll(request(0, 2, 1, 1)) {
        ReadPoll::Failed(error) => {
            assert_eq!(error.code(), SourceErrorCode::SourceChanged);
            assert_eq!(error.category(), SourceErrorCategory::Integrity);
            assert_eq!(error.recoverability(), SourceRecoverability::ReopenSource);
        }
        _ => panic!("expected a failure"),
    }
}

#[test]
fn a_signalled_change_fails_pending_tickets() {
    let mut store = store(Some(64));
    let (ticket, _) = pending(&mut store, request(0, 4, 1, 1));
    store.signal_source_changed().unwrap();
    assert!(matches!(store.ticket_status(ticket), Ok(TicketStatus::SourceChanged)));
    assert!(matches!(store.poll(request(0, 4, 1, 1)), ReadPoll::Failed(_)));
}

#[test]
fn reads_beyond_the_known_length_end_the_file() {
    let mut store = store(Some(16));
    assert!(matches!(store.poll(request(12, 8, 1, 1)), ReadPoll::EndOfFile));
    assert_eq!(
        code_of(RangeResponse::new(snapshot(Some(16), 1), range(14, 4), b"abcd".to_vec())),
        SourceErrorCode::ResponseOutOfBounds
    );
}

#[test]
fn an_observed_length_completes_reads_beyond_it() {
    let mut store = store(None);
    let (ticket, _) = pending(&mut store, request(12, 8, 1, 1));
    let outcome = store.observe_snapshot(snapshot(Some(16), 1)).unwrap();
    assert_eq!(outcome.ready_tickets(), [ticket]);
    assert!(matches!(store.poll(request(12, 8, 1, 1)), ReadPoll::EndOfFile));
    assert_eq!(store.snapshot(), snapshot(None, 1));
}

#[test]
fn one_ticket_serves_every_job_that_waits_for_the_same_ranges() {
    let mut store = store(Some(64));
    let (first, _) = pending(&mut store, request(0, 4, 1, 10));
    let (second, _) = pending(&mut store, request(0, 4, 2, 20));
    assert_eq!(first, second);
    assert!(matches!(
        store.ticket_status(first),
        Ok(TicketStatus::Pending { subscriber_count: 2 })
    ));
    store.unsubscribe(first, JobId(2)).unwrap();
    store.supply(response(Some(64), 0, b"abcd")).unwrap();
    let woken = store.take_subscriptions(first).unwrap();
    assert_eq!(woken.len(), 1);
    assert_eq!(woken[0].job, JobId(1));
    assert_eq!(woken[0].checkpoint, ResumeCheckpoint(10));
    store.release_ticket(first).unwrap();
    assert_eq!(code_of(store.ticket_status(first)), SourceErrorCode::UnknownTicket);
}

#[test]
fn one_job_keeps_one_checkpoint_per_ticket() {
    let mut store = store(Some(64));
    pending(&mut store, request(0, 4, 1, 10));
    match store.poll(request(0, 4, 1, 11)) {
        ReadPoll::Failed(error) => assert_eq!(error.code(), SourceErrorCode::CheckpointConflict),
        _ => panic!("expected a failure"),
    }
}

#[test]
fn a_ticket_without_subscribers_is_abandoned() {
    let mut store = store(Some(64));
    let (ticket, _) = pending(&mut store, request(0, 4, 1, 1));
    store.unsubscribe(ticket, JobId(1)).unwrap();
    assert!(matches!(store.ticket_status(ticket), Ok(TicketStatus::Abandoned)));
    store.release_ticket(ticket).unwrap();
}

#[test]
fn terminal_tickets_do_not_move_again() {
    let mut store = store(Some(64));
    let (ticket, _) = pending(&mut store, request(0, 4, 1, 1));
    assert_eq!(code_of(store.release_ticket(ticket)), SourceErrorCode::TicketNotTerminal);
    store.fail_ticket(ticket, SourceError::source_unavailable()).unwrap();
    assert!(matches!(store.ticket_status(ticket), Ok(TicketStatus::Failed(_))));
    assert_eq!(
        code_of(store.fail_ticket(ticket, SourceError::source_unavailable())),
        SourceErrorCode::TicketAlreadyTerminal
    );
    assert_eq!(code_of(store.release_ticket(ticket)), SourceErrorCode::SubscriptionsNotTaken);
    store.take_subscriptions(ticket).unwrap();
    store.release_ticket(ticket).unwrap();
}

#[test]
fn unknown_tickets_are_refused() {
    let mut store = store(Some(64));
    assert_eq!(
        code_of(store.unsubscribe(DataTicket(99), JobId(1))),
        SourceErrorCode::UnknownTicket
    );
}

#[test]
fn budgets_are_reported_with_their_dimension() {
    let mut store =
        small_store(RangeStoreLimitConfig { max_total_subscriptions: 8, ..tiny() });
    match store.poll(request(0, 17, 1, 1)) {
        ReadPoll::Failed(error) => {
            let limit = error.limit().unwrap();
            assert_eq!(limit.kind(), SourceLimitKind::ReadBytes);
            assert_eq!(limit.limit(), 16);
            assert_eq!(limit.attempted(), 17);
        }
        _ => panic!("expected a failure"),
    }
    pending(&mut store, request(0, 4, 1, 1));
    pending(&mut store, request(8, 4, 1, 1));
    match store.poll(request(16, 4, 1, 1)) {
        ReadPoll::Failed(error) => {
            assert_eq!(error.limit().unwrap().kind(), SourceLimitKind::Tickets)
        }
        _ => panic!("expected a failure"),
    }
    pending(&mut store, request(0, 4, 2, 1));
    match store.poll(request(0, 4, 3, 1)) {
        ReadPoll::Failed(error) => {
            assert_eq!(error.limit().unwrap().kind(), SourceLimitKind::TicketSubscribers)
        }
        _ => panic!("expected a failure"),
    }
}

#[test]
fn cached_bytes_stay_within_their_budget() {
    let mut store = small_store(tiny());
    store.supply(response(Some(64), 0, &[1; 16])).unwrap();
    store.supply(response(Some(64), 16, &[2; 16])).unwrap();
    let error = match store.supply(response(Some(64), 32, &[3; 1])) {
        Ok(_) => panic!("expected an error"),
        Err(error) => error,
    };
    assert_eq!(error.limit().unwrap().kind(), SourceLimitKind::CachedBytes);
    assert_eq!(store.cached_bytes().unwrap(), 32);
}

#[test]
fn sources_longer_than_the_input_budget_are_refused() {
    let limits = RangeStoreLimits::validate(tiny()).unwrap();
    let error = match RangeStore::new(snapshot(Some(65), 1), limits) {
        Ok(_) => panic!("expected an error"),
        Err(error) => error,
    };
    assert_eq!(error.limit().unwrap().kind(), SourceLimitKind::InputBytes);
}

#[test]
fn diagnostics_are_stable_and_distinct() {
    let invalid = ByteRange::new(0, 0).unwrap_err();
    let unavailable = SourceError::source_unavailable();
    assert!(!invalid.diagnostic_id().is_empty());
    assert!(invalid.diagnostic_id() != unavailable.diagnostic_id());
}

#[test]
fn resident_bytes_follow_what_is_held() {
    let mut store = small_store(tiny());
    assert_eq!(store.resident_bytes(), 0);
    let first = response(Some(64), 0, b"abcd");
    let charged = first.capacity();
    assert!(charged >= 4);
    store.supply(first).unwrap();
    assert_eq!(store.resident_bytes(), charged);
    store.supply(response(Some(64), 1, b"bc")).unwrap();
    assert_eq!(store.resident_bytes(), charged);
    let apart = response(Some(64), 8, b"ij");
    let more = apart.capacity();
    store.supply(apart).unwrap();
    assert_eq!(store.resident_bytes(), charged + more);
    let resident = store.resident_bytes();
    assert!(store.supply(response(Some(64), 0, b"abcdefghijklmnopq")).is_err());
    assert_eq!(store.resident_bytes(), resident);
    let mut conflicting = b"zz".to_vec();
    conflicting.shrink_to_fit();
    let conflict = RangeResponse::new(snapshot(Some(64), 1), range(0, 2), conflicting).unwrap();
    assert_eq!(code_of(store.supply(conflict)), SourceErrorCode::ConflictingBytes);
    assert_eq!(store.resident_bytes(), resident);
}

#[test]
fn responses_beyond_the_resident_budget_are_refused() {
    let mut config = tiny();
    config.max_resident_bytes = 32;
    let mut store = small_store(config);
    let mut bytes = Vec::with_capacity(64);
    bytes.extend_from_slice(b"abcd");
    let wide = RangeResponse::new(snapshot(Some(64), 1), range(0, 4), bytes).unwrap();
    let capacity = wide.capacity();
    let error = match store.supply(wide) {
        Ok(_) => panic!("expected an error"),
        Err(error) => error,
    };
    let limit = error.limit().unwrap();
    assert_eq!(limit.kind(), SourceLimitKind::ResidentBytes);
    assert_eq!(limit.limit(), 32);
    assert_eq!(limit.attempted(), capacity);
    assert!(limit.attempted() > limit.limit());
    assert_eq!(store.resident_bytes(), 0);
    assert_eq!(store.cached_bytes().unwrap(), 0);
}

#[test]
fn the_cached_total_counts_each_offset_once() {
    let mut store = store(None);
    let mut total = 0;
    for (start, bytes, fresh) in
        [(0u64, &b"abcd"[..], 4u64), (2, b"cdef", 2), (10, b"kl", 2), (5, b"fghij", 4), (0, b"abc", 0)]
    {
        total += fresh;
        let outcome = store.supply(response(None, start, bytes)).unwrap();
        assert_eq!(outcome.cached_bytes(), total);
    }
    assert_eq!(store.cached_bytes().unwrap(), 12);
}

#[test]
fn a_repeated_read_gets_the_same_ticket_and_no_new_subscriber() {
    let mut store = small_store(tiny());
    let (ticket, missing) = pending(&mut store, request(0, 4, 1, 1));
    for _ in 0..4 {
        let (again, same) = pending(&mut store, request(0, 4, 1, 1));
        assert_eq!(again, ticket);
        assert_eq!(same, missing);
    }
    assert!(matches!(
        store.ticket_status(ticket),
        Ok(TicketStatus::Pending { subscriber_count: 1 })
    ));
    let (other, _) = pending(&mut store, request(4, 4, 1, 1));
    assert_ne!(other, ticket);
}

#[test]
fn only_resource_failures_carry_a_limit() {
    let mut store = small_store(tiny());
    match store.poll(request(0, 17, 1, 1)) {
        ReadPoll::Failed(error) => {
            assert_eq!(error.code(), SourceErrorCode::ResourceLimit);
            assert!(error.limit().is_some());
        }
        _ => panic!("expected a failure"),
    }
    let unknown = match store.ticket_status(DataTicket(9)) {
        Ok(_) => panic!("expected an error"),
        Err(error) => error,
    };
    assert!(unknown.limit().is_none());
}

#[test]
fn a_source_without_a_length_accepts_observations_without_one() {
    let mut store = store(None);
    let (ticket, _) = pending(&mut store, request(0, 4, 1, 1));
    let outcome = store.observe_snapshot(snapshot(None, 1)).unwrap();
    assert_eq!(outcome.ready_tickets(), []);
    assert!(matches!(store.ticket_status(ticket), Ok(TicketStatus::Pending { .. })));
}

#[test]
fn the_cached_total_never_falls_whatever_is_called() {
    let mut store = small_store(tiny());
    let (first, _) = pending(&mut store, request(0, 4, 1, 1));
    store.supply(response(Some(64), 0, b"abcd")).unwrap();
    assert_eq!(store.cached_bytes().unwrap(), 4);
    let (second, _) = pending(&mut store, request(8, 4, 2, 1));
    store.unsubscribe(second, JobId(2)).unwrap();
    store.take_subscriptions(first).unwrap();
    store.release_ticket(first).unwrap();
    store.observe_snapshot(snapshot(Some(64), 1)).unwrap();
    assert_eq!(store.cached_bytes().unwrap(), 4);
    store.supply(response(Some(64), 2, b"cdef")).unwrap();
    assert_eq!(store.cached_bytes().unwrap(), 6);
    assert!(store.supply(response(Some(64), 0, b"zz")).is_err());
    store.signal_source_changed().unwrap();
    assert!(store.supply(response(Some(64), 6, b"gh")).is_err());
    assert_eq!(store.cached_bytes().unwrap(), 6);
}

#[test]
fn joins_beyond_the_resident_budget_report_everything_that_they_hold() {
    let mut config = tiny();
    config.max_resident_bytes = 32;
    let mut store = small_store(config);
    let exact = |start: u64, len: usize| {
        let mut bytes = vec![7u8; len];
        bytes.shrink_to_fit();
        RangeResponse::new(snapshot(Some(64), 1), range(start, len as u64), bytes).unwrap()
    };
    store.supply(exact(0, 12)).unwrap();
    let resident = store.resident_bytes();
    let next = exact(12, 8);
    let capacity = next.capacity();
    let error = match store.supply(next) {
        Ok(_) => panic!("expected an error"),
        Err(error) => error,
    };
    let limit = error.limit().unwrap();
    assert_eq!(limit.kind(), SourceLimitKind::ResidentBytes);
    assert_eq!(limit.attempted(), resident + capacity + 20);
    assert_eq!(store.resident_bytes(), resident);
    assert_eq!(store.cached_bytes().unwrap(), 12);
}
