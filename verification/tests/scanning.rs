use std::sync::atomic::{AtomicU32, Ordering};

use pdf_content::content::scanner::{grow_slots, settle_request};
use pdf_content::{
    scan_content_streams, ContentCancellation, ContentError, ContentErrorCode, ContentLimitConfig,
    ContentLimitKind, ContentLimits, ContentOperand, ContentProgram, ContentScanJob,
    ContentScanPhase, ContentScanPoll, ContentStringKind, DecodedContentStream, NeverCancelled,
    LocatedOperand, ObjectRef, OperatorContext, OperatorKind, OperatorOperandShape,
};

fn object(number: u32) -> ObjectRef {
    ObjectRef::new(number, 0).unwrap()
}

fn scan_with(parts: &[&[u8]], limits: ContentLimits) -> Result<ContentProgram, ContentError> {
    let streams: Vec<DecodedContentStream<'_>> = parts
        .iter()
        .enumerate()
        .map(|(i, bytes)| DecodedContentStream::new(object(i as u32 + 1), i as u32, bytes))
        .collect();
    scan_content_streams(&streams, limits, &NeverCancelled)
}

fn scan(content: &[u8]) -> Result<ContentProgram, ContentError> {
    scan_with(&[content], ContentLimits::default())
}

fn code(content: &[u8]) -> ContentErrorCode {
    match scan(content) {
        Ok(_) => panic!("expected an error"),
        Err(error) => error.code(),
    }
}

fn only_operand(content: &[u8]) -> ContentProgram {
    let program = scan(content).unwrap();
    assert_eq!(program.operators().len(), 1);
    assert_eq!(program.operators()[0].operands().len(), 1);
    program
}

#[test]
fn operators_keep_order_operands_and_evidence() {
    let program = scan(b"q 1 0 0 1 5 -7.5 cm\nBT ET Q").unwrap();
    let kinds: Vec<_> =
        program.operators().iter().map(|operator| operator.operator().known()).collect();
    assert_eq!(
        kinds,
        vec![
            Some(OperatorKind::SaveGraphicsState),
            Some(OperatorKind::ConcatMatrix),
            Some(OperatorKind::BeginText),
            Some(OperatorKind::EndText),
            Some(OperatorKind::RestoreGraphicsState),
        ]
    );
    let cm = &program.operators()[1];
    assert_eq!(cm.operands().len(), 6);
    assert_eq!(cm.source().page_operator_ordinal(), 1);
    assert_eq!(cm.source().span().decoded_start(), 17);
    assert_eq!(cm.source().span().decoded_len(), 2);
    assert_eq!(cm.source().span().object(), object(1));
    match cm.operands()[5].value() {
        ContentOperand::Real(lexeme) => assert_eq!(lexeme.raw(), b"-7.5"),
        _ => panic!("expected a real"),
    }
    assert_eq!(program.stats().operators(), 5);
    assert_eq!(program.stats().operands(), 6);
    assert_eq!(program.stats().total_decoded_bytes(), 27);
    assert_eq!(program.stats().fuel(), 27 + program.stats().tokens());
}

#[test]
fn operands_carry_over_stream_boundaries_and_tokens_do_not() {
    let program = scan_with(&[b"1 0 0 1", b"2 3 cm"], ContentLimits::default()).unwrap();
    assert_eq!(program.operators().len(), 1);
    let operator = &program.operators()[0];
    assert_eq!(operator.operands().len(), 6);
    assert_eq!(operator.source().span().stream_ordinal(), 1);
    let extent = operator.operands()[0].extent();
    assert_eq!(extent.single_stream_span().unwrap().object(), object(1));
    let split = scan_with(&[b"B", b"T"], ContentLimits::default()).unwrap();
    assert_eq!(split.operators().len(), 2);
    assert!(split.operators()[1].operator().is_unknown());
}

#[test]
fn names_decode_their_escapes() {
    let program = only_operand(b"/A#20b#23 gs");
    match program.operators()[0].operands()[0].value() {
        ContentOperand::Name(name) => assert_eq!(name.bytes(), b"A b#"),
        _ => panic!("expected a name"),
    }
    assert_eq!(code(b"/A#2 gs"), ContentErrorCode::InvalidNameEscape);
    assert_eq!(code(b"/A#zz gs"), ContentErrorCode::InvalidNameEscape);
}

#[test]
fn strings_decode_escapes_nesting_and_hexadecimal_digits() {
    let program = only_operand(b"(a(b)\\)\\n\\101\\\nc) Tj");
    match program.operators()[0].operands()[0].value() {
        ContentOperand::String(string) => {
            assert_eq!(string.bytes(), b"a(b))\nAc");
            assert_eq!(string.kind(), ContentStringKind::Literal);
        }
        _ => panic!("expected a string"),
    }
    let program = only_operand(b"<48 65 6c6C6> Tj");
    match program.operators()[0].operands()[0].value() {
        ContentOperand::String(string) => {
            assert_eq!(string.bytes(), b"Hell`");
            assert_eq!(string.kind(), ContentStringKind::Hexadecimal);
        }
        _ => panic!("expected a string"),
    }
    assert_eq!(code(b"(abc"), ContentErrorCode::UnterminatedString);
    assert_eq!(code(b"<41"), ContentErrorCode::UnterminatedString);
    assert_eq!(code(b"<4x> Tj"), ContentErrorCode::InvalidHexString);
}

#[test]
fn arrays_and_dictionaries_nest() {
    let program = only_operand(b"[(a) -120 [/N true null]] TJ");
    match program.operators()[0].operands()[0].value() {
        ContentOperand::Array(values) => {
            assert_eq!(values.len(), 3);
            assert!(matches!(values[1].value(), ContentOperand::Integer(-120)));
            match values[2].value() {
                ContentOperand::Array(inner) => {
                    assert!(matches!(inner[1].value(), ContentOperand::Boolean(true)));
                    assert!(matches!(inner[2].value(), ContentOperand::Null));
                }
                _ => panic!("expected an array"),
            }
        }
        _ => panic!("expected an array"),
    }
    assert_eq!(program.stats().max_nesting_depth(), 2);
    let program = scan(b"/P << /K [1] /L 2 >> BDC").unwrap();
    match program.operators()[0].operands()[1].value() {
        ContentOperand::Dictionary(entries) => {
            assert_eq!(entries.len(), 2);
            assert_eq!(entries[0].key().bytes(), b"K");
            assert!(matches!(entries[1].value().value(), ContentOperand::Integer(2)));
        }
        _ => panic!("expected a dictionary"),
    }
}

#[test]
fn malformed_content_is_refused_with_its_kind() {
    assert_eq!(code(b"[1 2"), ContentErrorCode::MismatchedDelimiter);
    assert_eq!(code(b"[1 >>"), ContentErrorCode::MismatchedDelimiter);
    assert_eq!(code(b"]"), ContentErrorCode::MismatchedDelimiter);
    assert_eq!(code(b"<< 1 2 >> gs"), ContentErrorCode::InvalidDictionaryKey);
    assert_eq!(code(b"1 2 3"), ContentErrorCode::DanglingOperands);
    assert_eq!(code(b"99999999999999999999 w"), ContentErrorCode::InvalidNumber);
}

#[test]
fn comments_and_white_space_separate_tokens() {
    let program = scan(b"q% save\nQ\t\x0c\0\rq").unwrap();
    assert_eq!(program.operators().len(), 3);
}

#[test]
fn unknown_operators_keep_their_token() {
    let program = scan(b"1 foo").unwrap();
    let operator = &program.operators()[0];
    assert!(operator.operator().is_unknown());
    assert_eq!(operator.operator().token(), b"foo");
    assert_eq!(operator.operator().known(), None);
    assert_eq!(program.stats().unknown_operators(), 1);
}

#[test]
fn budgets_stop_the_scan() {
    let limit = |config: ContentLimitConfig, content: &[u8]| {
        match scan_with(&[content], ContentLimits::validate(config).unwrap()) {
            Ok(_) => panic!("expected an error"),
            Err(error) => {
                assert_eq!(error.code(), ContentErrorCode::ResourceLimit);
                error.limit().unwrap().kind()
            }
        }
    };
    let config = ContentLimitConfig::default();
    assert_eq!(
        limit(ContentLimitConfig { max_operators: 1, ..config }, b"q Q"),
        ContentLimitKind::Operators
    );
    assert_eq!(
        limit(ContentLimitConfig { max_nesting_depth: 1, ..config }, b"[[1]] TJ"),
        ContentLimitKind::NestingDepth
    );
    assert_eq!(
        limit(ContentLimitConfig { max_total_decoded_bytes: 2, ..config }, b"q Q"),
        ContentLimitKind::TotalDecodedBytes
    );
    assert_eq!(
        limit(ContentLimitConfig { max_operands_per_operator: 1, ..config }, b"1 2 m"),
        ContentLimitKind::OperandsPerOperator
    );
    assert_eq!(
        limit(ContentLimitConfig { max_token_bytes: 3, ..config }, b"(abcd) Tj"),
        ContentLimitKind::TokenBytes
    );
}

#[test]
fn streams_must_come_in_order() {
    let streams = [DecodedContentStream::new(object(1), 1, b"q")];
    match scan_content_streams(&streams, ContentLimits::default(), &NeverCancelled) {
        Ok(_) => panic!("expected an error"),
        Err(error) => assert_eq!(error.code(), ContentErrorCode::InvalidStreamOrder),
    }
}

struct AlwaysCancelled;

impl ContentCancellation for AlwaysCancelled {
    fn is_cancelled(&self) -> bool {
        true
    }
}

#[test]
fn cancelled_jobs_replay_their_outcome() {
    let streams = [DecodedContentStream::new(object(1), 0, b"q Q")];
    let mut job = ContentScanJob::new(&streams, ContentLimits::default()).unwrap();
    assert!(matches!(job.phase(), ContentScanPhase::Pending));
    match job.poll(&AlwaysCancelled) {
        ContentScanPoll::Failed(error) => assert_eq!(error.code(), ContentErrorCode::Cancelled),
        ContentScanPoll::Ready(_) => panic!("expected a failure"),
    }
    assert!(matches!(job.phase(), ContentScanPhase::Failed));
    assert!(matches!(job.poll(&NeverCancelled), ContentScanPoll::Failed(_)));
}

#[test]
fn ready_jobs_share_one_program() {
    let streams = [DecodedContentStream::new(object(1), 0, b"q Q")];
    let mut job = ContentScanJob::new(&streams, ContentLimits::default()).unwrap();
    for _ in 0..2 {
        match job.poll(&NeverCancelled) {
            ContentScanPoll::Ready(program) => assert_eq!(program.operators().len(), 2),
            ContentScanPoll::Failed(_) => panic!("expected a program"),
        }
    }
    assert_eq!(job.stats().operators(), 2);
}

#[test]
fn errors_point_at_the_offending_byte() {
    let error = match scan(b"q\n(abc") {
        Ok(_) => panic!("expected an error"),
        Err(error) => error,
    };
    let position = error.position().unwrap();
    assert_eq!(position.object(), object(1));
    assert_eq!(position.stream_ordinal(), 0);
    assert!(position.decoded_offset() >= 2);
    assert!(!error.diagnostic_id().is_empty());
}

#[test]
fn every_operator_is_found_by_its_token() {
    for (token, kind) in [
        (&b"q"[..], OperatorKind::SaveGraphicsState),
        (b"cm", OperatorKind::ConcatMatrix),
        (b"\"", OperatorKind::SetSpacingMoveNextLineShowText),
        (b"f*", OperatorKind::FillEvenOdd),
        (b"BDC", OperatorKind::BeginMarkedContentProperties),
        (b"Do", OperatorKind::PaintXObject),
    ] {
        assert_eq!(OperatorKind::from_token(token), Some(kind));
        assert_eq!(kind.spec().token(), token);
    }
    assert_eq!(OperatorKind::from_token(b"QQ"), None);
    let spec = OperatorKind::SetTextFont.spec();
    assert_eq!(spec.operand_shape(), OperatorOperandShape::NameAndNumber);
    assert_eq!(spec.min_operands(), 2);
    assert_eq!(spec.max_operands(), 2);
    assert_eq!(OperatorKind::ShowText.spec().context(), OperatorContext::TextObject);
}

#[test]
fn operands_are_the_bytes_at_their_extents() {
    let content = b"/A#42c <616 2> (x\\(y) -7.50 [ /N (z) ] op";
    let program = scan(content).unwrap();
    let operands = program.operators()[0].operands();
    let token = |i: usize| {
        let extent = operands[i].extent();
        let start = extent.start().decoded_offset() as usize;
        let end = extent.end_exclusive().decoded_offset() as usize;
        &content[start..end]
    };
    assert_eq!(token(0), b"/A#42c");
    match operands[0].value() {
        ContentOperand::Name(name) => assert_eq!(name.bytes(), b"ABc"),
        _ => panic!("expected a name"),
    }
    assert_eq!(token(1), b"<616 2>");
    match operands[1].value() {
        ContentOperand::String(string) => {
            assert_eq!(string.bytes(), b"ab");
            assert_eq!(string.kind(), ContentStringKind::Hexadecimal);
        }
        _ => panic!("expected a string"),
    }
    assert_eq!(token(2), b"(x\\(y)");
    match operands[2].value() {
        ContentOperand::String(string) => assert_eq!(string.bytes(), b"x(y"),
        _ => panic!("expected a string"),
    }
    match operands[3].value() {
        ContentOperand::Real(real) => assert_eq!(real.raw(), token(3)),
        _ => panic!("expected a real number"),
    }
    assert_eq!(token(4), b"[ /N (z) ]");
    assert_eq!(program.stats().unknown_operators(), 1);
}

#[test]
fn unknown_operators_are_counted_among_the_known() {
    let program = scan(b"q foo BX bar EX baz Q").unwrap();
    let unknown =
        program.operators().iter().filter(|operator| operator.operator().is_unknown()).count();
    assert_eq!(unknown, 3);
    assert_eq!(program.stats().unknown_operators(), 3);
    assert_eq!(program.stats().operators(), 7);
}

#[test]
fn retained_failures_report_a_charge_beyond_their_ceiling() {
    let config = ContentLimitConfig { max_retained_bytes: 64, ..ContentLimitConfig::default() };
    let limits = ContentLimits::validate(config).unwrap();
    let error = match scan_with(&[b"q q q q q q q q Q Q Q Q Q Q Q Q"], limits) {
        Ok(_) => panic!("expected an error"),
        Err(error) => error,
    };
    let limit = error.limit().unwrap();
    assert_eq!(limit.kind(), ContentLimitKind::RetainedBytes);
    assert_eq!(limit.limit(), 64);
    assert!(limit.consumed() <= 64);
    assert!(limit.consumed() + limit.attempted() > 64);
}

#[test]
fn budget_failures_report_a_charge_within_and_a_step_beyond_their_ceiling() {
    let config = ContentLimitConfig::default();
    let cases = [
        (ContentLimitConfig { max_total_decoded_bytes: 3, ..config }, ContentLimitKind::TotalDecodedBytes),
        (ContentLimitConfig { max_tokens: 2, ..config }, ContentLimitKind::Tokens),
        (ContentLimitConfig { max_token_bytes: 1, ..config }, ContentLimitKind::TokenBytes),
        (
            ContentLimitConfig { max_operands_per_operator: 3, ..config },
            ContentLimitKind::OperandsPerOperator,
        ),
        (ContentLimitConfig { max_operators: 1, ..config }, ContentLimitKind::Operators),
        (ContentLimitConfig { max_fuel: 5, ..config }, ContentLimitKind::Fuel),
    ];
    for (config, kind) in cases {
        let limits = ContentLimits::validate(config).unwrap();
        let error = match scan_with(&[b"q 1 2 3 4 re f"], limits) {
            Ok(_) => panic!("expected an error"),
            Err(error) => error,
        };
        let limit = error.limit().unwrap();
        assert_eq!(limit.kind(), kind);
        assert!(limit.consumed() <= limit.limit());
        assert!(limit.consumed() + limit.attempted() > limit.limit());
    }
}

#[test]
fn failed_jobs_keep_the_work_that_was_charged() {
    let config = ContentLimitConfig { max_fuel: 5, ..ContentLimitConfig::default() };
    let limits = ContentLimits::validate(config).unwrap();
    let streams = [DecodedContentStream::new(object(1), 0, b"q Q q Q")];
    let mut job = ContentScanJob::new(&streams, limits).unwrap();
    assert_eq!(job.stats().fuel(), 0);
    let error = match job.poll(&NeverCancelled) {
        ContentScanPoll::Failed(error) => error,
        ContentScanPoll::Ready(_) => panic!("expected a failure"),
    };
    let limit = error.limit().unwrap();
    assert_eq!(limit.kind(), ContentLimitKind::Fuel);
    assert_eq!(job.stats().fuel(), limit.consumed());
    assert_eq!(job.stats().operators(), 2);
    let charged = job.stats();
    assert!(matches!(job.poll(&NeverCancelled), ContentScanPoll::Failed(_)));
    assert_eq!(job.stats(), charged);
}

/// Stops once it was asked as often as it says.
struct CancelledAfter {
    asked: AtomicU32,
    patience: u32,
}

impl ContentCancellation for CancelledAfter {
    fn is_cancelled(&self) -> bool {
        self.asked.fetch_add(1, Ordering::SeqCst) >= self.patience
    }
}

fn cancelled_after(patience: u32) -> CancelledAfter {
    CancelledAfter { asked: AtomicU32::new(0), patience }
}

#[test]
fn scans_ask_their_cancellation_until_they_publish() {
    let streams = [DecodedContentStream::new(object(1), 0, b"q Q")];
    let patient = cancelled_after(u32::MAX);
    let program = scan_content_streams(&streams, ContentLimits::default(), &patient);
    assert!(program.is_ok());
    let asked = patient.asked.load(Ordering::SeqCst);
    assert!(asked >= 2);
    for patience in 0..asked {
        match scan_content_streams(&streams, ContentLimits::default(), &cancelled_after(patience)) {
            Ok(_) => panic!("expected a cancellation"),
            Err(error) => assert_eq!(error.code(), ContentErrorCode::Cancelled),
        }
    }
    assert!(scan_content_streams(&streams, ContentLimits::default(), &NeverCancelled).is_ok());
}

#[test]
fn full_lists_double_and_empty_ones_take_two() {
    assert_eq!(grow_slots(0), 2);
    assert_eq!(grow_slots(2), 2);
    assert_eq!(grow_slots(8), 8);
    let width = std::mem::size_of::<LocatedOperand>() as u64;
    let config =
        ContentLimitConfig { max_retained_bytes: 2 * width - 1, ..ContentLimitConfig::default() };
    let limits = ContentLimits::validate(config).unwrap();
    let error = match scan_with(&[b"1 2 m"], limits) {
        Ok(_) => panic!("expected an error"),
        Err(error) => error,
    };
    let limit = error.limit().unwrap();
    assert_eq!(limit.kind(), ContentLimitKind::RetainedBytes);
    assert_eq!((limit.consumed(), limit.attempted()), (0, 2 * width));
}

#[test]
fn requests_are_held_against_the_retained_budget() {
    let config = ContentLimitConfig { max_retained_bytes: 100, ..ContentLimitConfig::default() };
    let limits = ContentLimits::validate(config).unwrap();
    let refused = |retained: u64, request: u64, granted: Option<u64>| {
        let limit = match settle_request(limits, retained, request, granted, None) {
            Ok(_) => panic!("expected a refusal"),
            Err(error) => error.limit().unwrap(),
        };
        (limit.kind(), limit.limit(), limit.consumed(), limit.attempted())
    };
    assert_eq!(settle_request(limits, 40, 60, Some(60), None), Ok(100));
    assert_eq!(settle_request(limits, 40, 20, Some(30), None), Ok(70));
    assert_eq!(settle_request(limits, 40, 20, Some(0), None), Ok(60));
    assert_eq!(refused(40, 61, None), (ContentLimitKind::RetainedBytes, 100, 40, 61));
    assert_eq!(refused(40, 60, None), (ContentLimitKind::Allocation, 100, 40, 60));
    assert_eq!(refused(40, 60, Some(61)), (ContentLimitKind::RetainedBytes, 100, 40, 61));
}
