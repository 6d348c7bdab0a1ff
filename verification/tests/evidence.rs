use pdf_content::content::graphics::unit;
use pdf_content::content::plan::action_operator_source;
use pdf_content::content::scene::command_source;
use pdf_content::{
    scan_content_streams, ContentErrorCode, ContentLimits, ContentNumber, ContentOperatorSource,
    DecodedContentStream, DecodedSpan, ExecutionAction, NeverCancelled, ObjectRef, SceneBounds,
    SceneUnit,
};

fn operator(ordinal: u64) -> ContentOperatorSource {
    ContentOperatorSource::new(DecodedSpan::new(ObjectRef::new(4, 1).unwrap(), 2, 30, 5), ordinal)
}

#[test]
fn command_evidence_names_its_operator() {
    let command = command_source(operator(7));
    assert_eq!(command.operator_index, 7);
    let action = ExecutionAction::Save { bounds: SceneBounds::Empty, source: command };
    assert_eq!(action_operator_source(&action), operator(7));
    let last = command_source(operator(u32::MAX as u64));
    assert_eq!(last.operator_index, u32::MAX);
}

#[test]
fn spans_expose_their_parts() {
    let span = operator(0).span();
    assert_eq!(span.object(), ObjectRef::new(4, 1).unwrap());
    assert_eq!(span.stream_ordinal(), 2);
    assert_eq!(span.decoded_start(), 30);
    assert_eq!(span.decoded_end_exclusive(), 35);
    assert_eq!(span.start().decoded_offset(), 30);
    assert_eq!(span.end_exclusive().decoded_offset(), 35);
}

#[test]
fn an_extent_over_two_streams_has_no_single_span() {
    let object = ObjectRef::new(1, 0).unwrap();
    let streams = [
        DecodedContentStream::new(object, 0, b"[1"),
        DecodedContentStream::new(object, 1, b"2] TJ [3] TJ"),
    ];
    let program = scan_content_streams(&streams, ContentLimits::default(), &NeverCancelled)
        .unwrap_or_else(|_| panic!("expected a program"));
    let extent = program.operators()[0].operands()[0].extent();
    assert!(extent.single_stream_span().is_none());
    assert_eq!(extent.start().stream_ordinal(), 0);
    assert_eq!(extent.end_exclusive().stream_ordinal(), 1);
    let span = program.operators()[1].operands()[0].extent().single_stream_span().unwrap();
    assert_eq!((span.decoded_start(), span.decoded_len()), (6, 3));
}

#[test]
fn object_numbers_are_positive() {
    assert!(ObjectRef::new(0, 0).is_none());
}

#[test]
fn color_steps_are_clamped_and_monotone() {
    let step = |scaled| unit(ContentNumber::from_scaled(scaled));
    assert_eq!(step(-5), SceneUnit::from_u16(0));
    assert_eq!(step(0), SceneUnit::from_u16(0));
    assert_eq!(step(500_000_000), SceneUnit::from_u16(32_768));
    assert_eq!(step(1_000_000_000), SceneUnit::from_u16(65_535));
    assert_eq!(step(2_000_000_000), SceneUnit::from_u16(65_535));
    let mut previous = step(0).value;
    for i in 1..100 {
        let next = step(i * 10_000_000).value;
        assert!(next >= previous);
        previous = next;
    }
}

#[test]
fn content_diagnostics_are_distinct() {
    let object = ObjectRef::new(1, 0).unwrap();
    let mut seen: Vec<(&str, ContentErrorCode)> = Vec::new();
    for content in
        [&b"(a"[..], b"[1", b"<g> Tj", b"/#zz gs", b"<< 1 2 >> gs", b"1", b"99999999999999999999 w"]
    {
        let streams = [DecodedContentStream::new(object, 0, content)];
        let error = match scan_content_streams(&streams, ContentLimits::default(), &NeverCancelled)
        {
            Ok(_) => panic!("expected an error"),
            Err(error) => error,
        };
        assert!(seen.iter().all(|(id, _)| *id != error.diagnostic_id()));
        seen.push((error.diagnostic_id(), error.code()));
    }
    assert_eq!(seen.len(), 7);
}
