use pdf_content::content::scene::command_source;
use pdf_content::content::text::{TextExecutor, TextSources};
use pdf_content::content::text_model::TextStep;
use pdf_content::{
    BlendMode, ByteSource, ContentCancellation, ContentFontLimitConfig, ContentFontLimits, ContentNumber, ContentOperatorSource,
    ContentVmErrorCode, ContentVmFailure, ContentVmLimits, DecodedSpan, DeviceColor, FontFace,
    FontOutline, FontPoint, Matrix, NeverCancelled, ObjectRef, OutlineSegment, Paint, RunStop,
    RuntimeGuard, SceneError, SceneScalar, SceneUnit, SourceIdentity, SourceSnapshot,
    SourceValidator, TextAction, TextReply, TextShowItem,
};

struct FixedSource(SourceSnapshot);

impl ByteSource for FixedSource {
    fn snapshot(&self) -> SourceSnapshot {
        self.0
    }
}

fn snapshot() -> SourceSnapshot {
    SourceSnapshot::new(SourceIdentity { value: 1 }, Some(8), SourceValidator { value: 2 })
}

fn operator() -> ContentOperatorSource {
    let object = ObjectRef::new(4, 0).unwrap();
    ContentOperatorSource::new(DecodedSpan::new(object, 0, 0, 2), 0)
}

fn face() -> FontFace {
    let mut codes = vec![None; 95];
    let mut widths = vec![None; 95];
    codes[(b'A' - 0x20) as usize] = Some(1);
    widths[(b'A' - 0x20) as usize] = Some(500);
    FontFace {
        reference: ObjectRef::new(20, 0).unwrap(),
        revision_startxref: 9,
        units_per_em: 1000,
        codes,
        widths,
        outlines: vec![FontOutline {
            glyph_id: 1,
            segments: vec![OutlineSegment::MoveTo(FontPoint { x: 0, y: 0 })],
        }],
    }
}

fn show(next_line: bool) -> TextAction {
    TextAction::Show {
        items: 0,
        character_spacing: None,
        word_spacing: None,
        next_line,
        paint: Paint::new(
            DeviceColor::Gray(SceneUnit::from_u16(0)),
            SceneUnit::from_u16(65535),
            BlendMode::Normal,
        ),
        ctm: Matrix::identity(),
        command_source: command_source(operator()),
        source: operator(),
    }
}

fn executor() -> TextExecutor {
    let mut peak = 0;
    let mut executor =
        TextExecutor::new(1, ContentVmLimits::default(), 0, &mut peak).unwrap_or_else(|_| panic!());
    assert!(executor.execute_boundary(TextAction::Begin { source: operator() }).is_ok());
    executor
}

fn step(result: Result<TextStep, RunStop>) -> TextStep {
    match result {
        Ok(step) => step,
        Err(_) => panic!("expected a step"),
    }
}

#[test]
fn a_show_on_a_new_line_moves_before_it_asks_for_its_font() {
    let names = vec![b"A".to_vec()];
    let items = vec![vec![TextShowItem::Bytes(0)]];
    let faces = vec![face()];
    let sources = TextSources {
        names: &names,
        items: &items,
        faces: &faces,
        limits: ContentFontLimits::default(),
    };
    let source = FixedSource(snapshot());
    let guard = RuntimeGuard { snapshot: snapshot(), source: &source, cancellation: &NeverCancelled };

    let mut moved = executor();
    assert!(matches!(
        step(moved.execute(show(true), None, &sources, &guard)),
        TextStep::Product { .. }
    ));
    let overflow = TextReply::Product(Err(SceneError::NumericOverflow));
    match moved.resume(overflow, operator(), &sources, &guard) {
        Err(RunStop::Failed(ContentVmFailure::Scene(error))) => {
            assert_eq!(error, SceneError::NumericOverflow)
        }
        _ => panic!("expected the overflow"),
    }

    let mut without_font = executor();
    step(without_font.execute(show(true), None, &sources, &guard));
    let reply = TextReply::Product(Ok(Matrix::identity()));
    match without_font.resume(reply, operator(), &sources, &guard) {
        Err(RunStop::Failed(ContentVmFailure::Vm(error))) => {
            assert_eq!(error.code(), ContentVmErrorCode::InternalState)
        }
        _ => panic!("expected the missing font"),
    }

    let mut in_place = executor();
    match in_place.execute(show(false), None, &sources, &guard) {
        Err(RunStop::Failed(ContentVmFailure::Vm(error))) => {
            assert_eq!(error.code(), ContentVmErrorCode::InternalState)
        }
        _ => panic!("expected the missing font"),
    }
}

#[test]
fn outlines_are_built_before_their_glyphs_are_placed() {
    let names = vec![b"AA".to_vec()];
    let items = vec![vec![TextShowItem::Bytes(0)]];
    let faces = vec![face()];
    let sources = TextSources {
        names: &names,
        items: &items,
        faces: &faces,
        limits: ContentFontLimits::default(),
    };
    let source = FixedSource(snapshot());
    let guard = RuntimeGuard { snapshot: snapshot(), source: &source, cancellation: &NeverCancelled };
    let mut executor = executor();
    let font = TextAction::SetFont {
        name: 0,
        size: ContentNumber::one(),
        source: operator(),
    };
    assert!(step(executor.execute(font, Some(0), &sources, &guard)) == TextStep::Done);
    assert!(matches!(
        step(executor.execute(show(false), None, &sources, &guard)),
        TextStep::Scaled { .. }
    ));
    assert_eq!(executor.outlines.len(), 1);
    assert_eq!(executor.glyphs.len(), 0);

    let one = SceneScalar::from_scaled(1_000_000_000);
    let identity = TextReply::Product(Ok(Matrix::identity()));
    step(executor.resume(TextReply::Scaled(Ok(one)), operator(), &sources, &guard));
    step(executor.resume(identity, operator(), &sources, &guard));
    step(executor.resume(identity, operator(), &sources, &guard));
    assert_eq!(executor.glyphs.len(), 1);
    assert_eq!(executor.glyphs[0].outline, 0);
    step(executor.resume(TextReply::Scaled(Ok(one)), operator(), &sources, &guard));
    step(executor.resume(identity, operator(), &sources, &guard));
    assert_eq!(executor.outlines.len(), 1);
}

struct AlwaysCancelled;

impl ContentCancellation for AlwaysCancelled {
    fn is_cancelled(&self) -> bool {
        true
    }
}

#[test]
fn text_outside_of_a_text_object_is_broken_before_a_guard_is_asked() {
    let names = vec![b"A".to_vec()];
    let items = vec![vec![TextShowItem::Bytes(0)]];
    let faces = vec![face()];
    let sources = TextSources {
        names: &names,
        items: &items,
        faces: &faces,
        limits: ContentFontLimits::default(),
    };
    let source = FixedSource(snapshot());
    let guard = RuntimeGuard { snapshot: snapshot(), source: &source, cancellation: &AlwaysCancelled };
    let code = |result: Result<TextStep, RunStop>| match result {
        Err(RunStop::Failed(ContentVmFailure::Vm(error))) => error.code(),
        _ => panic!("expected a failure"),
    };
    let mut inside = executor();
    assert_eq!(
        code(inside.execute(show(false), None, &sources, &guard)),
        ContentVmErrorCode::Cancelled
    );
    let mut outside = executor();
    assert!(outside.execute_boundary(TextAction::End { source: operator() }).is_ok());
    assert_eq!(
        code(outside.execute(show(false), None, &sources, &guard)),
        ContentVmErrorCode::InternalState
    );
}

#[test]
fn runs_are_held_against_the_glyph_budget() {
    let names = vec![b"AA".to_vec()];
    let items = vec![vec![TextShowItem::Bytes(0)]];
    let faces = vec![face()];
    let config = ContentFontLimitConfig::default();
    let mut sources = TextSources {
        names: &names,
        items: &items,
        faces: &faces,
        limits: ContentFontLimits::validate(config).unwrap(),
    };
    let source = FixedSource(snapshot());
    let guard = RuntimeGuard { snapshot: snapshot(), source: &source, cancellation: &NeverCancelled };
    let font = TextAction::SetFont { name: 0, size: ContentNumber::one(), source: operator() };
    let mut wide = executor();
    let base = wide.peak_retained_bytes();
    step(wide.execute(font, Some(0), &sources, &guard));
    step(wide.execute(show(false), None, &sources, &guard));
    let held = wide.glyph_retained + wide.outline_retained;
    assert!(held > 0);
    assert_eq!(wide.peak_glyph_retained, held);
    assert_eq!(wide.peak_retained_bytes(), base + held);

    let narrow_config = ContentFontLimitConfig { max_glyph_retained_bytes: held - 1, ..config };
    sources.limits = ContentFontLimits::validate(narrow_config).unwrap();
    let mut narrow = executor();
    step(narrow.execute(font, Some(0), &sources, &guard));
    assert!(narrow.execute(show(false), None, &sources, &guard).is_err());
}
