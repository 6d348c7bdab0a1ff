use std::sync::atomic::{AtomicU32, Ordering};

use pdf_content::content::text_math::rounded_scene_scalar;
use pdf_content::{
    AcquiredImage, AcquisitionProgress, Answer, AttestedObject, AttestedValue, BlendMode,
    ByteSource, ContentCancellation, ContentExtGStateProfile, ContentExtGStateResource,
    ContentFontLimitConfig, ContentFontLimits, ContentFontProfile, ContentFormProfile, ContentGraphicsLimitConfig, ContentGraphicsLimits,
    ContentImageLimitConfig, ContentImageLimits, ContentImageProfile, ContentLimits,
    ContentUnsupportedKind, ContentVmErrorCode, ContentVmFailure, ContentVmLimitConfig,
    ContentVmLimits, ContentVmPhase, DataTicket, DocumentError, ExecutionAction, FillRule,
    FontFace, FontLookup, FontOutline, FontPoint, FontPoll, FontRuntime, FontStep, FormBox, FormFrame,
    FormInterpretation, FormPoll, GlyphSegment, GlyphUse, ImageLookup, ImagePoll, ImageProgress, ImageRuntime, ImageStep,
    ImageUnsupported, ImageXObjectColorSpace, Interpretation, InterpretFormJob, InterpretPageJob,
    JobRequest, MaterialStep, Matrix, NeverCancelled, ObjectRef, OutlineSegment, OwnedStream,
    PathSegment, PendingRead, RangeStore, RangeStoreLimits, ReadPoll, ReadRequest, Requirement,
    ResourceProof, ResumeCheckpoint, RevisionAuthority, RunStop, RuntimeGuard, SceneBounds,
    SceneError, ScenePoint, SceneReply, SceneScalar, SceneUnit, SourceIdentity, SourceSnapshot,
    SourceValidator, SyntaxEntry, SyntaxObject, TextReply,
};
use pdf_content::{
    nested_form_job, ByteRange, ContentOperatorSource, DecodedSpan, JobId, SmallRanges,
};

const ONE: i64 = 1_000_000_000;

fn snapshot() -> SourceSnapshot {
    SourceSnapshot::new(SourceIdentity { value: 3 }, Some(64), SourceValidator { value: 4 })
}

struct FixedSource(SourceSnapshot);

impl ByteSource for FixedSource {
    fn snapshot(&self) -> SourceSnapshot {
        self.0
    }
}

struct AlwaysCancelled;

impl ContentCancellation for AlwaysCancelled {
    fn is_cancelled(&self) -> bool {
        true
    }
}

fn object(number: u32) -> ObjectRef {
    ObjectRef::new(number, 0).unwrap()
}

fn operator() -> ContentOperatorSource {
    ContentOperatorSource::new(DecodedSpan::new(object(4), 0, 0, 2), 0)
}

fn proof_of(number: u32) -> ResourceProof {
    ResourceProof { snapshot: snapshot(), target: object(number), revision_startxref: 9 }
}

fn scalar(value: i64) -> SceneScalar {
    SceneScalar::from_scaled(value * ONE)
}

fn point(x: i64, y: i64) -> ScenePoint {
    ScenePoint::new(scalar(x), scalar(y))
}

fn scaled(left: SceneScalar, right: SceneScalar) -> Result<SceneScalar, SceneError> {
    rounded_scene_scalar(left.scaled as i128 * right.scaled as i128, ONE as i128)
}

fn sum(left: Result<SceneScalar, SceneError>, right: SceneScalar) -> Result<SceneScalar, SceneError> {
    left?.checked_add(right)
}

fn mapped(matrix: Matrix, point: ScenePoint) -> Result<ScenePoint, SceneError> {
    let x = sum(sum(scaled(matrix.a, point.x), scaled(matrix.c, point.y)?), matrix.e)?;
    let y = sum(sum(scaled(matrix.b, point.x), scaled(matrix.d, point.y)?), matrix.f)?;
    Ok(ScenePoint::new(x, y))
}

fn product(left: Matrix, right: Matrix) -> Result<Matrix, SceneError> {
    let zero = SceneScalar::from_scaled(0);
    let linear = Matrix { e: zero, f: zero, ..left };
    let first = mapped(linear, ScenePoint::new(right.a, right.b))?;
    let second = mapped(linear, ScenePoint::new(right.c, right.d))?;
    let origin = mapped(left, ScenePoint::new(right.e, right.f))?;
    Ok(Matrix {
        a: first.x,
        b: first.y,
        c: second.x,
        d: second.y,
        e: origin.x,
        f: origin.y,
    })
}

fn face() -> FontFace {
    let mut codes = vec![Some(0); 95];
    let mut widths = vec![Some(0); 95];
    codes[(b'A' - 0x20) as usize] = Some(1);
    widths[(b'A' - 0x20) as usize] = Some(500);
    codes[(b'B' - 0x20) as usize] = Some(2);
    widths[(b'B' - 0x20) as usize] = Some(1000);
    let outline = |glyph_id, segments| FontOutline { glyph_id, segments };
    FontFace {
        reference: object(20),
        revision_startxref: 9,
        units_per_em: 1000,
        codes,
        widths,
        outlines: vec![
            outline(0, Vec::new()),
            outline(
                1,
                vec![
                    OutlineSegment::MoveTo(FontPoint { x: 0, y: 0 }),
                    OutlineSegment::QuadTo {
                        control: FontPoint { x: 1, y: 2 },
                        end: FontPoint { x: 2, y: 0 },
                    },
                    OutlineSegment::CloseContour,
                ],
            ),
            outline(2, vec![OutlineSegment::MoveTo(FontPoint { x: 4, y: 4 })]),
        ],
    }
}

fn gray_image(number: u32) -> AcquiredImage {
    AcquiredImage {
        resource: proof_of(number),
        reference: object(number),
        decode_context: 0,
        width: 2,
        height: 1,
        components: 1,
        source_components: 1,
        bits_per_component: 4,
        stride_bytes: 1,
        color_space: ImageXObjectColorSpace::DeviceGray,
        interpolate: false,
        indexed_high_value: None,
        indexed_lookup: None,
        decoded: vec![0x0f],
        reported_decoded_bytes: 1,
    }
}

/// The layers below, and what they were asked.
struct World {
    image_jobs: u32,
    forms: bool,
    drawn: Vec<String>,
    runs: Vec<Vec<(u32, i64, i64)>>,
    dash_taken: bool,
    pending_once: bool,
    property: Result<ResourceProof, DocumentError>,
}

fn world() -> World {
    World {
        image_jobs: 0,
        forms: false,
        drawn: Vec::new(),
        runs: Vec::new(),
        dash_taken: true,
        pending_once: false,
        property: Ok(proof_of(30)),
    }
}

fn pending_read() -> PendingRead {
    let missing: SmallRanges = {
        let mut store = RangeStore::new(snapshot(), RangeStoreLimits::default()).unwrap();
        let request = ReadRequest {
            range: ByteRange::new(0, 4).unwrap(),
            job: JobId(1),
            checkpoint: ResumeCheckpoint(1),
        };
        match store.poll(request) {
            ReadPoll::Pending { missing, .. } => missing,
            _ => panic!("expected a pending read"),
        }
    };
    PendingRead { ticket: DataTicket(1), missing, checkpoint: ResumeCheckpoint(2) }
}

fn answer(world: &World, requirement: Requirement) -> Answer {
    match requirement {
        Requirement::Nothing => Answer::Nothing,
        Requirement::Product { left, right } => Answer::Product(product(left, right)),
        Requirement::Points { matrix, points } => {
            Answer::Points(points.iter().map(|point| mapped(matrix, *point)).collect())
        }
        Requirement::Dash { .. } => Answer::Dash(world.dash_taken),
        Requirement::Property { .. } => Answer::Property(world.property),
    }
}

fn serve_image(
    world: &mut World,
    run: &mut Interpretation,
    step: ImageStep,
    guard: &RuntimeGuard<'_, FixedSource, NeverCancelled>,
) -> Result<bool, RunStop> {
    let images = run.images.as_mut().unwrap();
    match step {
        ImageStep::AcquireImage(_) => {
            world.image_jobs += 1;
            images.acquisition_started(Ok(()))?;
        }
        ImageStep::AcquireForm(_) => images.acquisition_started(Ok(()))?,
        ImageStep::PollImage => {
            let outcome = if world.pending_once {
                world.pending_once = false;
                ImagePoll::Pending(pending_read())
            } else if world.forms {
                ImagePoll::Unsupported(ImageUnsupported::NonImageXObject)
            } else {
                ImagePoll::Ready(gray_image(10))
            };
            match images.image_polled(outcome, guard)? {
                ImageProgress::Build => images.image_built(Ok(()))?,
                ImageProgress::Pending(read) => {
                    assert_eq!(read.ticket, DataTicket(1));
                    return Ok(false);
                }
                ImageProgress::Continue => {}
            }
        }
        ImageStep::PollForm => {
            images.form_polled(FormPoll::Ready { resource: proof_of(10), form: 77 }, guard)?;
        }
        ImageStep::Interpret { form, .. } => {
            assert_eq!(form, 77);
            images.interpretation_started(Ok(()))?;
        }
        ImageStep::PollInterpretation => {
            let progress = images.interpretation_polled(FormInterpretation::Ready(78))?;
            assert!(matches!(progress, AcquisitionProgress::Continue));
        }
        ImageStep::Complete => panic!("nothing was asked"),
    }
    Ok(true)
}

fn serve_scene(world: &mut World, run: &mut Interpretation, step: MaterialStep) -> SceneReply {
    let material = run.material.as_ref().unwrap();
    match step {
        MaterialStep::Product { left, right } => {
            SceneReply::Text(TextReply::Product(product(left, right)))
        }
        MaterialStep::Scaled { left, right } => {
            SceneReply::Text(TextReply::Scaled(scaled(left, right)))
        }
        MaterialStep::DrawGlyphs => {
            world.drawn.push("glyphs".to_string());
            world.runs.push(
                material
                    .text
                    .glyphs
                    .iter()
                    .map(|glyph| {
                        (glyph.code, glyph.transform.e.scaled / 1_000_000, glyph.transform.a.scaled / ONE)
                    })
                    .collect(),
            );
            SceneReply::Text(TextReply::Drawn(Ok(())))
        }
        MaterialStep::DrawImage { image, .. } => {
            world.drawn.push(format!("image {image}"));
            SceneReply::Scene(Ok(()))
        }
        MaterialStep::AppendForm(form) => {
            world.drawn.push(format!("form {form}"));
            SceneReply::Scene(Ok(()))
        }
        MaterialStep::Action(action) => {
            world.drawn.push(
                match action {
                    ExecutionAction::BeginMarkedContent { .. } => "begin",
                    ExecutionAction::EndMarkedContent { .. } => "end",
                    ExecutionAction::Save { .. } => "save",
                    ExecutionAction::Restore { .. } => "restore",
                    ExecutionAction::BeginGroup { .. } => "group",
                    ExecutionAction::EndGroup { .. } => "ungroup",
                    ExecutionAction::Clip { .. } => "clip",
                    ExecutionAction::Fill { .. } => "fill",
                    ExecutionAction::Stroke { .. } => "stroke",
                    ExecutionAction::FillStroke { .. } => "fillstroke",
                    _ => "other",
                }
                .to_string(),
            );
            SceneReply::Scene(Ok(()))
        }
        MaterialStep::Proceed | MaterialStep::Finish => panic!("nothing was asked"),
    }
}

/// Serves requests until there is a terminal outcome.
fn drive(world: &mut World, run: &mut Interpretation) {
    let source = FixedSource(snapshot());
    let guard =
        RuntimeGuard { snapshot: snapshot(), source: &source, cancellation: &NeverCancelled };
    loop {
        let served = match run.poll(&guard) {
            JobRequest::Ready | JobRequest::Unsupported(_) | JobRequest::Failed(_) => return,
            JobRequest::Corners { matrix, corners } => {
                let corners = corners.map(|corner| mapped(matrix, corner));
                run.open(&corners, &guard)
            }
            JobRequest::Answer(requirement) => {
                let answer = answer(world, requirement);
                run.plan(&answer, &guard)
            }
            JobRequest::LookupImage(_) => {
                run.image_found(ImageLookup::Ready(proof_of(10)), &guard)
            }
            JobRequest::LookupFont { place, .. } => {
                run.font_found(place, FontLookup::Ready(proof_of(20)), &guard)
            }
            JobRequest::Images(step) => match serve_image(world, run, step, &guard) {
                Ok(_) => Ok(()),
                Err(stop) => {
                    run.settle(stop);
                    Err(stop)
                }
            },
            JobRequest::Fonts(step) => {
                let fonts = run.fonts.as_mut().unwrap();
                let outcome = match step {
                    FontStep::Acquire(_) => fonts.acquisition_started(Ok(())),
                    _ => fonts
                        .font_polled(
                            FontPoll::Ready {
                                resource: proof_of(20),
                                retained_bytes: 100,
                                face: face(),
                            },
                            &guard,
                        )
                        .map(|_| ()),
                };
                if let Err(stop) = outcome {
                    run.settle(stop);
                }
                outcome
            }
            JobRequest::Scene(MaterialStep::Finish) => run.finish(Ok(()), &guard),
            JobRequest::Scene(step) => {
                let mut step = step;
                let mut outcome = Ok(());
                while step != MaterialStep::Proceed {
                    let reply = serve_scene(world, run, step);
                    match run.material.as_mut().unwrap().resume(reply, &guard) {
                        Ok(next) => step = next,
                        Err(stop) => {
                            run.settle(stop);
                            outcome = Err(stop);
                            break;
                        }
                    }
                }
                outcome
            }
        };
        if served.is_err() {
            assert!(run.phase() != ContentVmPhase::Pending);
        }
    }
}

fn stream(content: &[u8]) -> Vec<OwnedStream> {
    vec![OwnedStream { object: object(1), ordinal: 0, decoded: content.to_vec() }]
}

fn authority() -> RevisionAuthority {
    RevisionAuthority { snapshot: snapshot(), revision_id: 1, startxref: 9 }
}

fn image_profile() -> ContentImageProfile {
    ContentImageProfile::new(authority(), 1, ContentImageLimits::default())
}

fn font_profile() -> ContentFontProfile {
    ContentFontProfile::new(authority(), 1, ContentFontLimits::default())
}

fn form_profile() -> ContentFormProfile {
    ContentFormProfile::new(
        authority(),
        1,
        2,
        ContentLimits::default(),
        ContentVmLimits::default(),
        ContentGraphicsLimits::default(),
        image_profile(),
        font_profile(),
    )
    .unwrap()
}

fn plain(content: &[u8]) -> Interpretation {
    InterpretPageJob::new(
        snapshot(),
        stream(content),
        ContentLimits::default(),
        ContentVmLimits::default(),
    )
    .run
}

fn graphics(content: &[u8]) -> Interpretation {
    InterpretPageJob::new_graphics_v2(
        snapshot(),
        stream(content),
        ContentLimits::default(),
        ContentVmLimits::default(),
        ContentGraphicsLimits::default(),
    )
    .run
}

fn full(content: &[u8]) -> Interpretation {
    InterpretPageJob::new_graphics_v2_with_images_and_fonts(
        snapshot(),
        stream(content),
        ContentLimits::default(),
        ContentVmLimits::default(),
        ContentGraphicsLimits::default(),
        image_profile(),
        font_profile(),
    )
    .run
}

fn failure(mut run: Interpretation) -> ContentVmErrorCode {
    drive(&mut world(), &mut run);
    match run.state {
        pdf_content::RunState::Failed(ContentVmFailure::Vm(error)) => error.code(),
        _ => panic!("expected a failure, not {:?}", run.state),
    }
}

fn unsupported(mut run: Interpretation) -> ContentUnsupportedKind {
    drive(&mut world(), &mut run);
    match run.state {
        pdf_content::RunState::Unsupported(outcome) => outcome.kind(),
        _ => panic!("expected an unsupported outcome, not {:?}", run.state),
    }
}

fn drawn(mut run: Interpretation) -> Vec<String> {
    let mut world = world();
    drive(&mut world, &mut run);
    assert_eq!(run.phase(), ContentVmPhase::Ready, "{:?}", run.state);
    world.drawn
}

#[test]
fn painted_paths_are_mapped_through_the_current_transform() {
    let mut run = graphics(b"q 2 0 0 2 10 20 cm 0 0 m 5 0 l h S Q");
    let mut world = world();
    let source = FixedSource(snapshot());
    let guard =
        RuntimeGuard { snapshot: snapshot(), source: &source, cancellation: &NeverCancelled };
    loop {
        match run.poll(&guard) {
            JobRequest::Answer(requirement) => {
                let answer = answer(&world, requirement);
                run.plan(&answer, &guard).unwrap();
            }
            JobRequest::Scene(step) => {
                let plan = &run.material.as_ref().unwrap().plan;
                assert_eq!(
                    plan.paths[0].segments,
                    vec![
                        PathSegment::MoveTo(point(10, 20)),
                        PathSegment::LineTo(point(20, 20)),
                        PathSegment::ClosePath,
                    ]
                );
                assert!(matches!(step, MaterialStep::Action(ExecutionAction::Save { .. })));
                break;
            }
            _ => panic!("unexpected request"),
        }
    }
    world.drawn.clear();
    let mut run = graphics(b"q 2 0 0 2 10 20 cm 0 0 m 5 0 l h S Q");
    drive(&mut world, &mut run);
    assert_eq!(world.drawn, ["save", "stroke", "restore"]);
    assert_eq!(run.execution.as_ref().unwrap().final_ctm, Matrix::identity());
    assert_eq!(run.vm_stats().operators, 7);
    assert_eq!(run.vm_stats().max_graphics_depth, 1);
}

#[test]
fn terminal_outcomes_are_replayed() {
    let mut run = graphics(b"q");
    drive(&mut world(), &mut run);
    let source = FixedSource(snapshot());
    let guard =
        RuntimeGuard { snapshot: snapshot(), source: &source, cancellation: &NeverCancelled };
    for _ in 0..3 {
        match run.poll(&guard) {
            JobRequest::Failed(ContentVmFailure::Vm(error)) => {
                assert_eq!(error.code(), ContentVmErrorCode::InvalidGraphicsState);
                assert_eq!(error.source(), None);
            }
            _ => panic!("expected a failure"),
        }
    }
    assert!(run.images.is_none() && run.plan.is_none() && run.input.is_none());
}

#[test]
fn unbalanced_content_is_refused() {
    assert_eq!(failure(graphics(b"Q")), ContentVmErrorCode::InvalidGraphicsState);
    assert_eq!(failure(plain(b"q")), ContentVmErrorCode::InvalidGraphicsState);
    assert_eq!(failure(graphics(b"BT")), ContentVmErrorCode::InvalidTextObject);
    assert_eq!(failure(plain(b"ET")), ContentVmErrorCode::InvalidTextObject);
    assert_eq!(failure(graphics(b"BX")), ContentVmErrorCode::InvalidCompatibilityState);
    assert_eq!(failure(graphics(b"EX")), ContentVmErrorCode::InvalidCompatibilityState);
    assert_eq!(failure(plain(b"/T BMC")), ContentVmErrorCode::InvalidMarkedContentState);
    assert_eq!(failure(plain(b"EMC")), ContentVmErrorCode::InvalidMarkedContentState);
}

#[test]
fn malformed_operands_are_refused() {
    assert_eq!(failure(graphics(b"1 2 3 m")), ContentVmErrorCode::InvalidOperandCount);
    assert_eq!(failure(graphics(b"/a 2 m")), ContentVmErrorCode::InvalidOperandType);
    assert_eq!(failure(graphics(b"5 5 l")), ContentVmErrorCode::InvalidPathState);
    assert_eq!(failure(graphics(b"BT 0 0 m ET")), ContentVmErrorCode::InvalidOperatorContext);
    assert_eq!(failure(graphics(b"9 J")), ContentVmErrorCode::InvalidGraphicsParameter);
    assert_eq!(failure(graphics(b"[1] -1 d")), ContentVmErrorCode::InvalidGraphicsParameter);
    assert_eq!(failure(graphics(b"[-1] 0 d")), ContentVmErrorCode::InvalidGraphicsParameter);
    assert_eq!(failure(graphics(b"[/a] 0 d")), ContentVmErrorCode::InvalidOperandType);
    assert_eq!(failure(graphics(b"0.0000000001 w")), ContentVmErrorCode::NumericPrecision);
    assert_eq!(failure(graphics(b"99999999999 w")), ContentVmErrorCode::NumericOverflow);
}

#[test]
fn a_dash_that_the_scene_refuses_is_refused() {
    let mut world = world();
    world.dash_taken = false;
    let mut run = graphics(b"[0] 0 d");
    drive(&mut world, &mut run);
    match run.state {
        pdf_content::RunState::Failed(ContentVmFailure::Vm(error)) => {
            assert_eq!(error.code(), ContentVmErrorCode::InvalidGraphicsParameter)
        }
        _ => panic!("expected a failure"),
    }
}

#[test]
fn features_outside_the_profile_are_reported() {
    assert_eq!(unsupported(plain(b"0 0 m")), ContentUnsupportedKind::GraphicsV2Operator);
    assert_eq!(unsupported(plain(b"[1] 0 d")), ContentUnsupportedKind::GraphicsV2Operator);
    assert_eq!(unsupported(plain(b"/a gs")), ContentUnsupportedKind::GraphicsV2Operator);
    assert_eq!(
        unsupported(graphics(b"/a gs")),
        ContentUnsupportedKind::ExtGStateProfileRequired
    );
    assert_eq!(unsupported(graphics(b"/a Do")), ContentUnsupportedKind::ImageProfileRequired);
    assert_eq!(
        unsupported(graphics(b"BT 1 Tc ET")),
        ContentUnsupportedKind::FontProfileRequired
    );
    assert_eq!(unsupported(graphics(b"/a MP")), ContentUnsupportedKind::MarkedContentPoint);
    assert_eq!(
        unsupported(graphics(b"/a /b DP")),
        ContentUnsupportedKind::MarkedContentPointProperties
    );
    assert_eq!(
        unsupported(graphics(b"/a <<>> BDC")),
        ContentUnsupportedKind::DirectContentPropertyDictionary
    );
    assert_eq!(unsupported(full(b"BT 3 Tr ET")), ContentUnsupportedKind::TextRenderMode);
    assert_eq!(
        unsupported(full(b"BT /F 1 Tf (\\200) Tj ET")),
        ContentUnsupportedKind::TextEncoding
    );
    assert_eq!(failure(full(b"BT 8 Tr ET")), ContentVmErrorCode::InvalidGraphicsParameter);
    assert_eq!(failure(full(b"BT (A) Tj ET")), ContentVmErrorCode::InvalidTextObject);
}

#[test]
fn unknown_operators_pass_inside_compatibility_sections() {
    assert_eq!(unsupported(plain(b"foo")), ContentUnsupportedKind::UnknownOperator);
    assert!(drawn(plain(b"BX 1 2 foo EX")).is_empty());
}

#[test]
fn marked_content_is_planned_without_graphics_only() {
    assert_eq!(drawn(plain(b"/T BMC /T /P BDC EMC EMC")), ["begin", "begin", "end", "end"]);
    let mut run = plain(b"/T /P BDC EMC");
    drive(&mut world(), &mut run);
    let execution = run.execution.as_ref().unwrap();
    assert_eq!(execution.property_uses.len(), 1);
    assert_eq!(execution.property_uses[0].resource, proof_of(30));
    assert!(drawn(graphics(b"/T BMC EMC")).is_empty());
}

#[test]
fn property_lookups_decide_between_unsupported_and_failed() {
    for (unsupported, expected) in [(true, ContentVmPhase::Unsupported), (false, ContentVmPhase::Failed)] {
        let mut world = world();
        world.property = Err(DocumentError { code: 5, unsupported });
        let mut run = plain(b"/T /P BDC EMC");
        drive(&mut world, &mut run);
        assert_eq!(run.phase(), expected);
    }
}

#[test]
fn clips_follow_the_paint_of_their_path() {
    assert_eq!(drawn(graphics(b"0 0 4 4 re W f 0 0 m n")), ["fill", "clip"]);
    assert_eq!(drawn(graphics(b"0 0 4 4 re W* n")), ["clip"]);
    assert_eq!(drawn(graphics(b"0 0 m 1 1 l B*")), ["fillstroke"]);
}

#[test]
fn external_graphics_states_change_the_paints() {
    let state = ContentExtGStateResource::new(
        b"GS".to_vec(),
        AttestedObject {
            reference: object(8),
            object_start: 0,
            snapshot: snapshot(),
            revision_id: 1,
            revision_startxref: 9,
            value: AttestedValue::Dictionary(vec![SyntaxEntry {
                key: b"BM".to_vec(),
                value_start: 0,
                value: SyntaxObject::Name(b"Screen".to_vec()),
            }]),
        },
    )
    .unwrap_or_else(|_| panic!("expected a state"));
    let profile = ContentExtGStateProfile::new(vec![state])
        .unwrap_or_else(|_| panic!("expected a registry"));
    let mut run = InterpretPageJob::new_graphics_v2_with_resources(
        snapshot(),
        stream(b"/GS gs 0 0 m 1 1 l f"),
        ContentLimits::default(),
        ContentVmLimits::default(),
        ContentGraphicsLimits::default(),
        image_profile(),
        font_profile(),
        profile,
    )
    .run;
    let source = FixedSource(snapshot());
    let guard =
        RuntimeGuard { snapshot: snapshot(), source: &source, cancellation: &NeverCancelled };
    let world = world();
    loop {
        match run.poll(&guard) {
            JobRequest::Answer(requirement) => {
                let answer = answer(&world, requirement);
                run.plan(&answer, &guard).unwrap();
            }
            JobRequest::Scene(MaterialStep::Action(ExecutionAction::Fill { paint, rule, .. })) => {
                assert_eq!(paint.blend_mode(), BlendMode::Screen);
                assert_eq!(paint.alpha(), SceneUnit::from_u16(65_535));
                assert_eq!(rule, FillRule::Nonzero);
                return;
            }
            _ => panic!("unexpected request"),
        }
    }
}

#[test]
fn shown_text_places_one_glyph_for_each_byte() {
    let mut world = world();
    let mut run = full(b"BT /F 10 Tf 100 0 Td (AB) Tj [(A) -500 (B)] TJ ET");
    drive(&mut world, &mut run);
    assert_eq!(run.phase(), ContentVmPhase::Ready, "{:?}", run.state);
    assert_eq!(
        world.runs,
        vec![
            vec![(65, 100_000, 10), (66, 105_000, 10)],
            vec![(65, 115_000, 10), (66, 125_000, 10)],
        ]
    );
    let execution = run.execution.as_ref().unwrap();
    assert_eq!(execution.font_uses.len(), 1);
    assert_eq!(execution.font_uses[0].resource, proof_of(20));
    assert_eq!(execution.font_uses[0].resource_source.reference, object(20));
    assert_eq!(execution.font_uses[0].resource_source.decode_context, 0x6d33_666f_6e74_0001);
    assert_eq!(run.font_stats().unwrap().font_uses, 1);
    let totals = run.totals();
    assert_eq!((totals.text_bytes, totals.text_adjustments), (4, 1));
    assert_eq!((totals.glyphs, totals.outline_segments), (4, 8));
    assert_eq!(totals.font_operators, 6);
}

#[test]
fn spacing_scaling_and_lines_move_the_text() {
    let mut world = world();
    let mut run = full(b"BT /F 10 Tf 50 Tz 4 TL 1 2 (A) \" T* (A) ' ET");
    drive(&mut world, &mut run);
    assert_eq!(run.phase(), ContentVmPhase::Ready, "{:?}", run.state);
    assert_eq!(world.runs, vec![vec![(65, 0, 5)], vec![(65, 0, 5)]]);
}

#[test]
fn outlines_are_shared_within_a_run() {
    let mut run = full(b"BT /F 10 Tf (ABA) Tj ET");
    let mut world = world();
    let source = FixedSource(snapshot());
    let guard =
        RuntimeGuard { snapshot: snapshot(), source: &source, cancellation: &NeverCancelled };
    loop {
        match run.poll(&guard) {
            JobRequest::LookupFont { place, name } => {
                assert_eq!(name, b"F");
                run.font_found(place, FontLookup::Ready(proof_of(20)), &guard).unwrap();
            }
            JobRequest::Fonts(FontStep::Acquire(key)) => {
                assert_eq!(key, proof_of(20));
                run.fonts.as_mut().unwrap().acquisition_started(Ok(())).unwrap();
            }
            JobRequest::Fonts(_) => {
                let poll = FontPoll::Ready {
                    resource: proof_of(20),
                    retained_bytes: 1,
                    face: face(),
                };
                assert!(run.fonts.as_mut().unwrap().font_polled(poll, &guard).is_ok());
            }
            JobRequest::Scene(step) => {
                let mut step = step;
                while step != MaterialStep::DrawGlyphs {
                    let reply = serve_scene(&mut world, &mut run, step);
                    step = run.material.as_mut().unwrap().resume(reply, &guard).unwrap();
                }
                let text = &run.material.as_ref().unwrap().text;
                let places: Vec<usize> = text.glyphs.iter().map(|glyph| glyph.outline).collect();
                assert_eq!(places, [0, 1, 0]);
                assert_eq!(text.outlines.len(), 2);
                assert_eq!(text.outlines[0].segments.len(), 3);
                assert_eq!(
                    text.outlines[1].segments,
                    [GlyphSegment::MoveTo(ScenePoint::new(scalar(2), scalar(2)))]
                );
                return;
            }
            _ => panic!("unexpected request"),
        }
    }
}

#[test]
fn one_acquisition_serves_every_use_of_an_image() {
    let mut world = world();
    let mut run = full(b"/Im Do q 3 0 0 3 0 0 cm /Im Do Q");
    drive(&mut world, &mut run);
    assert_eq!(run.phase(), ContentVmPhase::Ready, "{:?}", run.state);
    assert_eq!(world.image_jobs, 1);
    assert_eq!(world.drawn, ["image 0", "save", "image 0", "restore"]);
    let execution = run.execution.as_ref().unwrap();
    assert_eq!(execution.image_uses.len(), 2);
    assert_eq!(execution.image_uses[1].resource_source.reference, object(10));
    assert_eq!(execution.image_uses[1].resource_source.revision_startxref, 9);
    let stats = run.image_stats().unwrap();
    assert_eq!(stats.image_uses, 2);
    assert_eq!(stats.decoded_bytes, 2);
    assert_eq!(stats.work.lookups, 2);
    assert_eq!(stats.work.cache_hits, 1);
    assert_eq!(stats.work.cache_probes, 1);
}

#[test]
fn pending_acquisitions_resume() {
    let mut world = world();
    world.pending_once = true;
    let mut run = full(b"/Im Do");
    drive(&mut world, &mut run);
    assert_eq!(run.phase(), ContentVmPhase::Ready, "{:?}", run.state);
    assert_eq!(run.image_stats().unwrap().work.acquisition_polls, 2);
}

#[test]
fn objects_that_are_no_images_become_forms_where_forms_are_enabled() {
    let mut world = world();
    world.forms = true;
    let mut run = full(b"/Fm Do");
    drive(&mut world, &mut run);
    match run.state {
        pdf_content::RunState::Unsupported(outcome) => assert_eq!(
            outcome.kind(),
            ContentUnsupportedKind::ImageResource(ImageUnsupported::NonImageXObject)
        ),
        _ => panic!("expected an unsupported outcome"),
    }
    let mut run = full(b"/Fm Do").with_forms(form_profile()).unwrap_or_else(|_| panic!("expected forms"));
    drive(&mut world, &mut run);
    assert_eq!(run.phase(), ContentVmPhase::Ready, "{:?}", run.state);
    assert_eq!(world.drawn, ["form 78"]);
    assert_eq!(run.execution.as_ref().unwrap().form_uses[0].form, 78);
}

#[test]
fn forms_need_images_and_are_enabled_once() {
    match graphics(b"").with_forms(form_profile()) {
        Ok(_) => panic!("expected an error"),
        Err(error) => assert_eq!(error.code(), ContentVmErrorCode::InvalidLimits),
    }
    let enabled = full(b"").with_forms(form_profile()).unwrap_or_else(|_| panic!("expected forms"));
    match enabled.with_forms(form_profile()) {
        Ok(_) => panic!("expected an error"),
        Err(error) => assert_eq!(error.code(), ContentVmErrorCode::InternalState),
    }
}

fn form(content: &[u8], group: bool) -> Interpretation {
    let frame = FormFrame {
        bbox: FormBox { left: scalar(0), bottom: scalar(0), right: scalar(2), top: scalar(1) },
        simple_transparency_group: group,
    };
    let ctm = Matrix { e: scalar(5), ..Matrix::identity() };
    InterpretFormJob::new_graphics_v2_with_images_and_fonts(
        snapshot(),
        object(9),
        content.to_vec(),
        frame,
        Ok(ctm),
        ContentLimits::default(),
        ContentVmLimits::default(),
        ContentGraphicsLimits::default(),
        image_profile(),
        font_profile(),
    )
    .unwrap_or_else(|_| panic!("expected a job"))
    .run
}

#[test]
fn forms_are_framed_by_their_box_and_group() {
    assert_eq!(
        drawn(form(b"0 0 m 1 1 l f", true)),
        ["save", "clip", "group", "fill", "ungroup", "restore"]
    );
    assert_eq!(drawn(form(b"n", false)), ["save", "clip", "restore"]);
    assert!(drawn(form(b"", true)).is_empty());
    let mut run = form(b"n", false);
    let source = FixedSource(snapshot());
    let guard =
        RuntimeGuard { snapshot: snapshot(), source: &source, cancellation: &NeverCancelled };
    match run.poll(&guard) {
        JobRequest::Corners { matrix, corners } => {
            run.open(&corners.map(|corner| mapped(matrix, corner)), &guard).unwrap();
        }
        _ => panic!("expected corners"),
    }
    match run.poll(&guard) {
        JobRequest::Scene(MaterialStep::Action(ExecutionAction::Save { bounds, .. })) => {
            assert_eq!(
                bounds,
                SceneBounds::Finite { minimum: point(5, 0), maximum: point(7, 1) }
            );
        }
        _ => panic!("expected the opening state"),
    }
    assert_eq!(run.vm_stats().max_graphics_depth, 1);
}

#[test]
fn a_form_that_cannot_be_placed_is_refused() {
    let job = InterpretFormJob::new_graphics_v2_with_images_and_fonts(
        snapshot(),
        object(9),
        Vec::new(),
        FormFrame {
            bbox: FormBox { left: scalar(0), bottom: scalar(0), right: scalar(1), top: scalar(1) },
            simple_transparency_group: false,
        },
        Err(SceneError::NumericOverflow),
        ContentLimits::default(),
        ContentVmLimits::default(),
        ContentGraphicsLimits::default(),
        image_profile(),
        font_profile(),
    );
    assert!(matches!(job, Err(SceneError::NumericOverflow)));
}

#[test]
fn a_source_that_changed_outranks_cancellation_and_content() {
    let moved = SourceSnapshot::new(
        SourceIdentity { value: 3 },
        Some(64),
        SourceValidator { value: 5 },
    );
    let source = FixedSource(moved);
    let guard =
        RuntimeGuard { snapshot: snapshot(), source: &source, cancellation: &AlwaysCancelled };
    let mut run = graphics(b"Q");
    match run.poll(&guard) {
        JobRequest::Failed(ContentVmFailure::Vm(error)) => {
            assert_eq!(error.code(), ContentVmErrorCode::SourceSnapshotMismatch)
        }
        _ => panic!("expected a failure"),
    }
    let source = FixedSource(snapshot());
    let guard =
        RuntimeGuard { snapshot: snapshot(), source: &source, cancellation: &AlwaysCancelled };
    let mut run = graphics(b"Q");
    match run.poll(&guard) {
        JobRequest::Failed(ContentVmFailure::Vm(error)) => {
            assert_eq!(error.code(), ContentVmErrorCode::Cancelled)
        }
        _ => panic!("expected a failure"),
    }
}

fn limited(content: &[u8], config: ContentVmLimitConfig) -> ContentVmErrorCode {
    failure(
        InterpretPageJob::new_graphics_v2(
            snapshot(),
            stream(content),
            ContentLimits::default(),
            ContentVmLimits::validate(config).unwrap(),
            ContentGraphicsLimits::default(),
        )
        .run,
    )
}

#[test]
fn interpreter_budgets_stop_planning() {
    let config = ContentVmLimitConfig::default();
    let code = ContentVmErrorCode::ResourceLimit;
    assert_eq!(limited(b"n n", ContentVmLimitConfig { max_operators: 1, ..config }), code);
    assert_eq!(limited(b"q q", ContentVmLimitConfig { max_graphics_state_depth: 1, ..config }), code);
    assert_eq!(limited(b"BX BX", ContentVmLimitConfig { max_compatibility_depth: 1, ..config }), code);
    assert_eq!(
        limited(b"/a BMC /a BMC", ContentVmLimitConfig { max_marked_content_depth: 1, ..config }),
        code
    );
    assert_eq!(limited(b"n n n n n", ContentVmLimitConfig { max_fuel: 2, ..config }), code);
    assert_eq!(limited(b"q", ContentVmLimitConfig { max_retained_bytes: 1, ..config }), code);
}

#[test]
fn graphics_and_image_budgets_stop_planning() {
    let limits = ContentGraphicsLimits::validate(ContentGraphicsLimitConfig {
        max_path_segments: 1,
        ..Default::default()
    })
    .unwrap();
    let run = InterpretPageJob::new_graphics_v2(
        snapshot(),
        stream(b"0 0 m 1 1 l"),
        ContentLimits::default(),
        ContentVmLimits::default(),
        limits,
    )
    .run;
    assert_eq!(failure(run), ContentVmErrorCode::ResourceLimit);
    let limits = ContentImageLimits::validate(ContentImageLimitConfig {
        max_image_uses: 1,
        ..Default::default()
    })
    .unwrap();
    let run = InterpretPageJob::new_graphics_v2_with_images(
        snapshot(),
        stream(b"/a Do /a Do"),
        ContentLimits::default(),
        ContentVmLimits::default(),
        ContentGraphicsLimits::default(),
        ContentImageProfile::new(authority(), 1, limits),
    )
    .run;
    assert_eq!(failure(run), ContentVmErrorCode::ResourceLimit);
}

#[test]
fn lookups_decide_between_unsupported_and_failed() {
    let source = FixedSource(snapshot());
    let guard =
        RuntimeGuard { snapshot: snapshot(), source: &source, cancellation: &NeverCancelled };
    let mut run = full(b"/Im Do");
    assert!(matches!(run.poll(&guard), JobRequest::LookupImage(name) if name == b"Im"));
    let outcome = ImageLookup::Unsupported(ImageUnsupported::Other(2));
    assert!(run.image_found(outcome, &guard).is_err());
    assert_eq!(run.phase(), ContentVmPhase::Unsupported);
    let mut run = full(b"/Im Do");
    let _ = run.poll(&guard);
    let outcome = ImageLookup::Failed(DocumentError { code: 1, unsupported: false });
    assert!(run.image_found(outcome, &guard).is_err());
    assert_eq!(run.phase(), ContentVmPhase::Failed);
}

#[test]
fn an_image_of_another_proof_is_refused() {
    let source = FixedSource(snapshot());
    let guard =
        RuntimeGuard { snapshot: snapshot(), source: &source, cancellation: &NeverCancelled };
    let mut run = full(b"/Im Do");
    let _ = run.poll(&guard);
    run.image_found(ImageLookup::Ready(proof_of(10)), &guard).unwrap();
    assert!(matches!(run.poll(&guard), JobRequest::Images(ImageStep::AcquireImage(_))));
    let images = run.images.as_mut().unwrap();
    images.acquisition_started(Ok(())).unwrap();
    assert!(matches!(run.poll(&guard), JobRequest::Images(ImageStep::PollImage)));
    let images = run.images.as_mut().unwrap();
    let outcome = ImagePoll::Ready(gray_image(11));
    match images.image_polled(outcome, &guard) {
        Err(RunStop::Failed(ContentVmFailure::Vm(error))) => {
            assert_eq!(error.code(), ContentVmErrorCode::InternalState)
        }
        _ => panic!("expected a failure"),
    }
}

#[test]
fn scanner_failures_end_the_interpretation() {
    let mut run = graphics(b"(");
    drive(&mut world(), &mut run);
    assert!(matches!(
        run.state,
        pdf_content::RunState::Failed(ContentVmFailure::Content(_))
    ));
}

#[test]
fn nested_forms_run_under_the_child_profile() {
    let frame = FormFrame {
        bbox: FormBox { left: scalar(0), bottom: scalar(0), right: scalar(1), top: scalar(1) },
        simple_transparency_group: false,
    };
    let nested = |profile: &ContentFormProfile| {
        nested_form_job(
            profile,
            snapshot(),
            object(9),
            b"/Fm Do".to_vec(),
            frame,
            Ok(Matrix::identity()),
            None,
        )
        .unwrap_or_else(|_| panic!("expected a job"))
    };
    let outer = nested(&form_profile());
    let child = outer.run.images.as_ref().unwrap().forms.unwrap();
    assert_eq!(child.remaining_depth, 1);
    let inner = nested(&child);
    assert!(inner.run.images.as_ref().unwrap().forms.is_none());
    let mut run = inner.run;
    let mut world = world();
    world.forms = true;
    drive(&mut world, &mut run);
    assert_eq!(run.phase(), ContentVmPhase::Unsupported);
}

#[test]
fn a_pending_interpretation_is_guarded_before_it_goes_on() {
    let source = FixedSource(snapshot());
    let cancelled =
        RuntimeGuard { snapshot: snapshot(), source: &source, cancellation: &AlwaysCancelled };
    let mut run = graphics(b"n");
    match run.begin_poll(&cancelled) {
        Err(RunStop::Failed(ContentVmFailure::Vm(error))) => {
            assert_eq!(error.code(), ContentVmErrorCode::Cancelled);
            assert_eq!(error.source(), None);
        }
        _ => panic!("expected a failure"),
    }
    assert_eq!(run.phase(), ContentVmPhase::Failed);
    assert!(run.begin_poll(&cancelled).is_ok());
}

#[test]
fn a_subpath_is_closed_once() {
    let mut run = graphics(b"0 0 m 1 0 l h h S");
    let world = world();
    let source = FixedSource(snapshot());
    let guard =
        RuntimeGuard { snapshot: snapshot(), source: &source, cancellation: &NeverCancelled };
    loop {
        match run.poll(&guard) {
            JobRequest::Answer(requirement) => {
                let answer = answer(&world, requirement);
                run.plan(&answer, &guard).unwrap();
            }
            JobRequest::Scene(_) => {
                let plan = &run.material.as_ref().unwrap().plan;
                assert_eq!(plan.paths[0].segments.len(), 3);
                assert_eq!(plan.paths[0].segments[2], PathSegment::ClosePath);
                return;
            }
            _ => panic!("unexpected request"),
        }
    }
}

#[test]
fn saved_states_bring_the_font_selection_back() {
    assert_eq!(
        failure(full(b"q BT /F 1 Tf ET Q BT (A) Tj ET")),
        ContentVmErrorCode::InvalidTextObject
    );
}

#[test]
fn a_failed_scan_keeps_its_work() {
    let mut run = plain(b"q Q ]");
    drive(&mut world(), &mut run);
    assert!(matches!(run.state, pdf_content::RunState::Failed(ContentVmFailure::Content(_))));
    assert_eq!(run.scan_stats().operators(), 2);
    assert!(run.scan_stats().fuel() > 0);
    assert_eq!(run.vm_stats().operators, 0);
    assert_eq!(run.vm_stats().peak_retained_bytes, run.scan_peak_retained);
    assert!(run.scan_peak_retained >= run.scan_stats().retained_bytes());
}

#[test]
fn planning_that_fails_keeps_its_work() {
    let mut run = graphics(b"q 1 w 0 0 m Q Q");
    drive(&mut world(), &mut run);
    assert!(matches!(run.state, pdf_content::RunState::Failed(ContentVmFailure::Vm(_))));
    assert_eq!(run.scan_stats().operators(), 5);
    assert_eq!(run.vm_stats().operators, 5);
    assert!(run.vm_stats().fuel >= 5);
    assert_eq!(run.vm_stats().max_graphics_depth, 1);
    assert!(run.builder.is_none() && run.images.is_none() && run.material.is_none());
}

/// How many properties are looked up before an interpretation ends, and how it ends.
fn property_lookups(content: &[u8], config: ContentVmLimitConfig) -> (u32, ContentVmPhase) {
    let mut run = InterpretPageJob::new(
        snapshot(),
        stream(content),
        ContentLimits::default(),
        ContentVmLimits::validate(config).unwrap(),
    )
    .run;
    let source = FixedSource(snapshot());
    let guard =
        RuntimeGuard { snapshot: snapshot(), source: &source, cancellation: &NeverCancelled };
    let mut lookups = 0;
    loop {
        match run.poll(&guard) {
            JobRequest::Answer(Requirement::Property { name }) => {
                assert_eq!(name, b"P");
                lookups += 1;
                if run.plan(&Answer::Property(Ok(proof_of(30))), &guard).is_err() {
                    assert_eq!(run.phase(), ContentVmPhase::Failed);
                }
            }
            JobRequest::Scene(MaterialStep::Finish) => {
                assert!(run.finish(Ok(()), &guard).is_ok());
            }
            JobRequest::Scene(_) => {
                let reply = SceneReply::Scene(Ok(()));
                assert!(run.material.as_mut().unwrap().resume(reply, &guard).is_ok());
            }
            JobRequest::Ready | JobRequest::Failed(_) => return (lookups, run.phase()),
            _ => panic!("unexpected request"),
        }
    }
}

#[test]
fn properties_are_looked_up_once_their_operator_is_admitted() {
    let config = ContentVmLimitConfig::default();
    let nested = b"/T /P BDC /T /P BDC EMC EMC";
    assert_eq!(property_lookups(nested, config), (2, ContentVmPhase::Ready));
    let failed = ContentVmPhase::Failed;
    assert_eq!(
        property_lookups(nested, ContentVmLimitConfig { max_marked_content_depth: 1, ..config }),
        (1, failed)
    );
    assert_eq!(
        property_lookups(nested, ContentVmLimitConfig { max_property_uses: 1, ..config }),
        (1, failed)
    );
    assert_eq!(
        property_lookups(nested, ContentVmLimitConfig { max_operators: 1, ..config }),
        (1, failed)
    );
    assert_eq!(
        property_lookups(b"/T /P BDC EMC", ContentVmLimitConfig { max_fuel: 1, ..config }),
        (0, failed)
    );
    assert_eq!(
        property_lookups(b"/T /P BDC EMC", ContentVmLimitConfig { max_retained_bytes: 1, ..config }),
        (0, failed)
    );
}

#[test]
fn an_awaited_property_is_charged_already() {
    let mut run = plain(b"/T /P BDC EMC");
    let source = FixedSource(snapshot());
    let guard =
        RuntimeGuard { snapshot: snapshot(), source: &source, cancellation: &NeverCancelled };
    assert!(matches!(
        run.poll(&guard),
        JobRequest::Answer(Requirement::Property { .. })
    ));
    let planner = &run.builder.as_ref().unwrap().planner;
    assert!(planner.awaiting);
    assert_eq!(planner.accounting.operators, 1);
    assert_eq!(planner.accounting.property_uses, 0);
    let cancelled =
        RuntimeGuard { snapshot: snapshot(), source: &source, cancellation: &AlwaysCancelled };
    assert!(run.plan(&Answer::Property(Ok(proof_of(30))), &cancelled).is_err());
    assert_eq!(run.phase(), ContentVmPhase::Failed);
    assert_eq!(run.vm_stats().operators, 1);
    assert_eq!(run.vm_stats().property_uses, 0);
}

/// Takes note of how often it was asked, and never stops.
struct Counting(AtomicU32);

impl ContentCancellation for Counting {
    fn is_cancelled(&self) -> bool {
        self.0.fetch_add(1, Ordering::SeqCst);
        false
    }
}

#[test]
fn a_run_that_goes_on_asked_its_cancellation() {
    let source = FixedSource(snapshot());
    let counting = Counting(AtomicU32::new(0));
    let guard = RuntimeGuard { snapshot: snapshot(), source: &source, cancellation: &counting };
    let mut run = graphics(b"q Q");
    assert!(run.begin_poll(&guard).is_ok());
    assert_eq!(counting.0.load(Ordering::SeqCst), 1);
    assert!(run.scan(&guard).is_ok());
    let scanned = counting.0.load(Ordering::SeqCst);
    assert!(scanned > 1);
    assert!(run.plan(&Answer::Nothing, &guard).is_ok());
    assert!(counting.0.load(Ordering::SeqCst) >= scanned + 3);
}

#[test]
fn a_stopped_materialization_keeps_its_peak() {
    let source = FixedSource(snapshot());
    let guard =
        RuntimeGuard { snapshot: snapshot(), source: &source, cancellation: &NeverCancelled };
    let mut run = graphics(b"q 0 0 4 4 re f Q");
    loop {
        match run.poll(&guard) {
            JobRequest::Answer(requirement) => {
                let answer = answer(&world(), requirement);
                assert!(run.plan(&answer, &guard).is_ok());
            }
            JobRequest::Scene(_) => break,
            _ => panic!("unexpected request"),
        }
    }
    let peak = run.material.as_ref().unwrap().peak_retained;
    assert!(peak > 0);
    run.accounting.peak_retained = 0;
    run.settle(RunStop::Failed(ContentVmFailure::Scene(SceneError::NumericOverflow)));
    assert_eq!(run.vm_stats().peak_retained_bytes, peak);
}

#[test]
fn font_statistics_report_what_glyphs_retained() {
    let mut run = full(b"BT /F 10 Tf (AB) Tj ET");
    drive(&mut world(), &mut run);
    assert_eq!(run.phase(), ContentVmPhase::Ready, "{:?}", run.state);
    let segments = run.totals().outline_segments as usize;
    let least = 2 * std::mem::size_of::<GlyphUse>() + segments * std::mem::size_of::<GlyphSegment>();
    assert!(run.font_stats().unwrap().peak_glyph_retained_bytes >= least as u64);

    let limits = ContentFontLimits::validate(ContentFontLimitConfig {
        max_glyph_retained_bytes: 1,
        ..Default::default()
    })
    .unwrap();
    let mut run = InterpretPageJob::new_graphics_v2_with_fonts(
        snapshot(),
        stream(b"BT /F 10 Tf (AB) Tj ET"),
        ContentLimits::default(),
        ContentVmLimits::default(),
        ContentGraphicsLimits::default(),
        ContentFontProfile::new(authority(), 1, limits),
    )
    .run;
    drive(&mut world(), &mut run);
    assert_eq!(run.phase(), ContentVmPhase::Failed);
    assert_eq!(run.font_stats().unwrap().peak_glyph_retained_bytes, 0);
}

fn is_broken<T>(result: Result<T, RunStop>) -> bool {
    match result {
        Err(RunStop::Failed(ContentVmFailure::Vm(error))) => {
            error.code() == ContentVmErrorCode::InternalState
        }
        _ => false,
    }
}

#[test]
fn guards_are_asked_only_where_there_is_something_to_go_on_with() {
    let source = FixedSource(snapshot());
    let cancelled =
        RuntimeGuard { snapshot: snapshot(), source: &source, cancellation: &AlwaysCancelled };
    let mut fonts = FontRuntime::new(ContentFontLimits::default());
    assert!(is_broken(fonts.poll_acquisitions(&cancelled)));
    let mut images = ImageRuntime::new(ContentImageLimits::default());
    assert!(is_broken(images.poll_acquisitions(&cancelled)));
    let registered = images.resources.register_proof(
        proof_of(10),
        Matrix::identity(),
        operator(),
        &source,
        &AlwaysCancelled,
    );
    assert_eq!(registered.unwrap_err().code(), ContentVmErrorCode::InternalState);
}

#[test]
fn what_the_scene_took_stays_whatever_the_guard_would_say() {
    let source = FixedSource(snapshot());
    let guard =
        RuntimeGuard { snapshot: snapshot(), source: &source, cancellation: &NeverCancelled };
    let cancelled =
        RuntimeGuard { snapshot: snapshot(), source: &source, cancellation: &AlwaysCancelled };
    let mut run = graphics(b"q Q");
    assert!(matches!(run.poll(&guard), JobRequest::Scene(_)));
    let material = run.material.as_mut().unwrap();
    match material.resume(SceneReply::Scene(Ok(())), &cancelled) {
        Ok(step) => assert!(step == MaterialStep::Proceed),
        Err(_) => panic!("expected to go on"),
    }
    assert!(material.next(&cancelled).is_err());
}
