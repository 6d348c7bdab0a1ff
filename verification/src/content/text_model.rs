//! What text execution does, step by step.

use vstd::prelude::*;

use crate::content::accounting::retained_sum;
use crate::content::font_limits::{font_preflight, ContentFontLimitConfig};
use crate::content::graphics_model::scalar_value;
use crate::content::guard::{vm_stop, RunStop};
use crate::content::model::{ContentOperatorSource, ObjectRef};
use crate::content::number::ContentNumber;
use crate::content::plan::{TextAction, TextShowItem};
use crate::content::planner_model::refused;
use crate::content::scene::{
    identity_matrix, scalar_of, translation_of, CommandSource, GraphicsResourceSource, Matrix,
    Paint, ScenePoint, SceneScalar,
};
use crate::content::text_math::{
    adjustment_base, advance_base, divided, font_point_value, FontPoint,
};
use crate::content::vm_error::{
    ContentFontLimitKind, ContentVmErrorCode, ContentVmFailure, SceneError,
};

verus! {

/// One segment of a font outline.
#[derive(Clone, Copy, Debug, PartialEq, Eq, Structural)]
pub enum OutlineSegment {
    MoveTo(FontPoint),
    LineTo(FontPoint),
    QuadTo { control: FontPoint, end: FontPoint },
    CloseContour,
}

/// One segment of a scene outline.
#[derive(Clone, Copy, Debug, PartialEq, Eq, Structural)]
pub enum GlyphSegment {
    MoveTo(ScenePoint),
    LineTo(ScenePoint),
    QuadTo { control: ScenePoint, end: ScenePoint },
    ClosePath,
}

/// Saved and restored part of text execution. The font is a place among the acquired faces.
#[derive(Clone, Copy, Debug, PartialEq, Eq, Structural)]
pub struct TextParameters {
    pub character_spacing: SceneScalar,
    pub word_spacing: SceneScalar,
    pub horizontal_scaling: SceneScalar,
    pub leading: SceneScalar,
    pub font: Option<usize>,
    pub font_size: SceneScalar,
    pub render_mode: i64,
    pub rise: SceneScalar,
}

/// The parameters that text starts with.
pub open spec fn initial_text() -> TextParameters {
    let zero = SceneScalar { scaled: 0 };
    TextParameters {
        character_spacing: zero,
        word_spacing: zero,
        horizontal_scaling: SceneScalar { scaled: 1_000_000_000 },
        leading: zero,
        font: None,
        font_size: zero,
        render_mode: 0,
        rise: zero,
    }
}

/// One placed glyph: its outline in the run, its transform, and its code.
#[derive(Clone, Copy, Debug, PartialEq, Eq, Structural)]
pub struct GlyphUse {
    pub outline: usize,
    pub transform: Matrix,
    pub code: u32,
}

/// One text that is being shown.
#[derive(Clone, Copy, PartialEq, Eq, Structural)]
pub struct ShowContext {
    pub items: usize,
    pub font: Option<usize>,
    pub paint: Paint,
    pub ctm: Matrix,
    pub command_source: CommandSource,
    pub source: ContentOperatorSource,
    pub glyph_count: u64,
    pub segment_count: u64,
}

/// What text execution waits for.
#[derive(Clone, Copy, PartialEq, Eq, Structural)]
pub enum TextStage {
    /// Nothing.
    Idle,
    /// The moved line matrix, and the text that follows on it.
    Moving(Option<ShowContext>),
    /// The font size, scaled horizontally.
    Sizing(ShowContext),
    /// The transform with the text matrix.
    Placing(ShowContext, SceneScalar),
    /// The transform of the glyph.
    Rendering(ShowContext),
    /// The advance, scaled horizontally.
    Shifting(ShowContext),
    /// The moved text matrix.
    Stepping(ShowContext),
    /// The drawn run.
    Drawing(ShowContext),
}

/// What text execution asks for, or that it is done.
#[allow(inconsistent_fields)]
#[derive(Clone, Copy, Debug, PartialEq, Eq, Structural)]
pub enum TextStep {
    /// The product of two transforms.
    Product { left: Matrix, right: Matrix },
    /// The product of two scalars.
    Scaled { left: SceneScalar, right: SceneScalar },
    /// The glyph run on the scene.
    Draw,
    /// Nothing: the action is executed.
    Done,
}

/// What the scene layer answered.
#[derive(Clone, Copy, Debug)]
pub enum TextReply {
    Product(Result<Matrix, SceneError>),
    Scaled(Result<SceneScalar, SceneError>),
    Drawn(Result<(), SceneError>),
}

/// An outline of a face.
pub struct FaceOutlineView {
    pub glyph_id: u16,
    pub segments: Seq<OutlineSegment>,
}

/// An acquired face: its codes and widths from the space on, and its outlines.
pub struct FaceView {
    pub reference: ObjectRef,
    pub revision_startxref: u64,
    pub units_per_em: u32,
    pub codes: Seq<Option<u16>>,
    pub widths: Seq<Option<u32>>,
    pub outlines: Seq<FaceOutlineView>,
}

/// Decode context of embedded fonts.
pub const FONT_DECODE_CONTEXT: u64 = 0x6d33_666f_6e74_0001;

/// Where the outlines of a face come from.
pub open spec fn face_source(face: FaceView) -> GraphicsResourceSource {
    GraphicsResourceSource {
        reference: face.reference,
        revision_startxref: face.revision_startxref,
        decode_context: FONT_DECODE_CONTEXT,
    }
}

/// An outline of a run.
pub struct RunOutlineView {
    pub source: GraphicsResourceSource,
    pub glyph_id: u16,
    pub units_per_em: u32,
    pub segments: Seq<GlyphSegment>,
}

/// What text is executed against.
pub struct TextScope {
    pub names: Seq<Seq<u8>>,
    pub items: Seq<Seq<TextShowItem>>,
    pub faces: Seq<FaceView>,
    pub limits: ContentFontLimitConfig,
}

/// Text execution.
pub struct TextView {
    pub parameters: TextParameters,
    pub saved: Seq<TextParameters>,
    pub text_matrix: Matrix,
    pub line_matrix: Matrix,
    pub active: bool,
    pub stage: TextStage,
    /// The item at hand, and the byte in it.
    pub item: int,
    pub byte: int,
    pub glyphs: Seq<GlyphUse>,
    pub outlines: Seq<RunOutlineView>,
    pub shown_glyphs: u64,
    pub shown_segments: u64,
}

/// A step of text execution, or why it stops.
pub type TextOutcome = Result<(TextView, TextStep), RunStop>;

/// Text execution at its start.
pub open spec fn initial_execution() -> TextView {
    TextView {
        parameters: initial_text(),
        saved: Seq::empty(),
        text_matrix: identity_matrix(),
        line_matrix: identity_matrix(),
        active: false,
        stage: TextStage::Idle,
        item: 0,
        byte: 0,
        glyphs: Seq::empty(),
        outlines: Seq::empty(),
        shown_glyphs: 0,
        shown_segments: 0,
    }
}

/// The stop of a scene failure.
pub open spec fn scene_stop(error: SceneError) -> RunStop {
    RunStop::Failed(ContentVmFailure::Scene(error))
}

/// The stop of a broken invariant.
pub open spec fn broken(source: ContentOperatorSource) -> RunStop {
    refused(ContentVmErrorCode::InternalState, source)
}

/// The scene segment of a font segment.
pub open spec fn segment_value(segment: OutlineSegment) -> GlyphSegment {
    match segment {
        OutlineSegment::MoveTo(point) => GlyphSegment::MoveTo(font_point_value(point)),
        OutlineSegment::LineTo(point) => GlyphSegment::LineTo(font_point_value(point)),
        OutlineSegment::QuadTo { control, end } => GlyphSegment::QuadTo {
            control: font_point_value(control),
            end: font_point_value(end),
        },
        OutlineSegment::CloseContour => GlyphSegment::ClosePath,
    }
}

/// The glyph of a byte.
pub open spec fn glyph_of(face: FaceView, byte: u8) -> Option<u16> {
    if 0x20 <= byte && byte - 0x20 < face.codes.len() {
        face.codes[byte - 0x20]
    } else {
        None
    }
}

/// The width of a byte, in thousandths.
pub open spec fn width_of(face: FaceView, byte: u8) -> Option<u32> {
    if 0x20 <= byte && byte - 0x20 < face.widths.len() {
        face.widths[byte - 0x20]
    } else {
        None
    }
}

/// Place of the first outline of a glyph from `i` on.
pub open spec fn face_outline(face: FaceView, glyph: u16, i: int) -> int
    decreases face.outlines.len() - i,
{
    if i >= face.outlines.len() || face.outlines[i].glyph_id == glyph {
        i
    } else {
        face_outline(face, glyph, i + 1)
    }
}

/// Whether a byte has a glyph with an outline.
pub open spec fn has_outline(face: FaceView, byte: u8) -> bool {
    glyph_of(face, byte) is Some && face_outline(face, glyph_of(face, byte)->0, 0)
        < face.outlines.len()
}

/// The bytes that the first `count` items show.
pub open spec fn shown_text(
    items: Seq<TextShowItem>,
    names: Seq<Seq<u8>>,
    count: int,
) -> Seq<u8>
    decreases count,
{
    if count <= 0 {
        Seq::empty()
    } else {
        shown_text(items, names, count - 1) + (match items[count - 1] {
            TextShowItem::Bytes(place) => names[place as int],
            TextShowItem::Adjustment(_) => Seq::empty(),
        })
    }
}

/// Whether every string of a list is registered.
pub open spec fn items_registered(items: Seq<TextShowItem>, names: Seq<Seq<u8>>) -> bool {
    forall|i: int|
        0 <= i < items.len() ==> (#[trigger] items[i] matches TextShowItem::Bytes(place) ==> place
            < names.len())
}

/// The glyphs that the first `count` bytes use, each once, in order of first use.
pub open spec fn used_glyphs(face: FaceView, text: Seq<u8>, count: int) -> Seq<u16>
    decreases count,
{
    if count <= 0 {
        Seq::empty()
    } else {
        let front = used_glyphs(face, text, count - 1);
        let glyph = glyph_of(face, text[count - 1])->0;
        if front.contains(glyph) {
            front
        } else {
            front.push(glyph)
        }
    }
}

/// The outline segments of the first `count` glyphs.
pub open spec fn segments_of(face: FaceView, glyphs: Seq<u16>, count: int) -> int
    decreases count,
{
    if count <= 0 {
        0
    } else {
        segments_of(face, glyphs, count - 1) + face.outlines[face_outline(
            face,
            glyphs[count - 1],
            0,
        )].segments.len()
    }
}

/// Whether every byte of a text has an outline.
pub open spec fn text_has_outlines(face: FaceView, text: Seq<u8>) -> bool {
    forall|i: int| 0 <= i < text.len() ==> has_outline(face, #[trigger] text[i])
}

/// Starts or ends a text object.
pub open spec fn boundary(view: TextView, action: TextAction) -> Result<TextView, RunStop> {
    match action {
        TextAction::Begin { source } => if view.active {
            Err(broken(source))
        } else {
            Ok(
                TextView {
                    text_matrix: identity_matrix(),
                    line_matrix: identity_matrix(),
                    active: true,
                    ..view
                },
            )
        },
        TextAction::End { source } => if !view.active {
            Err(broken(source))
        } else {
            Ok(TextView { active: false, ..view })
        },
        _ => Err(broken(action.spec_source())),
    }
}

/// Moves the line by a translation, and shows a text on it.
pub open spec fn moved_line(
    view: TextView,
    tx: SceneScalar,
    ty: SceneScalar,
    show: Option<ShowContext>,
) -> TextOutcome {
    Ok(
        (
            TextView { stage: TextStage::Moving(show), ..view },
            TextStep::Product { left: view.line_matrix, right: translation_of(tx, ty) },
        ),
    )
}

/// Moves to the next line, and shows a text on it.
pub open spec fn next_line(view: TextView, show: Option<ShowContext>) -> TextOutcome {
    match scalar_of(0 - view.parameters.leading.scaled) {
        Err(error) => Err(scene_stop(error)),
        Ok(ty) => moved_line(view, SceneScalar { scaled: 0 }, ty, show),
    }
}

/// The piece at hand: an adjustment, or a byte of a string that is not exhausted.
pub open spec fn current_piece(
    items: Seq<TextShowItem>,
    names: Seq<Seq<u8>>,
    item: int,
    byte: int,
) -> (int, int)
    decreases items.len() - item,
{
    if item < 0 || item >= items.len() {
        (item, byte)
    } else {
        match items[item] {
            TextShowItem::Adjustment(_) => (item, byte),
            TextShowItem::Bytes(place) => if byte < names[place as int].len() {
                (item, byte)
            } else {
                current_piece(items, names, item + 1, 0)
            },
        }
    }
}

/// Records a shown text.
pub open spec fn recorded(view: TextView, show: ShowContext) -> TextView {
    TextView {
        stage: TextStage::Idle,
        shown_glyphs: (view.shown_glyphs + show.glyph_count) as u64,
        shown_segments: (view.shown_segments + show.segment_count) as u64,
        ..view
    }
}

/// Begins the piece at hand. The outline of a byte's glyph is built before the glyph is placed, once
/// for each glyph of the run. After the last piece, the run is drawn, unless it is empty.
pub open spec fn piece_begun(view: TextView, scope: TextScope, show: ShowContext) -> TextOutcome {
    let items = scope.items[show.items as int];
    let (item, byte) = current_piece(items, scope.names, view.item, view.byte);
    let at = TextView { item, byte, ..view };
    if item >= items.len() {
        if view.glyphs.len() > 0 {
            Ok((TextView { stage: TextStage::Drawing(show), ..at }, TextStep::Draw))
        } else {
            Ok((recorded(at, show), TextStep::Done))
        }
    } else {
        match items[item] {
            TextShowItem::Bytes(_) => Ok(
                (
                    TextView {
                        stage: TextStage::Sizing(show),
                        outlines: with_outline(
                            view.outlines,
                            scope.faces[show.font->0 as int],
                            current_glyph(at, scope, show),
                        ),
                        ..at
                    },
                    TextStep::Scaled {
                        left: view.parameters.font_size,
                        right: view.parameters.horizontal_scaling,
                    },
                ),
            ),
            TextShowItem::Adjustment(value) => match adjustment_base(
                view.parameters.font_size,
                value,
            ) {
                Err(error) => Err(scene_stop(error)),
                Ok(base) => Ok(
                    (
                        TextView { stage: TextStage::Shifting(show), ..at },
                        TextStep::Scaled { left: base, right: view.parameters.horizontal_scaling },
                    ),
                ),
            },
        }
    }
}

/// Begins a text: its glyphs and the segments of their outlines are admitted first.
pub open spec fn show_begun(view: TextView, scope: TextScope, show: ShowContext) -> TextOutcome {
    let items = scope.items[show.items as int];
    let face = scope.faces[show.font->0 as int];
    let text = shown_text(items, scope.names, items.len() as int);
    let glyphs = used_glyphs(face, text, text.len() as int);
    let segments = segments_of(face, glyphs, glyphs.len() as int);
    let glyphs_admitted = font_preflight(
        scope.limits,
        ContentFontLimitKind::Glyphs,
        view.shown_glyphs,
        retained_sum(text.len() as int),
        Some(show.source),
    );
    let segments_admitted = font_preflight(
        scope.limits,
        ContentFontLimitKind::OutlineSegments,
        view.shown_segments,
        retained_sum(segments),
        Some(show.source),
    );
    if show.font is None || show.font->0 >= scope.faces.len() || show.items >= scope.items.len()
        || !items_registered(items, scope.names) {
        Err(broken(show.source))
    } else if glyphs_admitted is Err {
        Err(vm_stop(glyphs_admitted->Err_0))
    } else if !text_has_outlines(face, text) {
        Err(broken(show.source))
    } else if segments_admitted is Err {
        Err(vm_stop(segments_admitted->Err_0))
    } else {
        piece_begun(
            TextView { item: 0, byte: 0, glyphs: Seq::empty(), outlines: Seq::empty(), ..view },
            scope,
            ShowContext {
                glyph_count: retained_sum(text.len() as int),
                segment_count: retained_sum(segments),
                ..show
            },
        )
    }
}

/// The parameters with the spacings that a show action sets.
pub open spec fn spaced(
    parameters: TextParameters,
    character_spacing: Option<ContentNumber>,
    word_spacing: Option<ContentNumber>,
) -> TextParameters {
    TextParameters {
        character_spacing: if character_spacing is Some {
            scalar_value(character_spacing->0)
        } else {
            parameters.character_spacing
        },
        word_spacing: if word_spacing is Some {
            scalar_value(word_spacing->0)
        } else {
            parameters.word_spacing
        },
        ..parameters
    }
}

/// An executed action.
pub open spec fn done(view: TextView, parameters: TextParameters) -> TextOutcome {
    Ok((TextView { parameters, ..view }, TextStep::Done))
}

/// Begins an action inside a text object. `face` is the face that a font selection resolves to.
pub open spec fn action_begun(
    view: TextView,
    scope: TextScope,
    action: TextAction,
    face: Option<usize>,
) -> TextOutcome {
    let p = view.parameters;
    let source = action.spec_source();
    if !view.active || !(view.stage is Idle) {
        Err(broken(source))
    } else {
        match action {
            TextAction::SetCharacterSpacing { value, .. } => done(
                view,
                TextParameters { character_spacing: scalar_value(value), ..p },
            ),
            TextAction::SetWordSpacing { value, .. } => done(
                view,
                TextParameters { word_spacing: scalar_value(value), ..p },
            ),
            TextAction::SetHorizontalScaling { value, .. } => match divided(
                scalar_value(value),
                100,
            ) {
                Err(error) => Err(scene_stop(error)),
                Ok(scaling) => done(view, TextParameters { horizontal_scaling: scaling, ..p }),
            },
            TextAction::SetLeading { value, .. } => done(
                view,
                TextParameters { leading: scalar_value(value), ..p },
            ),
            TextAction::SetFont { size, .. } => match face {
                None => Err(broken(source)),
                Some(_) => done(
                    view,
                    TextParameters { font: face, font_size: scalar_value(size), ..p },
                ),
            },
            TextAction::SetRenderMode { value, .. } => if value != 0 {
                Err(broken(source))
            } else {
                done(view, TextParameters { render_mode: value, ..p })
            },
            TextAction::SetRise { value, .. } => done(
                view,
                TextParameters { rise: scalar_value(value), ..p },
            ),
            TextAction::MovePosition { tx, ty, set_leading, .. } => if set_leading {
                match scalar_of(0 - ty.scaled) {
                    Err(error) => Err(scene_stop(error)),
                    Ok(leading) => moved_line(
                        TextView { parameters: TextParameters { leading, ..p }, ..view },
                        scalar_value(tx),
                        scalar_value(ty),
                        None,
                    ),
                }
            } else {
                moved_line(view, scalar_value(tx), scalar_value(ty), None)
            },
            TextAction::SetMatrix { matrix, .. } => Ok(
                (
                    TextView { text_matrix: matrix, line_matrix: matrix, ..view },
                    TextStep::Done,
                ),
            ),
            TextAction::NextLine { .. } => next_line(view, None),
            TextAction::Show {
                items,
                character_spacing,
                word_spacing,
                next_line: on_next_line,
                paint,
                ctm,
                command_source,
                ..
            } => {
                let set = TextView {
                    parameters: spaced(p, character_spacing, word_spacing),
                    ..view
                };
                let show = ShowContext {
                    items,
                    font: p.font,
                    paint,
                    ctm,
                    command_source,
                    source,
                    glyph_count: 0,
                    segment_count: 0,
                };
                if on_next_line {
                    next_line(set, Some(show))
                } else {
                    show_begun(set, scope, show)
                }
            },
            _ => Err(broken(source)),
        }
    }
}

/// Place of the first outline of a glyph in a run, from `i` on.
pub open spec fn run_outline(outlines: Seq<RunOutlineView>, glyph: u16, i: int) -> int
    decreases outlines.len() - i,
{
    if i >= outlines.len() || outlines[i].glyph_id == glyph {
        i
    } else {
        run_outline(outlines, glyph, i + 1)
    }
}

/// The outlines of a run with that of one more glyph: each is built once.
pub open spec fn with_outline(
    outlines: Seq<RunOutlineView>,
    face: FaceView,
    glyph: u16,
) -> Seq<RunOutlineView> {
    if run_outline(outlines, glyph, 0) < outlines.len() {
        outlines
    } else {
        outlines.push(
            RunOutlineView {
                source: face_source(face),
                glyph_id: glyph,
                units_per_em: face.units_per_em,
                segments: face.outlines[face_outline(face, glyph, 0)].segments.map_values(
                    |segment: OutlineSegment| segment_value(segment),
                ),
            },
        )
    }
}

/// The byte at hand.
pub open spec fn current_byte(view: TextView, scope: TextScope, show: ShowContext) -> u8 {
    let items = scope.items[show.items as int];
    scope.names[items[view.item]->Bytes_0 as int][view.byte]
}

/// The glyph of the byte at hand.
pub open spec fn current_glyph(view: TextView, scope: TextScope, show: ShowContext) -> u16 {
    glyph_of(scope.faces[show.font->0 as int], current_byte(view, scope, show))->0
}

/// The transform of glyph space into text space.
pub open spec fn render_matrix(parameters: TextParameters, size: SceneScalar) -> Matrix {
    let zero = SceneScalar { scaled: 0 };
    Matrix {
        a: size,
        b: zero,
        c: zero,
        d: parameters.font_size,
        e: zero,
        f: parameters.rise,
    }
}

/// Places a glyph, and asks for its advance.
pub open spec fn glyph_placed(
    view: TextView,
    scope: TextScope,
    show: ShowContext,
    transform: Matrix,
) -> TextOutcome {
    let byte = current_byte(view, scope, show);
    let face = scope.faces[show.font->0 as int];
    let glyph = glyph_of(face, byte)->0;
    let p = view.parameters;
    match width_of(face, byte) {
        None => Err(broken(show.source)),
        Some(width) => match advance_base(
            p.font_size,
            p.character_spacing,
            p.word_spacing,
            width,
            byte,
        ) {
            Err(error) => Err(scene_stop(error)),
            Ok(base) => Ok(
                (
                    TextView {
                        stage: TextStage::Shifting(show),
                        glyphs: view.glyphs.push(
                            GlyphUse {
                                outline: run_outline(view.outlines, glyph, 0) as usize,
                                transform,
                                code: byte as u32,
                            },
                        ),
                        ..view
                    },
                    TextStep::Scaled { left: base, right: p.horizontal_scaling },
                ),
            ),
        },
    }
}

/// Passes the piece at hand.
pub open spec fn piece_passed(view: TextView, scope: TextScope, show: ShowContext) -> TextView {
    match scope.items[show.items as int][view.item] {
        TextShowItem::Bytes(_) => TextView { byte: view.byte + 1, ..view },
        TextShowItem::Adjustment(_) => TextView { item: view.item + 1, byte: 0, ..view },
    }
}

/// Goes on with a reply. `source` is the operator that is executed.
pub open spec fn resumed(
    view: TextView,
    scope: TextScope,
    reply: TextReply,
    source: ContentOperatorSource,
) -> TextOutcome {
    match (view.stage, reply) {
        (TextStage::Moving(show), TextReply::Product(Ok(matrix))) => {
            let moved = TextView {
                line_matrix: matrix,
                text_matrix: matrix,
                stage: TextStage::Idle,
                ..view
            };
            match show {
                None => Ok((moved, TextStep::Done)),
                Some(show) => show_begun(moved, scope, show),
            }
        },
        (TextStage::Sizing(show), TextReply::Scaled(Ok(size))) => Ok(
            (
                TextView { stage: TextStage::Placing(show, size), ..view },
                TextStep::Product { left: show.ctm, right: view.text_matrix },
            ),
        ),
        (TextStage::Placing(show, size), TextReply::Product(Ok(placed))) => Ok(
            (
                TextView { stage: TextStage::Rendering(show), ..view },
                TextStep::Product { left: placed, right: render_matrix(view.parameters, size) },
            ),
        ),
        (TextStage::Rendering(show), TextReply::Product(Ok(transform))) => glyph_placed(
            view,
            scope,
            show,
            transform,
        ),
        (TextStage::Shifting(show), TextReply::Scaled(Ok(advance))) => Ok(
            (
                TextView { stage: TextStage::Stepping(show), ..view },
                TextStep::Product {
                    left: view.text_matrix,
                    right: translation_of(advance, SceneScalar { scaled: 0 }),
                },
            ),
        ),
        (TextStage::Stepping(show), TextReply::Product(Ok(matrix))) => piece_begun(
            piece_passed(TextView { text_matrix: matrix, ..view }, scope, show),
            scope,
            show,
        ),
        (TextStage::Drawing(show), TextReply::Drawn(Ok(_))) => Ok(
            (recorded(view, show), TextStep::Done),
        ),
        (TextStage::Moving(_), TextReply::Product(Err(error))) => Err(scene_stop(error)),
        (TextStage::Sizing(_), TextReply::Scaled(Err(error))) => Err(scene_stop(error)),
        (TextStage::Placing(_, _), TextReply::Product(Err(error))) => Err(scene_stop(error)),
        (TextStage::Rendering(_), TextReply::Product(Err(error))) => Err(scene_stop(error)),
        (TextStage::Shifting(_), TextReply::Scaled(Err(error))) => Err(scene_stop(error)),
        (TextStage::Stepping(_), TextReply::Product(Err(error))) => Err(scene_stop(error)),
        (TextStage::Drawing(_), TextReply::Drawn(Err(error))) => Err(scene_stop(error)),
        _ => Err(broken(source)),
    }
}

} // verus!
