//! Text execution: placement of glyphs and advance of the text matrices.

use vstd::prelude::*;

use crate::bytes::model::ByteSource;
use crate::content::accounting::{byte_width, capacity_bytes, reserve_exact_slots, retained_sum};
use crate::content::font_limits::{font_preflight, ContentFontLimitConfig, ContentFontLimits};
use crate::content::guard::{
    is_guard_stop, is_memory_stop, no_guard, vm_stop, GuardView, RunStop, RuntimeGuard,
};
use crate::content::model::{ContentOperatorSource, ObjectRef};
use crate::content::plan::{TextAction, TextShowItem};
use crate::content::planner::{item_views, name_views};
use crate::content::scanner::ContentCancellation;
use crate::content::scene::{GraphicsResourceSource, Matrix, SceneScalar};
use crate::content::text_math::{divide_scalar, scene_font_point, text_adjustment, text_advance};
use crate::content::text_model::{
    action_begun, boundary, broken, current_byte, current_glyph, current_piece, face_outline,
    face_source, glyph_of, glyph_placed, has_outline, initial_execution, items_registered,
    moved_line, next_line, piece_begun, piece_passed, recorded, resumed, run_outline, segment_value,
    segments_of, show_begun, shown_text, text_has_outlines, used_glyphs, width_of, with_outline,
    FONT_DECODE_CONTEXT, FaceOutlineView, FaceView, GlyphSegment, GlyphUse, OutlineSegment,
    RunOutlineView, ShowContext, TextOutcome, TextParameters, TextReply, TextScope, TextStage,
    TextStep, TextView,
};
use crate::content::vm_error::{
    vm_error, ContentFontLimit, ContentFontLimitKind, ContentVmError, ContentVmErrorCode,
    ContentVmFailure, ContentVmLimitKind,
};
use crate::content::vm_limits::{vm_preflight, ContentVmLimits};
use crate::memory::try_reserve_exact;

verus! {

/// How often long texts probe the guard.
const GUARD_INTERVAL: usize = 256;

/// An outline of a face.
pub struct FontOutline {
    pub glyph_id: u16,
    pub segments: Vec<OutlineSegment>,
}

/// An acquired face: its codes and widths from the space on, and its outlines.
pub struct FontFace {
    pub reference: ObjectRef,
    pub revision_startxref: u64,
    pub units_per_em: u32,
    pub codes: Vec<Option<u16>>,
    pub widths: Vec<Option<u32>>,
    pub outlines: Vec<FontOutline>,
}

/// The values of outlines.
pub open spec fn outline_views(outlines: Seq<FontOutline>) -> Seq<FaceOutlineView> {
    outlines.map_values(
        |outline: FontOutline|
            FaceOutlineView { glyph_id: outline.glyph_id, segments: outline.segments@ },
    )
}

impl View for FontFace {
    type V = FaceView;

    open spec fn view(&self) -> FaceView {
        FaceView {
            reference: self.reference,
            revision_startxref: self.revision_startxref,
            units_per_em: self.units_per_em,
            codes: self.codes@,
            widths: self.widths@,
            outlines: outline_views(self.outlines@),
        }
    }
}

impl FontFace {
    /// Returns where the outlines come from.
    pub fn resource_source(&self) -> (source: GraphicsResourceSource)
        ensures
            source == face_source(self@),
    {
        GraphicsResourceSource {
            reference: self.reference,
            revision_startxref: self.revision_startxref,
            decode_context: FONT_DECODE_CONTEXT,
        }
    }

    /// Returns the glyph of a byte.
    pub fn glyph_id(&self, byte: u8) -> (glyph: Option<u16>)
        ensures
            glyph == glyph_of(self@, byte),
    {
        if byte >= 0x20 && ((byte - 0x20) as usize) < self.codes.len() {
            self.codes[(byte - 0x20) as usize]
        } else {
            None
        }
    }

    /// Returns the width of a byte, in thousandths.
    pub fn width(&self, byte: u8) -> (width: Option<u32>)
        ensures
            width == width_of(self@, byte),
    {
        if byte >= 0x20 && ((byte - 0x20) as usize) < self.widths.len() {
            self.widths[(byte - 0x20) as usize]
        } else {
            None
        }
    }

    /// Returns the place of a glyph's outline.
    pub fn outline(&self, glyph: u16) -> (place: Option<usize>)
        ensures
            match place {
                Some(i) => i == face_outline(self@, glyph, 0) && i < self.outlines@.len(),
                None => face_outline(self@, glyph, 0) == self.outlines@.len(),
            },
    {
        let mut i: usize = 0;
        while i < self.outlines.len()
            invariant
                i <= self.outlines@.len(),
                face_outline(self@, glyph, 0) == face_outline(self@, glyph, i as int),
            decreases self.outlines@.len() - i,
        {
            assert(self@.outlines[i as int].glyph_id == self.outlines@[i as int].glyph_id);
            if self.outlines[i].glyph_id == glyph {
                return Some(i);
            }
            i = i + 1;
        }
        None
    }
}

/// The values of faces.
pub open spec fn face_views(faces: Seq<FontFace>) -> Seq<FaceView> {
    faces.map_values(|face: FontFace| face@)
}

/// What text is executed against.
#[derive(Clone, Copy)]
pub struct TextSources<'a> {
    pub names: &'a Vec<Vec<u8>>,
    pub items: &'a Vec<Vec<TextShowItem>>,
    pub faces: &'a Vec<FontFace>,
    pub limits: ContentFontLimits,
}

impl<'a> View for TextSources<'a> {
    type V = TextScope;

    open spec fn view(&self) -> TextScope {
        TextScope {
            names: name_views(self.names@),
            items: item_views(self.items@),
            faces: face_views(self.faces@),
            limits: self.limits@,
        }
    }
}

/// One outline of a run.
pub struct RunOutline {
    pub source: GraphicsResourceSource,
    pub glyph_id: u16,
    pub units_per_em: u32,
    pub segments: Vec<GlyphSegment>,
}

/// The values of run outlines.
pub open spec fn run_views(outlines: Seq<RunOutline>) -> Seq<RunOutlineView> {
    outlines.map_values(
        |outline: RunOutline|
            RunOutlineView {
                source: outline.source,
                glyph_id: outline.glyph_id,
                units_per_em: outline.units_per_em,
                segments: outline.segments@,
            },
    )
}

/// Text execution.
pub struct TextExecutor {
    pub parameters: TextParameters,
    pub saved: Vec<TextParameters>,
    /// How many saved parameters there is room for.
    pub saved_slots: usize,
    pub text_matrix: Matrix,
    pub line_matrix: Matrix,
    pub active: bool,
    pub stage: TextStage,
    pub item: usize,
    pub byte: usize,
    pub glyphs: Vec<GlyphUse>,
    pub outlines: Vec<RunOutline>,
    pub shown_glyphs: u64,
    pub shown_segments: u64,
    pub vm_limits: ContentVmLimits,
    pub base_retained: u64,
    pub glyph_retained: u64,
    pub outline_retained: u64,
    pub peak_glyph_retained: u64,
}

impl View for TextExecutor {
    type V = TextView;

    open spec fn view(&self) -> TextView {
        TextView {
            parameters: self.parameters,
            saved: self.saved@,
            text_matrix: self.text_matrix,
            line_matrix: self.line_matrix,
            active: self.active,
            stage: self.stage,
            item: self.item as int,
            byte: self.byte as int,
            glyphs: self.glyphs@,
            outlines: run_views(self.outlines@),
            shown_glyphs: self.shown_glyphs,
            shown_segments: self.shown_segments,
        }
    }
}

/// Whether a text can be shown: everything it refers to is there, and its totals fit.
pub open spec fn show_ok(view: TextView, scope: TextScope, show: ShowContext) -> bool {
    &&& show.items < scope.items.len()
    &&& show.font is Some && show.font->0 < scope.faces.len()
    &&& items_registered(scope.items[show.items as int], scope.names)
    &&& text_has_outlines(
        scope.faces[show.font->0 as int],
        shown_text(
            scope.items[show.items as int],
            scope.names,
            scope.items[show.items as int].len() as int,
        ),
    )
    &&& view.shown_glyphs + show.glyph_count <= u64::MAX
    &&& view.shown_segments + show.segment_count <= u64::MAX
}

/// Whether the cursor is on a piece.
pub open spec fn on_piece(view: TextView, scope: TextScope, show: ShowContext) -> bool {
    let items = scope.items[show.items as int];
    &&& 0 <= view.item < items.len()
    &&& items[view.item] matches TextShowItem::Bytes(place) ==> 0 <= view.byte
        < scope.names[place as int].len()
}

/// Whether the cursor is on a byte.
pub open spec fn on_byte(view: TextView, scope: TextScope, show: ShowContext) -> bool {
    on_piece(view, scope, show) && scope.items[show.items as int][view.item] is Bytes
}

/// Whether the glyph of the byte at hand can be placed: the run has its outline.
pub open spec fn placeable(view: TextView, scope: TextScope, show: ShowContext) -> bool {
    &&& show_ok(view, scope, show)
    &&& on_byte(view, scope, show)
    &&& run_outline(view.outlines, current_glyph(view, scope, show), 0) < view.outlines.len()
}

/// The invariant of text execution: what it waits for makes sense.
pub open spec fn text_ok(view: TextView, scope: TextScope) -> bool {
    match view.stage {
        TextStage::Idle => true,
        TextStage::Moving(_) => true,
        TextStage::Sizing(show) => placeable(view, scope, show),
        TextStage::Placing(show, _) => placeable(view, scope, show),
        TextStage::Rendering(show) => placeable(view, scope, show),
        TextStage::Shifting(show) => show_ok(view, scope, show) && on_piece(view, scope, show),
        TextStage::Stepping(show) => show_ok(view, scope, show) && on_piece(view, scope, show),
        TextStage::Drawing(show) => show_ok(view, scope, show),
    }
}

/// How many segments the first `count` outlines of a run have.
pub open spec fn run_segments(outlines: Seq<RunOutlineView>, count: int) -> int
    decreases count,
{
    if count <= 0 {
        0
    } else {
        run_segments(outlines, count - 1) + outlines[count - 1].segments.len()
    }
}

proof fn run_segments_prefix(fewer: Seq<RunOutlineView>, more: Seq<RunOutlineView>, count: int)
    requires
        0 <= count <= fewer.len() <= more.len(),
        forall|i: int| 0 <= i < count ==> fewer[i] == more[i],
    ensures
        run_segments(fewer, count) == run_segments(more, count),
        run_segments(fewer, count) >= 0,
    decreases count,
{
    if count > 0 {
        run_segments_prefix(fewer, more, count - 1);
    }
}

/// Whether memory may decide a step that the model ends in `expected`: room for glyphs is made once
/// everything but the arithmetic of the run is judged.
pub open spec fn room_is_made(expected: TextOutcome) -> bool {
    expected matches Err(stop) ==> stop matches RunStop::Failed(ContentVmFailure::Scene(_))
}

/// Whether a piece cannot be begun. The model says so; or the outline of a glyph that the run of
/// `outlines` does not have takes room, and time in which the guard may fail; or a complete run
/// passes a glyph budget.
pub open spec fn piece_refused(
    expected: TextOutcome,
    outlines: Seq<RunOutlineView>,
    stop: RunStop,
    source: ContentOperatorSource,
    guard: GuardView,
) -> bool {
    ||| expected == Err::<(TextView, TextStep), RunStop>(stop)
    ||| expected matches Ok((next, _)) && next.outlines.len() > outlines.len() && (is_memory_stop(
        stop,
    ) || is_guard_stop(stop, Some(source), guard))
    ||| expected matches Ok((_, step)) && step == TextStep::Draw && is_memory_stop(stop)
}

/// Whether a result is what the model says, or what a guard or memory decided.
pub open spec fn text_settled(
    result: Result<TextStep, RunStop>,
    expected: TextOutcome,
    reached: TextView,
    source: ContentOperatorSource,
    guard: GuardView,
) -> bool {
    match result {
        Ok(step) => expected == Ok::<(TextView, TextStep), RunStop>((reached, step)),
        Err(stop) => is_guard_stop(stop, Some(source), guard) || (is_memory_stop(stop) && room_is_made(
            expected,
        )) || expected == Err::<(TextView, TextStep), RunStop>(stop),
    }
}

fn broken_stop(source: ContentOperatorSource) -> (stop: RunStop)
    ensures
        stop == broken(source),
{
    RunStop::Failed(ContentVmFailure::Vm(vm_error(ContentVmErrorCode::InternalState, source)))
}

fn vm_stop_of(error: ContentVmError) -> (stop: RunStop)
    ensures
        stop == crate::content::guard::vm_stop(error),
{
    RunStop::Failed(ContentVmFailure::Vm(error))
}

proof fn text_at(items: Seq<TextShowItem>, names: Seq<Seq<u8>>, i: int, n: int, byte: int)
    requires
        0 <= i < n <= items.len(),
        items[i] is Bytes,
        0 <= byte < names[items[i]->Bytes_0 as int].len(),
    ensures
        ({
            let at = shown_text(items, names, i).len() + byte;
            let full = shown_text(items, names, n);
            at < full.len() && full[at] == names[items[i]->Bytes_0 as int][byte]
        }),
    decreases n - i,
{
    if i < n - 1 {
        text_at(items, names, i, n - 1, byte);
    }
}

proof fn text_len_grows(items: Seq<TextShowItem>, names: Seq<Seq<u8>>, i: int, n: int)
    requires
        0 <= i <= n <= items.len(),
    ensures
        shown_text(items, names, i).len() <= shown_text(items, names, n).len(),
    decreases n - i,
{
    if i < n {
        text_len_grows(items, names, i, n - 1);
    }
}

proof fn segments_prefix(face: FaceView, left: Seq<u16>, right: Seq<u16>, count: int)
    requires
        count <= left.len(),
        count <= right.len(),
        forall|i: int| 0 <= i < count ==> left[i] == right[i],
    ensures
        segments_of(face, left, count) == segments_of(face, right, count),
    decreases count,
{
    if count > 0 {
        segments_prefix(face, left, right, count - 1);
    }
}

proof fn segments_nonnegative(face: FaceView, glyphs: Seq<u16>, count: int)
    ensures
        segments_of(face, glyphs, count) >= 0,
    decreases count,
{
    if count > 0 {
        segments_nonnegative(face, glyphs, count - 1);
    }
}

/// A run with the outline of a glyph has it.
proof fn with_outline_has_it(outlines: Seq<RunOutlineView>, face: FaceView, glyph: u16)
    ensures
        ({
            let after = with_outline(outlines, face, glyph);
            run_outline(after, glyph, 0) < after.len()
        }),
{
    if run_outline(outlines, glyph, 0) >= outlines.len() {
        let after = with_outline(outlines, face, glyph);
        outline_found_at_end(outlines, after, glyph, 0);
    }
}

proof fn outline_found_at_end(
    outlines: Seq<RunOutlineView>,
    after: Seq<RunOutlineView>,
    glyph: u16,
    i: int,
)
    requires
        0 <= i <= outlines.len(),
        after.len() == outlines.len() + 1,
        after.last().glyph_id == glyph,
    ensures
        run_outline(after, glyph, i) < after.len(),
    decreases outlines.len() - i,
{
    if i < outlines.len() {
        outline_found_at_end(outlines, after, glyph, i + 1);
    }
}

/// Every byte of a text that has outlines has one.
pub(crate) proof fn byte_has_outline(view: TextView, scope: TextScope, show: ShowContext)
    requires
        show_ok(view, scope, show),
        on_byte(view, scope, show),
    ensures
        has_outline(scope.faces[show.font->0 as int], current_byte(view, scope, show)),
{
    let items = scope.items[show.items as int];
    text_at(items, scope.names, view.item, items.len() as int, view.byte);
}

/// Counts the bytes that items show; a count that does not fit is all there is.
fn count_glyphs<S: ByteSource, C: ContentCancellation>(
    items: &Vec<TextShowItem>,
    names: &Vec<Vec<u8>>,
    source: ContentOperatorSource,
    guard: &RuntimeGuard<'_, S, C>,
) -> (count: Result<u64, RunStop>)
    ensures
        match count {
            Ok(total) => items_registered(items@, name_views(names@)) && total == retained_sum(
                shown_text(items@, name_views(names@), items@.len() as int).len() as int,
            ),
            Err(stop) => is_guard_stop(stop, Some(source), guard@) || (stop == broken(source)
                && !items_registered(items@, name_views(names@))),
        },
{
    let ghost views = name_views(names@);
    let mut total: u64 = 0;
    let mut i: usize = 0;
    while i < items.len()
        invariant
            i <= items@.len(),
            views == name_views(names@),
            total == retained_sum(shown_text(items@, views, i as int).len() as int),
            forall|k: int|
                0 <= k < i ==> (#[trigger] items@[k] matches TextShowItem::Bytes(place) ==> place
                    < views.len()),
        decreases items@.len() - i,
    {
        if i % GUARD_INTERVAL == 0 {
            match guard.probe(Some(source)) {
                Ok(_) => {},
                Err(stop) => {
                    return Err(stop);
                },
            }
        }
        match items[i] {
            TextShowItem::Bytes(place) => {
                if place >= names.len() {
                    assert(items@[i as int] == TextShowItem::Bytes(place));
                    return Err(broken_stop(source));
                }
                assert(views[place as int] == names@[place as int]@);
                total = total.saturating_add(names[place].len() as u64);
            },
            TextShowItem::Adjustment(_) => {},
        }
        i = i + 1;
    }
    match guard.probe(Some(source)) {
        Ok(_) => Ok(total),
        Err(stop) => Err(stop),
    }
}

/// Whether a glyph is in a list.
fn contains_glyph(glyphs: &Vec<u16>, glyph: u16) -> (found: bool)
    ensures
        found == glyphs@.contains(glyph),
{
    let mut i: usize = 0;
    while i < glyphs.len()
        invariant
            i <= glyphs@.len(),
            forall|k: int| 0 <= k < i ==> #[trigger] glyphs@[k] != glyph,
        decreases glyphs@.len() - i,
    {
        if glyphs[i] == glyph {
            return true;
        }
        i = i + 1;
    }
    false
}

/// Counts the outline segments of the glyphs that items use, each glyph once; a count that does not
/// fit is all there is.
fn count_segments<S: ByteSource, C: ContentCancellation>(
    face: &FontFace,
    items: &Vec<TextShowItem>,
    names: &Vec<Vec<u8>>,
    source: ContentOperatorSource,
    guard: &RuntimeGuard<'_, S, C>,
) -> (count: Result<u64, RunStop>)
    requires
        items_registered(items@, name_views(names@)),
    ensures
        ({
            let text = shown_text(items@, name_views(names@), items@.len() as int);
            let glyphs = used_glyphs(face@, text, text.len() as int);
            match count {
                Ok(total) => text_has_outlines(face@, text) && total == retained_sum(
                    segments_of(face@, glyphs, glyphs.len() as int),
                ),
                Err(stop) => is_guard_stop(stop, Some(source), guard@) || (stop == broken(source)
                    && !text_has_outlines(face@, text)),
            }
        }),
{
    let ghost views = name_views(names@);
    let ghost full = shown_text(items@, views, items@.len() as int);
    let ghost mut at: int = 0;
    let mut used: Vec<u16> = Vec::new();
    let mut total: u64 = 0;
    let mut probed: usize = 0;
    let mut i: usize = 0;
    while i < items.len()
        invariant
            i <= items@.len(),
            views == name_views(names@),
            items_registered(items@, views),
            full == shown_text(items@, views, items@.len() as int),
            at == shown_text(items@, views, i as int).len(),
            at <= full.len(),
            used@ == used_glyphs(face@, full, at),
            total == retained_sum(segments_of(face@, used@, used@.len() as int)),
            forall|k: int| 0 <= k < at ==> has_outline(face@, #[trigger] full[k]),
        decreases items@.len() - i,
    {
        match items[i] {
            TextShowItem::Bytes(place) => {
                assert(views[place as int] == names@[place as int]@);
                let name = &names[place];
                let mut b: usize = 0;
                proof {
                    text_len_grows(items@, views, i + 1, items@.len() as int);
                }
                while b < name.len()
                    invariant
                        b <= name@.len(),
                        i < items@.len(),
                        items@[i as int] == TextShowItem::Bytes(place),
                        place < names@.len(),
                        name@ == views[place as int],
                        views == name_views(names@),
                        full == shown_text(items@, views, items@.len() as int),
                        at == shown_text(items@, views, i as int).len() + b,
                        shown_text(items@, views, i as int).len() + name@.len() <= full.len(),
                        used@ == used_glyphs(face@, full, at),
                        total == retained_sum(segments_of(face@, used@, used@.len() as int)),
                        forall|k: int| 0 <= k < at ==> has_outline(face@, #[trigger] full[k]),
                    decreases name@.len() - b,
                {
                    probed = probed.wrapping_add(1);
                    if probed % GUARD_INTERVAL == 0 {
                        match guard.probe(Some(source)) {
                            Ok(_) => {},
                            Err(stop) => {
                                return Err(stop);
                            },
                        }
                    }
                    proof {
                        text_at(items@, views, i as int, items@.len() as int, b as int);
                    }
                    let byte: u8 = name[b];
                    assert(full[at] == byte);
                    let glyph: u16 = match face.glyph_id(byte) {
                        Some(glyph) => glyph,
                        None => {
                            assert(!has_outline(face@, full[at]));
                            return Err(broken_stop(source));
                        },
                    };
                    let outline: usize = match face.outline(glyph) {
                        Some(outline) => outline,
                        None => {
                            assert(!has_outline(face@, full[at]));
                            return Err(broken_stop(source));
                        },
                    };
                    if !contains_glyph(&used, glyph) {
                        assert(face@.outlines[outline as int].segments
                            == face.outlines@[outline as int].segments@);
                        total = total.saturating_add(
                            face.outlines[outline].segments.len() as u64,
                        );
                        proof {
                            segments_nonnegative(face@, used@, used@.len() as int);
                        }
                        let ghost before = used@;
                        used.push(glyph);
                        proof {
                            segments_prefix(face@, used@, before, before.len() as int);
                        }
                    }
                    proof {
                        at = at + 1;
                    }
                    b = b + 1;
                }
            },
            TextShowItem::Adjustment(_) => {},
        }
        i = i + 1;
    }
    match guard.probe(Some(source)) {
        Ok(_) => Ok(total),
        Err(stop) => Err(stop),
    }
}

impl TextExecutor {
    /// Whether two executions have the same budgets and room.
    pub open spec fn same_room(&self, other: &Self) -> bool {
        &&& self.saved_slots == other.saved_slots
        &&& self.vm_limits == other.vm_limits
        &&& self.base_retained == other.base_retained
        &&& self.peak_glyph_retained >= other.peak_glyph_retained
    }

    /// Whether the glyphs of a run retain the same as before.
    pub open spec fn same_retained(&self, other: &Self) -> bool {
        &&& self.glyph_retained == other.glyph_retained
        &&& self.outline_retained == other.outline_retained
        &&& self.outlines == other.outlines
    }

    /// Whether what the glyphs of a run retain is counted, and is within the glyph budget and the
    /// interpreter's, beside what else is retained.
    pub open spec fn within_budgets(&self, limits: ContentFontLimitConfig) -> bool {
        let held = self.glyph_retained + self.outline_retained;
        &&& self.outline_retained >= run_segments(self@.outlines, self@.outlines.len() as int)
            * vstd::layout::size_of::<GlyphSegment>()
        &&& held <= limits.max_glyph_retained_bytes
        &&& self.base_retained + held <= self.vm_limits@.max_retained_bytes
        &&& held <= self.peak_glyph_retained
    }

    /// Starts text execution with room for as many saved parameters as the plan nests.
    pub fn new(
        saved_slots: usize,
        vm_limits: ContentVmLimits,
        consumed: u64,
        materialization_peak: &mut u64,
    ) -> (executor: Result<Self, ContentVmError>)
        ensures
            *final(materialization_peak) >= *old(materialization_peak),
            match executor {
                Ok(executor) => executor@ == initial_execution() && executor.saved_slots
                    == saved_slots && executor.vm_limits == vm_limits && executor.base_retained
                    >= consumed && executor.base_retained <= vm_limits@.max_retained_bytes
                    && executor.peak_glyph_retained == 0,
                Err(error) => error.is_memory_failure(),
            },
    {
        let mut saved: Vec<TextParameters> = Vec::new();
        let granted: u64 = match reserve_exact_slots(
            &mut saved,
            saved_slots,
            consumed,
            vm_limits,
            None,
            materialization_peak,
        ) {
            Ok(granted) => granted,
            Err(error) => {
                return Err(error);
            },
        };
        let base: u64 = consumed + granted;
        let zero = SceneScalar::from_scaled(0);
        let executor = Self {
            parameters: TextParameters {
                character_spacing: zero,
                word_spacing: zero,
                horizontal_scaling: SceneScalar::from_scaled(1_000_000_000),
                leading: zero,
                font: None,
                font_size: zero,
                render_mode: 0,
                rise: zero,
            },
            saved,
            saved_slots,
            text_matrix: Matrix::identity(),
            line_matrix: Matrix::identity(),
            active: false,
            stage: TextStage::Idle,
            item: 0,
            byte: 0,
            glyphs: Vec::new(),
            outlines: Vec::new(),
            shown_glyphs: 0,
            shown_segments: 0,
            vm_limits,
            base_retained: base,
            glyph_retained: 0,
            outline_retained: 0,
            peak_glyph_retained: 0,
        };
        proof {
            assert(executor@.saved =~= initial_execution().saved);
            assert(executor@.glyphs =~= initial_execution().glyphs);
            assert(executor@.outlines =~= initial_execution().outlines);
        }
        Ok(executor)
    }

    /// Saves the parameters, into room that was made for them.
    pub fn save_parameters(&mut self, source: ContentOperatorSource) -> (result: Result<
        (),
        ContentVmError,
    >)
        ensures
            final(self).same_room(old(self)),
            final(self).peak_glyph_retained == old(self).peak_glyph_retained,
            if old(self)@.saved.len() < old(self).saved_slots {
                &&& result is Ok
                &&& final(self)@ == (TextView {
                    saved: old(self)@.saved.push(old(self)@.parameters),
                    ..old(self)@
                })
            } else {
                &&& result == Err::<(), ContentVmError>(
                    crate::content::vm_error::operator_failure(
                        ContentVmErrorCode::InternalState,
                        source,
                    ),
                )
                &&& final(self)@ == old(self)@
            },
    {
        if self.saved.len() >= self.saved_slots {
            return Err(vm_error(ContentVmErrorCode::InternalState, source));
        }
        self.saved.push(self.parameters);
        Ok(())
    }

    /// Restores the last saved parameters.
    pub fn restore_parameters(&mut self, source: ContentOperatorSource) -> (result: Result<
        (),
        ContentVmError,
    >)
        ensures
            final(self).same_room(old(self)),
            final(self).peak_glyph_retained == old(self).peak_glyph_retained,
            if old(self)@.saved.len() > 0 {
                &&& result is Ok
                &&& final(self)@ == (TextView {
                    parameters: old(self)@.saved.last(),
                    saved: old(self)@.saved.drop_last(),
                    ..old(self)@
                })
            } else {
                &&& result == Err::<(), ContentVmError>(
                    crate::content::vm_error::operator_failure(
                        ContentVmErrorCode::InternalState,
                        source,
                    ),
                )
                &&& final(self)@ == old(self)@
            },
    {
        match self.saved.pop() {
            Some(parameters) => {
                self.parameters = parameters;
                Ok(())
            },
            None => Err(vm_error(ContentVmErrorCode::InternalState, source)),
        }
    }

    /// Starts or ends a text object.
    pub fn execute_boundary(&mut self, action: TextAction) -> (result: Result<(), RunStop>)
        ensures
            final(self).same_room(old(self)),
            final(self).peak_glyph_retained == old(self).peak_glyph_retained,
            final(self).same_retained(old(self)),
            match boundary(old(self)@, action) {
                Ok(next) => result is Ok && final(self)@ == next,
                Err(stop) => result == Err::<(), RunStop>(stop) && final(self)@ == old(self)@,
            },
    {
        match action {
            TextAction::Begin { source } => {
                if self.active {
                    return Err(broken_stop(source));
                }
                self.text_matrix = Matrix::identity();
                self.line_matrix = Matrix::identity();
                self.active = true;
                Ok(())
            },
            TextAction::End { source } => {
                if !self.active {
                    return Err(broken_stop(source));
                }
                self.active = false;
                Ok(())
            },
            _ => Err(broken_stop(action.source())),
        }
    }

    /// What the executor and its glyphs retained at most.
    pub fn peak_retained_bytes(&self) -> (bytes: u64)
        ensures
            bytes == retained_sum(self.base_retained + self.peak_glyph_retained),
    {
        self.base_retained.saturating_add(self.peak_glyph_retained)
    }

    /// Holds glyph bytes against the glyph and the interpreter budgets.
    fn preflight_glyph_candidate(
        &self,
        limits: ContentFontLimits,
        consumed: u64,
        attempted: u64,
        source: ContentOperatorSource,
    ) -> (result: Result<(), RunStop>)
        ensures
            self.vm_limits@.admissible(),
            result matches Err(stop) ==> is_memory_stop(stop),
            result == (match font_preflight(
                limits@,
                ContentFontLimitKind::GlyphRetainedBytes,
                consumed,
                attempted,
                Some(source),
            ) {
                Err(error) => Err(vm_stop(error)),
                Ok(_) => match vm_preflight(
                    self.vm_limits@,
                    ContentVmLimitKind::RetainedBytes,
                    retained_sum(self.base_retained + consumed),
                    attempted,
                    Some(source),
                ) {
                    Err(error) => Err(vm_stop(error)),
                    Ok(_) => Ok::<(), RunStop>(()),
                },
            }),
    {
        let _ceiling: u64 = self.vm_limits.max_retained_bytes();
        match limits.preflight(
            ContentFontLimitKind::GlyphRetainedBytes,
            consumed,
            attempted,
            Some(source),
        ) {
            Ok(_) => {},
            Err(error) => {
                return Err(vm_stop_of(error));
            },
        }
        let total: u64 = self.base_retained.saturating_add(consumed);
        match self.vm_limits.preflight(
            ContentVmLimitKind::RetainedBytes,
            total,
            attempted,
            Some(source),
        ) {
            Ok(_) => Ok(()),
            Err(error) => Err(vm_stop_of(error)),
        }
    }

    /// Makes room for the glyphs of a run.
    fn reserve_glyphs(
        &mut self,
        limits: ContentFontLimits,
        glyph_count: u64,
        segment_count: u64,
        source: ContentOperatorSource,
    ) -> (result: Result<(), RunStop>)
        requires
            glyph_count <= u32::MAX,
            segment_count <= u32::MAX,
        ensures
            final(self).same_room(old(self)),
            final(self)@ == (TextView {
                item: 0,
                byte: 0,
                glyphs: Seq::empty(),
                outlines: Seq::empty(),
                ..old(self)@
            }),
            result matches Err(stop) ==> is_memory_stop(stop),
            result is Ok ==> final(self).within_budgets(limits@) && final(self).glyph_retained
                >= glyph_count * vstd::layout::size_of::<GlyphUse>(),
    {
        self.item = 0;
        self.byte = 0;
        self.glyphs = Vec::new();
        self.outlines = Vec::new();
        proof {
            assert(self@.glyphs =~= Seq::empty());
            assert(self@.outlines =~= Seq::empty());
        }
        self.glyph_retained = 0;
        self.outline_retained = 0;
        let glyph_nominal: u64 = byte_width::<GlyphUse>(glyph_count as usize);
        let path_nominal: u64 = byte_width::<GlyphSegment>(segment_count as usize);
        let nominal: u64 = glyph_nominal.saturating_add(path_nominal);
        match self.preflight_glyph_candidate(limits, 0, nominal, source) {
            Ok(_) => {},
            Err(stop) => {
                return Err(stop);
            },
        }
        if !try_reserve_exact(&mut self.glyphs, glyph_count as usize) {
            return Err(
                vm_stop_of(
                    ContentVmError::font_resource(
                        ContentFontLimit::new(
                            ContentFontLimitKind::GlyphAllocation,
                            limits.max_glyph_retained_bytes(),
                            0,
                            glyph_nominal,
                        ),
                        Some(source),
                    ),
                ),
            );
        }
        let granted: u64 = capacity_bytes(&self.glyphs);
        self.glyph_retained = if granted < glyph_nominal {
            glyph_nominal
        } else {
            granted
        };
        assert(run_segments(self@.outlines, 0) * vstd::layout::size_of::<GlyphSegment>() == 0)
            by (nonlinear_arith)
            requires
                run_segments(self@.outlines, 0) == 0,
        ;
        if self.peak_glyph_retained < self.glyph_retained {
            self.peak_glyph_retained = self.glyph_retained;
        }
        self.preflight_glyph_candidate(limits, 0, self.glyph_retained, source)
    }

    /// Begins the piece at hand.
    #[verifier::rlimit(30)]
    fn begin_piece<S: ByteSource, C: ContentCancellation>(
        &mut self,
        sources: &TextSources<'_>,
        show: ShowContext,
        guard: &RuntimeGuard<'_, S, C>,
    ) -> (result: Result<TextStep, RunStop>)
        requires
            show_ok(old(self)@, sources@, show),
        ensures
            final(self).same_room(old(self)),
            text_settled(
                result,
                piece_begun(old(self)@, sources@, show),
                final(self)@,
                show.source,
                guard@,
            ),
            result matches Err(stop) ==> piece_refused(
                piece_begun(old(self)@, sources@, show),
                old(self)@.outlines,
                stop,
                show.source,
                guard@,
            ),
            result is Ok ==> text_ok(final(self)@, sources@),
            result is Ok && old(self).within_budgets(sources.limits@) ==> final(self).within_budgets(
                sources.limits@,
            ),
    {
        let ghost scope = sources@;
        let ghost before = self@;
        let items = &sources.items[show.items];
        assert(scope.items[show.items as int] == items@);
        let mut pending = true;
        while pending && self.item < items.len()
            invariant
                self.same_room(old(self)),
                self.same_retained(old(self)),
                scope == sources@,
                show_ok(before, scope, show),
                show.items < sources.items@.len(),
                items@ == scope.items[show.items as int],
                self@ == (TextView { item: self.item as int, byte: self.byte as int, ..before }),
                before.item <= items@.len() ==> self.item <= items@.len(),
                current_piece(items@, scope.names, before.item, before.byte) == current_piece(
                    items@,
                    scope.names,
                    self.item as int,
                    self.byte as int,
                ),
                !pending ==> on_piece(self@, scope, show) && current_piece(
                    items@,
                    scope.names,
                    self.item as int,
                    self.byte as int,
                ) == (self.item as int, self.byte as int),
            decreases items@.len() - self.item + (if pending {
                1int
            } else {
                0int
            }),
        {
            match items[self.item] {
                TextShowItem::Bytes(place) => {
                    assert(items@[self.item as int] == TextShowItem::Bytes(place));
                    assert(scope.names[place as int] == sources.names@[place as int]@);
                    if self.byte >= sources.names[place].len() {
                        self.item = self.item + 1;
                        self.byte = 0;
                    } else {
                        pending = false;
                    }
                },
                TextShowItem::Adjustment(_) => {
                    pending = false;
                },
            }
        }
        if self.item >= items.len() {
            if self.glyphs.len() > 0 {
                match self.settle_run(sources.limits, show.source) {
                    Ok(_) => {},
                    Err(stop) => {
                        return Err(stop);
                    },
                }
                self.stage = TextStage::Drawing(show);
                return Ok(TextStep::Draw);
            }
            self.record(show);
            return Ok(TextStep::Done);
        }
        match items[self.item] {
            TextShowItem::Bytes(place) => {
                assert(items@[self.item as int] == TextShowItem::Bytes(place));
                assert(scope.names[place as int] == sources.names@[place as int]@);
                let face = match show.font {
                    Some(font) => &sources.faces[font],
                    None => {
                        return Err(broken_stop(show.source));
                    },
                };
                assert(scope.faces[show.font->0 as int] == face@);
                let byte: u8 = sources.names[place][self.byte];
                assert(byte == current_byte(self@, scope, show));
                proof {
                    byte_has_outline(self@, scope, show);
                }
                let glyph: u16 = match face.glyph_id(byte) {
                    Some(glyph) => glyph,
                    None => {
                        return Err(broken_stop(show.source));
                    },
                };
                let ghost at = self@;
                match self.build_outline(face, glyph, sources.limits, show.source, guard) {
                    Ok(_) => {},
                    Err(stop) => {
                        return Err(stop);
                    },
                }
                proof {
                    with_outline_has_it(at.outlines, face@, glyph);
                }
                self.stage = TextStage::Sizing(show);
                Ok(
                    TextStep::Scaled {
                        left: self.parameters.font_size,
                        right: self.parameters.horizontal_scaling,
                    },
                )
            },
            TextShowItem::Adjustment(value) => match text_adjustment(
                self.parameters.font_size,
                value,
            ) {
                Ok(base) => {
                    self.stage = TextStage::Shifting(show);
                    Ok(TextStep::Scaled { left: base, right: self.parameters.horizontal_scaling })
                },
                Err(error) => Err(RunStop::Failed(ContentVmFailure::Scene(error))),
            },
        }
    }

    /// Holds a finished run against the glyph budgets.
    fn settle_run(&mut self, limits: ContentFontLimits, source: ContentOperatorSource) -> (result: Result<
        (),
        RunStop,
    >)
        ensures
            final(self).same_room(old(self)),
            final(self)@ == old(self)@,
            result matches Err(stop) ==> is_memory_stop(stop),
            final(self).same_retained(old(self)),
            result is Ok ==> {
                let held = old(self).glyph_retained + old(self).outline_retained;
                &&& held <= limits@.max_glyph_retained_bytes
                &&& old(self).base_retained + held <= old(self).vm_limits@.max_retained_bytes
            },
    {
        let held: u64 = self.glyph_retained.saturating_add(self.outline_retained);
        match self.preflight_glyph_candidate(limits, 0, held, source) {
            Ok(_) => {},
            Err(stop) => {
                return Err(stop);
            },
        }
        if self.peak_glyph_retained < held {
            self.peak_glyph_retained = held;
        }
        Ok(())
    }

    /// Records a shown text.
    fn record(&mut self, show: ShowContext)
        requires
            old(self).shown_glyphs + show.glyph_count <= u64::MAX,
            old(self).shown_segments + show.segment_count <= u64::MAX,
        ensures
            final(self).same_room(old(self)),
            final(self).same_retained(old(self)),
            final(self)@ == recorded(old(self)@, show),
    {
        self.stage = TextStage::Idle;
        self.shown_glyphs = self.shown_glyphs + show.glyph_count;
        self.shown_segments = self.shown_segments + show.segment_count;
    }

    /// Begins a text.
    fn show<S: ByteSource, C: ContentCancellation>(
        &mut self,
        sources: &TextSources<'_>,
        show: ShowContext,
        guard: &RuntimeGuard<'_, S, C>,
    ) -> (result: Result<TextStep, RunStop>)
        ensures
            final(self).same_room(old(self)),
            text_settled(
                result,
                show_begun(old(self)@, sources@, show),
                final(self)@,
                show.source,
                guard@,
            ),
            result is Ok ==> text_ok(final(self)@, sources@),
            result is Ok ==> final(self).within_budgets(sources.limits@),
    {
        let ghost scope = sources@;
        let font: usize = match show.font {
            Some(font) => font,
            None => {
                return Err(broken_stop(show.source));
            },
        };
        if show.items >= sources.items.len() || font >= sources.faces.len() {
            return Err(broken_stop(show.source));
        }
        let items = &sources.items[show.items];
        let face = &sources.faces[font];
        assert(scope.items[show.items as int] == items@);
        assert(scope.faces[show.font->0 as int] == face@);
        let glyph_count: u64 = match count_glyphs(items, sources.names, show.source, guard) {
            Ok(count) => count,
            Err(stop) => {
                return Err(stop);
            },
        };
        match sources.limits.preflight(
            ContentFontLimitKind::Glyphs,
            self.shown_glyphs,
            glyph_count,
            Some(show.source),
        ) {
            Ok(_) => {},
            Err(error) => {
                return Err(vm_stop_of(error));
            },
        }
        let segment_count: u64 = match count_segments(
            face,
            items,
            sources.names,
            show.source,
            guard,
        ) {
            Ok(count) => count,
            Err(stop) => {
                return Err(stop);
            },
        };
        match sources.limits.preflight(
            ContentFontLimitKind::OutlineSegments,
            self.shown_segments,
            segment_count,
            Some(show.source),
        ) {
            Ok(_) => {},
            Err(error) => {
                return Err(vm_stop_of(error));
            },
        }
        let _most: u64 = sources.limits.max_glyphs();
        match self.reserve_glyphs(sources.limits, glyph_count, segment_count, show.source) {
            Ok(_) => {},
            Err(stop) => {
                return Err(stop);
            },
        }
        let counted = ShowContext {
            items: show.items,
            font: show.font,
            paint: show.paint,
            ctm: show.ctm,
            command_source: show.command_source,
            source: show.source,
            glyph_count,
            segment_count,
        };
        self.begin_piece(sources, counted, guard)
    }

    /// Place of a glyph's outline in the run.
    fn find_outline(&self, glyph: u16) -> (place: usize)
        ensures
            place == run_outline(self@.outlines, glyph, 0),
            place <= self.outlines@.len(),
    {
        let mut i: usize = 0;
        while i < self.outlines.len()
            invariant
                i <= self.outlines@.len(),
                run_outline(self@.outlines, glyph, 0) == run_outline(
                    self@.outlines,
                    glyph,
                    i as int,
                ),
            decreases self.outlines@.len() - i,
        {
            assert(self@.outlines[i as int].glyph_id == self.outlines@[i as int].glyph_id);
            if self.outlines[i].glyph_id == glyph {
                return i;
            }
            i = i + 1;
        }
        i
    }

    /// Builds the scene outline of a glyph, unless the run has it.
    fn build_outline<S: ByteSource, C: ContentCancellation>(
        &mut self,
        face: &FontFace,
        glyph: u16,
        limits: ContentFontLimits,
        source: ContentOperatorSource,
        guard: &RuntimeGuard<'_, S, C>,
    ) -> (place: Result<usize, RunStop>)
        requires
            face_outline(face@, glyph, 0) < face@.outlines.len(),
        ensures
            final(self).same_room(old(self)),
            match place {
                Ok(place) => {
                    &&& place == run_outline(old(self)@.outlines, glyph, 0)
                    &&& final(self)@ == (TextView {
                        outlines: with_outline(old(self)@.outlines, face@, glyph),
                        ..old(self)@
                    })
                },
                Err(stop) => run_outline(old(self)@.outlines, glyph, 0) >= old(self)@.outlines.len()
                    && (is_guard_stop(stop, Some(source), guard@) || is_memory_stop(stop)),
            },
            place is Ok && old(self).within_budgets(limits@) ==> final(self).within_budgets(
                limits@,
            ),
    {
        let place: usize = self.find_outline(glyph);
        if place < self.outlines.len() {
            return Ok(place);
        }
        let at: usize = match face.outline(glyph) {
            Some(at) => at,
            None => {
                return Err(broken_stop(source));
            },
        };
        let segments = &face.outlines[at].segments;
        assert(face@.outlines[at as int].segments == segments@);
        match guard.probe(Some(source)) {
            Ok(_) => {},
            Err(stop) => {
                return Err(stop);
            },
        }
        let nominal: u64 = byte_width::<GlyphSegment>(segments.len());
        let consumed: u64 = self.glyph_retained.saturating_add(self.outline_retained);
        match self.preflight_glyph_candidate(limits, consumed, nominal, source) {
            Ok(_) => {},
            Err(stop) => {
                return Err(stop);
            },
        }
        let mut built: Vec<GlyphSegment> = Vec::new();
        if !try_reserve_exact(&mut built, segments.len()) {
            return Err(
                vm_stop_of(
                    ContentVmError::font_resource(
                        ContentFontLimit::new(
                            ContentFontLimitKind::GlyphAllocation,
                            limits.max_glyph_retained_bytes(),
                            consumed,
                            nominal,
                        ),
                        Some(source),
                    ),
                ),
            );
        }
        let granted: u64 = capacity_bytes(&built);
        let actual: u64 = if granted < nominal {
            nominal
        } else {
            granted
        };
        let candidate: u64 = consumed.saturating_add(actual);
        if self.peak_glyph_retained < candidate {
            self.peak_glyph_retained = candidate;
        }
        match self.preflight_glyph_candidate(limits, consumed, actual, source) {
            Ok(_) => {},
            Err(stop) => {
                return Err(stop);
            },
        }
        let mut i: usize = 0;
        while i < segments.len()
            invariant
                i <= segments@.len(),
                built@.len() == i,
                self.same_room(old(self)),
                self.same_retained(old(self)),
                self@ == old(self)@,
                place == old(self)@.outlines.len(),
                run_outline(old(self)@.outlines, glyph, 0) == place,
                consumed == retained_sum(self.glyph_retained + self.outline_retained),
                consumed + actual <= limits@.max_glyph_retained_bytes,
                self.base_retained + consumed + actual <= self.vm_limits@.max_retained_bytes,
                consumed + actual <= self.peak_glyph_retained,
                actual >= segments@.len() * vstd::layout::size_of::<GlyphSegment>(),
                run_outline(old(self)@.outlines, glyph, 0) >= old(self)@.outlines.len(),
                forall|k: int|
                    0 <= k < i ==> #[trigger] built@[k] == segment_value(segments@[k]),
            decreases segments@.len() - i,
        {
            if i % GUARD_INTERVAL == 0 {
                match guard.probe(Some(source)) {
                    Ok(_) => {},
                    Err(stop) => {
                        return Err(stop);
                    },
                }
            }
            let segment = match segments[i] {
                OutlineSegment::MoveTo(point) => GlyphSegment::MoveTo(scene_font_point(point)),
                OutlineSegment::LineTo(point) => GlyphSegment::LineTo(scene_font_point(point)),
                OutlineSegment::QuadTo { control, end } => GlyphSegment::QuadTo {
                    control: scene_font_point(control),
                    end: scene_font_point(end),
                },
                OutlineSegment::CloseContour => GlyphSegment::ClosePath,
            };
            built.push(segment);
            i = i + 1;
        }
        match guard.probe(Some(source)) {
            Ok(_) => {},
            Err(stop) => {
                return Err(stop);
            },
        }
        self.outline_retained = self.outline_retained.saturating_add(actual);
        proof {
            assert(built@ =~= segments@.map_values(
                |segment: OutlineSegment| segment_value(segment),
            ));
        }
        self.outlines.push(
            RunOutline {
                source: face.resource_source(),
                glyph_id: glyph,
                units_per_em: face.units_per_em,
                segments: built,
            },
        );
        proof {
            assert(self@.outlines =~= with_outline(old(self)@.outlines, face@, glyph));
            let before = old(self)@.outlines;
            let width = vstd::layout::size_of::<GlyphSegment>() as int;
            run_segments_prefix(before, self@.outlines, before.len() as int);
            assert((run_segments(before, before.len() as int) + segments@.len()) * width
                == run_segments(before, before.len() as int) * width + segments@.len() * width)
                by (nonlinear_arith);
        }
        Ok(place)
    }

    /// Places a glyph, and asks for its advance.
    fn place_glyph(
        &mut self,
        sources: &TextSources<'_>,
        show: ShowContext,
        transform: Matrix,
    ) -> (result: Result<TextStep, RunStop>)
        requires
            placeable(old(self)@, sources@, show),
        ensures
            final(self).same_room(old(self)),
            match result {
                Ok(step) => glyph_placed(old(self)@, sources@, show, transform) == Ok::<
                    (TextView, TextStep),
                    RunStop,
                >((final(self)@, step)),
                Err(stop) => glyph_placed(old(self)@, sources@, show, transform) == Err::<
                    (TextView, TextStep),
                    RunStop,
                >(stop),
            },
            result is Ok ==> text_ok(final(self)@, sources@),
            old(self).within_budgets(sources.limits@) ==> final(self).within_budgets(
                sources.limits@,
            ),
    {
        let ghost scope = sources@;
        let items = &sources.items[show.items];
        assert(scope.items[show.items as int] == items@);
        let face = match show.font {
            Some(font) => &sources.faces[font],
            None => {
                return Err(broken_stop(show.source));
            },
        };
        assert(scope.faces[show.font->0 as int] == face@);
        let place: usize = match items[self.item] {
            TextShowItem::Bytes(place) => place,
            TextShowItem::Adjustment(_) => {
                return Err(broken_stop(show.source));
            },
        };
        assert(items@[self.item as int] == TextShowItem::Bytes(place));
        assert(scope.names[place as int] == sources.names@[place as int]@);
        let byte: u8 = sources.names[place][self.byte];
        assert(byte == current_byte(self@, scope, show));
        proof {
            byte_has_outline(self@, scope, show);
        }
        let glyph: u16 = match face.glyph_id(byte) {
            Some(glyph) => glyph,
            None => {
                return Err(broken_stop(show.source));
            },
        };
        let outline: usize = self.find_outline(glyph);
        let width: u32 = match face.width(byte) {
            Some(width) => width,
            None => {
                return Err(broken_stop(show.source));
            },
        };
        let base = match text_advance(
            self.parameters.font_size,
            self.parameters.character_spacing,
            self.parameters.word_spacing,
            width,
            byte,
        ) {
            Ok(base) => base,
            Err(error) => {
                return Err(RunStop::Failed(ContentVmFailure::Scene(error)));
            },
        };
        self.glyphs.push(GlyphUse { outline, transform, code: byte as u32 });
        self.stage = TextStage::Shifting(show);
        Ok(TextStep::Scaled { left: base, right: self.parameters.horizontal_scaling })
    }

    /// Moves the line, and shows a text on it.
    fn move_position(&mut self, tx: SceneScalar, ty: SceneScalar, show: Option<ShowContext>) -> (step:
        TextStep)
        ensures
            final(self).same_room(old(self)),
            final(self).same_retained(old(self)),
            moved_line(old(self)@, tx, ty, show) == Ok::<(TextView, TextStep), RunStop>(
                (final(self)@, step),
            ),
    {
        self.stage = TextStage::Moving(show);
        TextStep::Product { left: self.line_matrix, right: Matrix::translation(tx, ty) }
    }

    /// Moves to the next line, and shows a text on it.
    fn next_line(&mut self, show: Option<ShowContext>, source: ContentOperatorSource) -> (result: Result<
        TextStep,
        RunStop,
    >)
        ensures
            final(self).same_room(old(self)),
            final(self).same_retained(old(self)),
            text_settled(result, next_line(old(self)@, show), final(self)@, source, no_guard()),
            result matches Err(stop) ==> next_line(old(self)@, show) == Err::<
                (TextView, TextStep),
                RunStop,
            >(stop),
            result is Ok ==> final(self)@.stage == TextStage::Moving(show),
    {
        let zero = SceneScalar::from_scaled(0);
        match zero.checked_sub(self.parameters.leading) {
            Ok(ty) => Ok(self.move_position(zero, ty, show)),
            Err(error) => Err(RunStop::Failed(ContentVmFailure::Scene(error))),
        }
    }

    /// Begins one action inside a text object. `face` is what a font selection resolves to.
    #[verifier::rlimit(30)]
    pub fn execute<S: ByteSource, C: ContentCancellation>(
        &mut self,
        action: TextAction,
        face: Option<usize>,
        sources: &TextSources<'_>,
        guard: &RuntimeGuard<'_, S, C>,
    ) -> (result: Result<TextStep, RunStop>)
        ensures
            final(self).same_room(old(self)),
            text_settled(
                result,
                action_begun(old(self)@, sources@, action, face),
                final(self)@,
                action.spec_source(),
                guard@,
            ),
            !old(self).active || !(old(self)@.stage is Idle) ==> result == Err::<TextStep, RunStop>(
                broken(action.spec_source()),
            ),
            old(self).active && old(self)@.stage is Idle ==> guard@.clear() || (result matches Err(
                stop,
            ) && is_guard_stop(stop, Some(action.spec_source()), guard@)),
            !starts_run(action) ==> (result matches Err(stop) ==> is_guard_stop(
                stop,
                Some(action.spec_source()),
                guard@,
            ) || action_begun(old(self)@, sources@, action, face) == Err::<
                (TextView, TextStep),
                RunStop,
            >(stop)),
            result is Ok ==> text_ok(final(self)@, sources@),
            result is Ok ==> stage_source(final(self)@.stage, action.spec_source()),
            result is Ok && starts_run(action) ==> final(self).within_budgets(sources.limits@),
            result is Ok && old(self).within_budgets(sources.limits@) ==> final(self).within_budgets(
                sources.limits@,
            ),
    {
        let source = action.source();
        if !self.active {
            return Err(broken_stop(source));
        }
        match self.stage {
            TextStage::Idle => {},
            _ => {
                return Err(broken_stop(source));
            },
        }
        match guard.probe(Some(source)) {
            Ok(_) => {},
            Err(stop) => {
                return Err(stop);
            },
        }
        match action {
            TextAction::SetCharacterSpacing { value, .. } => {
                self.parameters.character_spacing = SceneScalar::from_scaled(value.scaled);
                Ok(TextStep::Done)
            },
            TextAction::SetWordSpacing { value, .. } => {
                self.parameters.word_spacing = SceneScalar::from_scaled(value.scaled);
                Ok(TextStep::Done)
            },
            TextAction::SetHorizontalScaling { value, .. } => match divide_scalar(
                SceneScalar::from_scaled(value.scaled),
                100,
            ) {
                Ok(scaling) => {
                    self.parameters.horizontal_scaling = scaling;
                    Ok(TextStep::Done)
                },
                Err(error) => Err(RunStop::Failed(ContentVmFailure::Scene(error))),
            },
            TextAction::SetLeading { value, .. } => {
                self.parameters.leading = SceneScalar::from_scaled(value.scaled);
                Ok(TextStep::Done)
            },
            TextAction::SetFont { size, .. } => {
                if face.is_none() {
                    return Err(broken_stop(source));
                }
                self.parameters.font = face;
                self.parameters.font_size = SceneScalar::from_scaled(size.scaled);
                Ok(TextStep::Done)
            },
            TextAction::SetRenderMode { value, .. } => {
                if value != 0 {
                    return Err(broken_stop(source));
                }
                self.parameters.render_mode = value;
                Ok(TextStep::Done)
            },
            TextAction::SetRise { value, .. } => {
                self.parameters.rise = SceneScalar::from_scaled(value.scaled);
                Ok(TextStep::Done)
            },
            TextAction::MovePosition { tx, ty, set_leading, .. } => {
                let tx = SceneScalar::from_scaled(tx.scaled);
                let ty = SceneScalar::from_scaled(ty.scaled);
                if set_leading {
                    match SceneScalar::from_scaled(0).checked_sub(ty) {
                        Ok(leading) => {
                            self.parameters.leading = leading;
                        },
                        Err(error) => {
                            return Err(RunStop::Failed(ContentVmFailure::Scene(error)));
                        },
                    }
                }
                Ok(self.move_position(tx, ty, None))
            },
            TextAction::SetMatrix { matrix, .. } => {
                self.text_matrix = matrix;
                self.line_matrix = matrix;
                Ok(TextStep::Done)
            },
            TextAction::NextLine { .. } => self.next_line(None, source),
            TextAction::Show {
                items,
                character_spacing,
                word_spacing,
                next_line: on_next_line,
                paint,
                ctm,
                command_source,
                ..
            } => {
                let font: Option<usize> = self.parameters.font;
                if let Some(value) = word_spacing {
                    self.parameters.word_spacing = SceneScalar::from_scaled(value.scaled);
                }
                if let Some(value) = character_spacing {
                    self.parameters.character_spacing = SceneScalar::from_scaled(value.scaled);
                }
                let show = ShowContext {
                    items,
                    font,
                    paint,
                    ctm,
                    command_source,
                    source,
                    glyph_count: 0,
                    segment_count: 0,
                };
                if on_next_line {
                    self.next_line(Some(show), source)
                } else {
                    self.show(sources, show, guard)
                }
            },
            _ => Err(broken_stop(source)),
        }
    }

    /// Passes the piece at hand.
    fn pass_piece(&mut self, sources: &TextSources<'_>, show: ShowContext)
        requires
            show_ok(old(self)@, sources@, show),
            on_piece(old(self)@, sources@, show),
        ensures
            final(self).same_room(old(self)),
            final(self).same_retained(old(self)),
            final(self)@ == piece_passed(old(self)@, sources@, show),
    {
        let ghost scope = sources@;
        let items = &sources.items[show.items];
        assert(scope.items[show.items as int] == items@);
        match items[self.item] {
            TextShowItem::Bytes(place) => {
                assert(items@[self.item as int] == TextShowItem::Bytes(place));
                assert(scope.names[place as int] == sources.names@[place as int]@);
                assert(self.byte < sources.names@[place as int].len());
                self.byte = self.byte + 1;
            },
            TextShowItem::Adjustment(_) => {
                assert(self.item < items.len());
                self.item = self.item + 1;
                self.byte = 0;
            },
        }
    }

    /// Goes on with a reply of the scene layer. `source` is the operator that is executed.
    #[verifier::rlimit(30)]
    pub fn resume<S: ByteSource, C: ContentCancellation>(
        &mut self,
        reply: TextReply,
        source: ContentOperatorSource,
        sources: &TextSources<'_>,
        guard: &RuntimeGuard<'_, S, C>,
    ) -> (result: Result<TextStep, RunStop>)
        requires
            text_ok(old(self)@, sources@),
            stage_source(old(self)@.stage, source),
        ensures
            final(self).same_room(old(self)),
            text_settled(
                result,
                resumed(old(self)@, sources@, reply, source),
                final(self)@,
                source,
                guard@,
            ),
            stage_allocates_nothing(old(self)@.stage) ==> (result matches Err(stop) ==> resumed(
                old(self)@,
                sources@,
                reply,
                source,
            ) == Err::<(TextView, TextStep), RunStop>(stop)),
            old(self)@.stage is Stepping ==> (result matches Err(stop) ==> piece_refused(
                resumed(old(self)@, sources@, reply, source),
                old(self)@.outlines,
                stop,
                source,
                guard@,
            )),
            result is Ok ==> text_ok(final(self)@, sources@),
            result is Ok ==> stage_source(final(self)@.stage, source),
            result is Ok && (old(self)@.stage matches TextStage::Moving(show) && show is Some)
                ==> final(self).within_budgets(sources.limits@),
            result is Ok && old(self).within_budgets(sources.limits@) ==> final(self).within_budgets(
                sources.limits@,
            ),
    {
        match (self.stage, reply) {
            (TextStage::Moving(show), TextReply::Product(Ok(matrix))) => {
                self.line_matrix = matrix;
                self.text_matrix = matrix;
                self.stage = TextStage::Idle;
                match show {
                    None => Ok(TextStep::Done),
                    Some(show) => self.show(sources, show, guard),
                }
            },
            (TextStage::Sizing(show), TextReply::Scaled(Ok(size))) => {
                self.stage = TextStage::Placing(show, size);
                Ok(TextStep::Product { left: show.ctm, right: self.text_matrix })
            },
            (TextStage::Placing(show, size), TextReply::Product(Ok(placed))) => {
                self.stage = TextStage::Rendering(show);
                let zero = SceneScalar::from_scaled(0);
                let render = Matrix {
                    a: size,
                    b: zero,
                    c: zero,
                    d: self.parameters.font_size,
                    e: zero,
                    f: self.parameters.rise,
                };
                Ok(TextStep::Product { left: placed, right: render })
            },
            (TextStage::Rendering(show), TextReply::Product(Ok(transform))) => self.place_glyph(
                sources,
                show,
                transform,
            ),
            (TextStage::Shifting(show), TextReply::Scaled(Ok(advance))) => {
                self.stage = TextStage::Stepping(show);
                Ok(
                    TextStep::Product {
                        left: self.text_matrix,
                        right: Matrix::translation(advance, SceneScalar::from_scaled(0)),
                    },
                )
            },
            (TextStage::Stepping(show), TextReply::Product(Ok(matrix))) => {
                self.text_matrix = matrix;
                self.pass_piece(sources, show);
                self.begin_piece(sources, show, guard)
            },
            (TextStage::Drawing(show), TextReply::Drawn(Ok(_))) => {
                self.record(show);
                Ok(TextStep::Done)
            },
            (TextStage::Moving(_), TextReply::Product(Err(error))) => Err(
                RunStop::Failed(ContentVmFailure::Scene(error)),
            ),
            (TextStage::Sizing(_), TextReply::Scaled(Err(error))) => Err(
                RunStop::Failed(ContentVmFailure::Scene(error)),
            ),
            (TextStage::Placing(_, _), TextReply::Product(Err(error))) => Err(
                RunStop::Failed(ContentVmFailure::Scene(error)),
            ),
            (TextStage::Rendering(_), TextReply::Product(Err(error))) => Err(
                RunStop::Failed(ContentVmFailure::Scene(error)),
            ),
            (TextStage::Shifting(_), TextReply::Scaled(Err(error))) => Err(
                RunStop::Failed(ContentVmFailure::Scene(error)),
            ),
            (TextStage::Stepping(_), TextReply::Product(Err(error))) => Err(
                RunStop::Failed(ContentVmFailure::Scene(error)),
            ),
            (TextStage::Drawing(_), TextReply::Drawn(Err(error))) => Err(
                RunStop::Failed(ContentVmFailure::Scene(error)),
            ),
            _ => Err(broken_stop(source)),
        }
    }
}

/// Whether going on from a stage allocates nothing, so that memory decides nothing: only a text or a
/// piece of one that begins takes room.
pub open spec fn stage_allocates_nothing(stage: TextStage) -> bool {
    match stage {
        TextStage::Moving(show) => show is None,
        TextStage::Stepping(_) => false,
        _ => true,
    }
}

/// Whether an action makes room for a run at once; on a new line it does so after the line moved.
pub open spec fn starts_run(action: TextAction) -> bool {
    action matches TextAction::Show { next_line, .. } && !next_line
}

/// Whether what is waited for belongs to an operator.
pub open spec fn stage_source(stage: TextStage, source: ContentOperatorSource) -> bool {
    match stage {
        TextStage::Idle => true,
        TextStage::Moving(show) => show matches Some(show) ==> show.source == source,
        TextStage::Sizing(show) => show.source == source,
        TextStage::Placing(show, _) => show.source == source,
        TextStage::Rendering(show) => show.source == source,
        TextStage::Shifting(show) => show.source == source,
        TextStage::Stepping(show) => show.source == source,
        TextStage::Drawing(show) => show.source == source,
    }
}

} // verus!
