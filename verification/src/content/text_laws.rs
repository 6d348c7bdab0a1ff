//! Laws of text execution.

use vstd::prelude::*;

use crate::content::accounting::retained_sum;
use crate::content::model::ContentOperatorSource;
use crate::content::plan::{TextAction, TextShowItem};
use crate::content::scene::identity_matrix;
use crate::content::text::{placeable, show_ok, text_ok};
use crate::content::text_model::{
    action_begun, boundary, current_byte, current_piece, glyph_of, glyph_placed, piece_begun,
    piece_passed, resumed, run_outline, show_begun, shown_text, FaceView, GlyphUse, RunOutlineView,
    ShowContext, TextReply, TextScope, TextStage, TextStep, TextView,
};

verus! {

/// The codes of placed glyphs.
pub open spec fn codes_of(glyphs: Seq<GlyphUse>) -> Seq<u32> {
    glyphs.map_values(|glyph: GlyphUse| glyph.code)
}

/// Bytes as codes.
pub open spec fn as_codes(text: Seq<u8>) -> Seq<u32> {
    text.map_values(|byte: u8| byte as u32)
}

/// The text before a place in a list.
pub open spec fn passed_text(
    items: Seq<TextShowItem>,
    names: Seq<Seq<u8>>,
    item: int,
    byte: int,
) -> Seq<u8> {
    shown_text(items, names, item) + (if item < items.len() && items[item] is Bytes {
        names[items[item]->Bytes_0 as int].take(byte)
    } else {
        Seq::empty()
    })
}

/// Whether every glyph of a run has its outline in it.
pub open spec fn outlines_ok(
    glyphs: Seq<GlyphUse>,
    outlines: Seq<RunOutlineView>,
    face: FaceView,
) -> bool {
    forall|i: int|
        0 <= i < glyphs.len() ==> {
            let glyph = #[trigger] glyphs[i];
            &&& glyph.outline < outlines.len()
            &&& glyph.code <= 0xff
            &&& glyph_of(face, glyph.code as u8) == Some(
                outlines[glyph.outline as int].glyph_id,
            )
        }
}

/// The run so far holds exactly the text before a place, glyph by glyph.
pub open spec fn run_at(
    view: TextView,
    scope: TextScope,
    show: ShowContext,
    item: int,
    byte: int,
) -> bool {
    let items = scope.items[show.items as int];
    &&& codes_of(view.glyphs) == as_codes(passed_text(items, scope.names, item, byte))
    &&& outlines_ok(view.glyphs, view.outlines, scope.faces[show.font->0 as int])
    &&& view.outlines.len() <= usize::MAX
}

/// The run so far holds exactly the text that was passed.
pub open spec fn run_ok(view: TextView, scope: TextScope) -> bool {
    match view.stage {
        TextStage::Idle => true,
        TextStage::Moving(_) => true,
        TextStage::Sizing(show) => run_at(view, scope, show, view.item, view.byte),
        TextStage::Placing(show, _) => run_at(view, scope, show, view.item, view.byte),
        TextStage::Rendering(show) => run_at(view, scope, show, view.item, view.byte),
        TextStage::Shifting(show) => run_at(view, scope, show, view.item, view.byte + 1),
        TextStage::Stepping(show) => run_at(view, scope, show, view.item, view.byte + 1),
        TextStage::Drawing(show) => run_at(
            view,
            scope,
            show,
            scope.items[show.items as int].len() as int,
            0,
        ),
    }
}

proof fn skipping_passes_nothing(
    items: Seq<TextShowItem>,
    names: Seq<Seq<u8>>,
    item: int,
    byte: int,
)
    requires
        0 <= item <= items.len(),
        item < items.len() && items[item] is Bytes ==> 0 <= byte
            <= names[items[item]->Bytes_0 as int].len(),
    ensures
        ({
            let (i, b) = current_piece(items, names, item, byte);
            &&& item <= i <= items.len()
            &&& passed_text(items, names, i, b) == passed_text(items, names, item, byte)
            &&& i < items.len() && items[i] is Bytes ==> 0 <= b
                < names[items[i]->Bytes_0 as int].len()
        }),
    decreases items.len() - item,
{
    if item < items.len() {
        if let TextShowItem::Bytes(place) = items[item] {
            let name = names[place as int];
            if byte >= name.len() {
                skipping_passes_nothing(items, names, item + 1, 0);
                assert(name.take(byte) =~= name);
                if item + 1 < items.len() && items[item + 1] is Bytes {
                    assert(names[items[item + 1]->Bytes_0 as int].take(0) =~= Seq::empty());
                }
                assert(passed_text(items, names, item + 1, 0) =~= passed_text(
                    items,
                    names,
                    item,
                    byte,
                ));
            }
        }
    }
}

proof fn beginning_a_piece_keeps_the_run(view: TextView, scope: TextScope, show: ShowContext)
    requires
        show_ok(view, scope, show),
        run_at(view, scope, show, view.item, view.byte),
        view.outlines.len() < usize::MAX,
        ({
            let items = scope.items[show.items as int];
            &&& 0 <= view.item <= items.len()
            &&& view.item < items.len() && items[view.item] is Bytes ==> 0 <= view.byte
                <= scope.names[items[view.item]->Bytes_0 as int].len()
        }),
    ensures
        piece_begun(view, scope, show) matches Ok((next, step)) ==> {
            &&& run_ok(next, scope)
            &&& step == TextStep::Draw ==> codes_of(next.glyphs) == as_codes(
                shown_text(
                    scope.items[show.items as int],
                    scope.names,
                    scope.items[show.items as int].len() as int,
                ),
            )
        },
{
    let items = scope.items[show.items as int];
    skipping_passes_nothing(items, scope.names, view.item, view.byte);
    let (i, b) = current_piece(items, scope.names, view.item, view.byte);
    if i >= items.len() {
        assert(passed_text(items, scope.names, i, b) =~= passed_text(items, scope.names, i, 0));
        assert(passed_text(items, scope.names, i, 0) =~= shown_text(
            items,
            scope.names,
            items.len() as int,
        ));
    } else if items[i] is Adjustment {
        assert(passed_text(items, scope.names, i, b) =~= passed_text(
            items,
            scope.names,
            i,
            b + 1,
        ));
    }
}

proof fn placing_keeps_the_run(
    view: TextView,
    scope: TextScope,
    show: ShowContext,
    transform: crate::content::scene::Matrix,
)
    requires
        placeable(view, scope, show),
        run_at(view, scope, show, view.item, view.byte),
        glyph_of(scope.faces[show.font->0 as int], current_byte(view, scope, show)) is Some,
    ensures
        glyph_placed(view, scope, show, transform) matches Ok((next, _)) ==> run_ok(next, scope),
{
    if let Ok((next, _)) = glyph_placed(view, scope, show, transform) {
        let items = scope.items[show.items as int];
        let byte = current_byte(view, scope, show);
        let face = scope.faces[show.font->0 as int];
        let name = scope.names[items[view.item]->Bytes_0 as int];
        let glyph = glyph_of(face, byte)->0;
        run_outline_finds(view.outlines, glyph, 0);
        assert(name.take(view.byte + 1) =~= name.take(view.byte).push(byte));
        assert(passed_text(items, scope.names, view.item, view.byte + 1) =~= passed_text(
            items,
            scope.names,
            view.item,
            view.byte,
        ).push(byte));
        assert(codes_of(next.glyphs) =~= codes_of(view.glyphs).push(byte as u32));
        assert(as_codes(
            passed_text(items, scope.names, view.item, view.byte).push(byte),
        ) =~= as_codes(passed_text(items, scope.names, view.item, view.byte)).push(byte as u32));
        assert forall|i: int| 0 <= i < next.glyphs.len() implies {
            let glyph = #[trigger] next.glyphs[i];
            &&& glyph.outline < next.outlines.len()
            &&& glyph.code <= 0xff
            &&& glyph_of(face, glyph.code as u8) == Some(
                next.outlines[glyph.outline as int].glyph_id,
            )
        } by {
            if i < view.glyphs.len() {
                assert(next.glyphs[i] == view.glyphs[i]);
            }
        }
    }
}

proof fn run_outline_finds(outlines: Seq<RunOutlineView>, glyph: u16, i: int)
    requires
        0 <= i <= outlines.len(),
    ensures
        ({
            let place = run_outline(outlines, glyph, i);
            &&& i <= place <= outlines.len()
            &&& place < outlines.len() ==> outlines[place].glyph_id == glyph
        }),
    decreases outlines.len() - i,
{
    if i < outlines.len() && outlines[i].glyph_id != glyph {
        run_outline_finds(outlines, glyph, i + 1);
    }
}

/// Starting a text keeps the run exact: it starts empty.
pub proof fn beginning_keeps_the_run(
    view: TextView,
    scope: TextScope,
    action: TextAction,
    face: Option<usize>,
)
    requires
        run_ok(view, scope),
    ensures
        action_begun(view, scope, action, face) matches Ok((next, _)) ==> run_ok(next, scope),
{
    if let Ok((next, _)) = action_begun(view, scope, action, face) {
        if let TextAction::Show {
            items,
            character_spacing,
            word_spacing,
            next_line,
            paint,
            ctm,
            command_source,
            source,
        } = action {
            if !next_line {
                let set = TextView {
                    parameters: crate::content::text_model::spaced(
                        view.parameters,
                        character_spacing,
                        word_spacing,
                    ),
                    ..view
                };
                let show = ShowContext {
                    items,
                    font: view.parameters.font,
                    paint,
                    ctm,
                    command_source,
                    source,
                    glyph_count: 0,
                    segment_count: 0,
                };
                starting_keeps_the_run(set, scope, show);
            }
        }
    }
}

proof fn starting_keeps_the_run(view: TextView, scope: TextScope, show: ShowContext)
    ensures
        show_begun(view, scope, show) matches Ok((next, _)) ==> run_ok(next, scope),
{
    if show_begun(view, scope, show) is Ok {
        let items = scope.items[show.items as int];
        let face = scope.faces[show.font->0 as int];
        let text = shown_text(items, scope.names, items.len() as int);
        let glyphs = crate::content::text_model::used_glyphs(face, text, text.len() as int);
        let segments = crate::content::text_model::segments_of(face, glyphs, glyphs.len() as int);
        let start = TextView {
            item: 0,
            byte: 0,
            glyphs: Seq::empty(),
            outlines: Seq::empty(),
            ..view
        };
        let counted = ShowContext {
            glyph_count: retained_sum(text.len() as int),
            segment_count: retained_sum(segments),
            ..show
        };
        if items.len() > 0 && items[0] is Bytes {
            assert(scope.names[items[0]->Bytes_0 as int].take(0) =~= Seq::empty());
        }
        assert(passed_text(items, scope.names, 0, 0) =~= Seq::empty());
        assert(codes_of(start.glyphs) =~= as_codes(passed_text(items, scope.names, 0, 0)));
        beginning_a_piece_keeps_the_run(start, scope, counted);
    }
}

/// Every step keeps the run exact: it holds one glyph for each byte that was passed, in order and
/// with the byte's outline. A run that is drawn holds the whole text.
pub proof fn resuming_keeps_the_run(
    view: TextView,
    scope: TextScope,
    reply: TextReply,
    source: ContentOperatorSource,
)
    requires
        text_ok(view, scope),
        run_ok(view, scope),
        view.outlines.len() < usize::MAX,
    ensures
        resumed(view, scope, reply, source) matches Ok((next, _)) ==> run_ok(next, scope),
{
    match (view.stage, reply) {
        (TextStage::Moving(Some(show)), TextReply::Product(Ok(matrix))) => {
            let moved = TextView {
                line_matrix: matrix,
                text_matrix: matrix,
                stage: TextStage::Idle,
                ..view
            };
            starting_keeps_the_run(moved, scope, show);
        },
        (TextStage::Rendering(show), TextReply::Product(Ok(transform))) => {
            crate::content::text::byte_has_outline(view, scope, show);
            placing_keeps_the_run(view, scope, show, transform);
        },
        (TextStage::Stepping(show), TextReply::Product(Ok(matrix))) => {
            let items = scope.items[show.items as int];
            let moved = TextView { text_matrix: matrix, ..view };
            let passed = piece_passed(moved, scope, show);
            if items[view.item] is Adjustment {
                assert(passed_text(items, scope.names, view.item, view.byte + 1) =~= shown_text(
                    items,
                    scope.names,
                    view.item + 1,
                ));
                if view.item + 1 < items.len() && items[view.item + 1] is Bytes {
                    assert(scope.names[items[view.item + 1]->Bytes_0 as int].take(0)
                        =~= Seq::empty());
                }
                assert(passed_text(items, scope.names, view.item + 1, 0) =~= shown_text(
                    items,
                    scope.names,
                    view.item + 1,
                ));
            }
            beginning_a_piece_keeps_the_run(passed, scope, show);
        },
        _ => {},
    }
}

/// Every text object starts with identity matrices, and text objects do not nest.
pub proof fn text_objects_start_afresh(view: TextView, source: ContentOperatorSource)
    ensures
        boundary(view, TextAction::Begin { source }) matches Ok(next) ==> {
            &&& !view.active
            &&& next.active
            &&& next.text_matrix == identity_matrix()
            &&& next.line_matrix == identity_matrix()
            &&& next.parameters == view.parameters
            &&& boundary(next, TextAction::Begin { source }) is Err
        },
        boundary(view, TextAction::End { source }) matches Ok(next) ==> view.active && boundary(
            next,
            TextAction::End { source },
        ) is Err,
{
}

} // verus!
