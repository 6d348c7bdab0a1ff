//! Laws of where text goes.

use vstd::prelude::*;

use crate::content::geometry::{carried_x, carried_y, composes, lands_on};
use crate::content::model::ContentOperatorSource;
use crate::content::number::ContentNumber;
use crate::content::plan::{TextAction, TextShowItem};
use crate::content::accounting::retained_sum;
use crate::content::scene::{Matrix, ScenePoint, SceneScalar};
use crate::content::text::{byte_has_outline, on_byte, show_ok};
use crate::content::text_math::{magnitude, nearest, rounding_is_nearest, FontPoint};
use crate::content::text_model::{
    action_begun, current_byte, current_piece, face_outline, glyph_of, piece_begun, resumed,
    run_outline, segment_value, show_begun, shown_text, FaceView, GlyphSegment, OutlineSegment,
    RunOutlineView, ShowContext, TextParameters, TextReply, TextScope, TextStage, TextStep,
    TextView,
};

verus! {

/// Whether a line that was moved carries every point to where the line before carried the point
/// `dx` and `dy` further on.
pub open spec fn moved_by(after: Matrix, before: Matrix, dx: int, dy: int) -> bool {
    forall|x: int, y: int|
        #![trigger carried_x(after, x, y)]
        lands_on(after, x, y, before, (x + dx) * 1_000_000_000, (y + dy) * 1_000_000_000)
}

/// Moving the text position moves the line, and the text with it, by the operands. Where it sets
/// the leading, the leading is what it moves down by.
pub proof fn positions_move_by_their_operands(
    view: TextView,
    scope: TextScope,
    tx: ContentNumber,
    ty: ContentNumber,
    set_leading: bool,
    source: ContentOperatorSource,
    matrix: Matrix,
)
    ensures
        view.active && view.stage is Idle && ty.scaled > i64::MIN ==> action_begun(
            view,
            scope,
            TextAction::MovePosition { tx, ty, set_leading, source },
            None,
        ) is Ok,
        action_begun(
            view,
            scope,
            TextAction::MovePosition { tx, ty, set_leading, source },
            None,
        ) matches Ok((waiting, step)) ==> (step matches TextStep::Product { left, right } && (
        composes(matrix, left, right) ==> (resumed(
            waiting,
            scope,
            TextReply::Product(Ok(matrix)),
            source,
        ) matches Ok((next, done)) && {
            &&& done == TextStep::Done
            &&& next.text_matrix == next.line_matrix
            &&& moved_by(next.line_matrix, view.line_matrix, tx.scaled as int, ty.scaled as int)
            &&& next.parameters == (TextParameters {
                leading: next.parameters.leading,
                ..view.parameters
            })
            &&& if set_leading {
                next.parameters.leading.scaled + ty.scaled == 0
            } else {
                next.parameters.leading == view.parameters.leading
            }
        }))),
{
    let action = TextAction::MovePosition { tx, ty, set_leading, source };
    if let Ok((waiting, step)) = action_begun(view, scope, action, None) {
        let left = step->Product_left;
        let right = step->Product_right;
        if composes(matrix, left, right) {
            moves_compose(matrix, left, right, tx.scaled as int, ty.scaled as int);
        }
    }
}

/// A product with a translation moves what it translates.
proof fn moves_compose(product: Matrix, left: Matrix, right: Matrix, dx: int, dy: int)
    requires
        composes(product, left, right),
        right.a.scaled == 1_000_000_000,
        right.b.scaled == 0,
        right.c.scaled == 0,
        right.d.scaled == 1_000_000_000,
        right.e.scaled == dx,
        right.f.scaled == dy,
    ensures
        moved_by(product, left, dx, dy),
{
    assert forall|x: int, y: int|
        #![trigger carried_x(product, x, y)]
        lands_on(product, x, y, left, (x + dx) * 1_000_000_000, (y + dy) * 1_000_000_000) by {
        assert(lands_on(product, x, y, left, carried_x(right, x, y), carried_y(right, x, y)));
        assert(carried_x(right, x, y) == (x + dx) * 1_000_000_000);
        assert(carried_y(right, x, y) == (y + dy) * 1_000_000_000);
    }
}

/// Moving to the next line moves the line down by the leading, and nothing sideways.
pub proof fn next_lines_move_down_by_the_leading(
    view: TextView,
    scope: TextScope,
    source: ContentOperatorSource,
    matrix: Matrix,
)
    ensures
        view.active && view.stage is Idle && view.parameters.leading.scaled > i64::MIN
            ==> action_begun(view, scope, TextAction::NextLine { source }, None) is Ok,
        action_begun(view, scope, TextAction::NextLine { source }, None) matches Ok((waiting, step))
            ==> (step matches TextStep::Product { left, right } && (composes(matrix, left, right)
            ==> (resumed(waiting, scope, TextReply::Product(Ok(matrix)), source) matches Ok(
            (next, done),
        ) && {
            &&& done == TextStep::Done
            &&& next.text_matrix == next.line_matrix
            &&& moved_by(next.line_matrix, view.line_matrix, 0, -view.parameters.leading.scaled)
            &&& next.parameters == view.parameters
        }))),
{
    if let Ok((waiting, step)) = action_begun(view, scope, TextAction::NextLine { source }, None) {
        let left = step->Product_left;
        let right = step->Product_right;
        if composes(matrix, left, right) {
            moves_compose(matrix, left, right, 0, -view.parameters.leading.scaled);
        }
    }
}

/// Once a move set the leading, the next line moves as far down again as the move did.
pub proof fn a_set_leading_repeats_the_move(
    view: TextView,
    scope: TextScope,
    tx: ContentNumber,
    ty: ContentNumber,
    source: ContentOperatorSource,
    first: Matrix,
    second: Matrix,
)
    ensures
        ({
            let action = TextAction::MovePosition { tx, ty, set_leading: true, source };
            action_begun(view, scope, action, None) matches Ok((waiting, step)) ==> (composes(
                first,
                step->Product_left,
                step->Product_right,
            ) ==> {
                let moved = resumed(
                    waiting,
                    scope,
                    TextReply::Product(Ok(first)),
                    source,
                )->Ok_0.0;
                action_begun(moved, scope, TextAction::NextLine { source }, None) matches Ok(
                    (again, step),
                ) ==> (composes(second, step->Product_left, step->Product_right) ==> (resumed(
                    again,
                    scope,
                    TextReply::Product(Ok(second)),
                    source,
                ) matches Ok((next, _)) && moved_by(
                    next.line_matrix,
                    moved.line_matrix,
                    0,
                    ty.scaled as int,
                )))
            })
        }),
{
    let action = TextAction::MovePosition { tx, ty, set_leading: true, source };
    positions_move_by_their_operands(view, scope, tx, ty, true, source, first);
    if let Ok((waiting, step)) = action_begun(view, scope, action, None) {
        if composes(first, step->Product_left, step->Product_right) {
            let moved = resumed(waiting, scope, TextReply::Product(Ok(first)), source)->Ok_0.0;
            next_lines_move_down_by_the_leading(moved, scope, source, second);
        }
    }
}

/// A text that is shown on the next line asks for the same move as going there does, with the
/// spacings that it sets; the text is shown once the line is there.
pub proof fn shows_on_the_next_line_move_there_first(
    view: TextView,
    scope: TextScope,
    show: TextAction,
    matrix: Matrix,
)
    requires
        show is Show,
        show->Show_next_line,
    ensures
        ({
            let source = show->Show_source;
            match (
                action_begun(view, scope, show, None),
                action_begun(view, scope, TextAction::NextLine { source }, None),
            ) {
                (Ok((waiting, step)), Ok((plain, move_step))) => {
                    &&& step == move_step
                    &&& waiting.line_matrix == plain.line_matrix
                    &&& waiting.parameters.leading == view.parameters.leading
                    &&& resumed(waiting, scope, TextReply::Product(Ok(matrix)), source) matches Ok(
                        (next, _),
                    ) ==> next.line_matrix == matrix && next.text_matrix == matrix
                },
                (Err(left), Err(right)) => left == right,
                _ => false,
            }
        }),
{
}

/// A show sets the word spacing and the character spacing that it carries, and no other parameter;
/// without them it sets none.
pub proof fn shows_set_the_spacings_that_they_carry(
    view: TextView,
    scope: TextScope,
    show: TextAction,
)
    requires
        show is Show,
    ensures
        action_begun(view, scope, show, None) matches Ok((next, _)) ==> {
            &&& next.parameters == (TextParameters {
                word_spacing: next.parameters.word_spacing,
                character_spacing: next.parameters.character_spacing,
                ..view.parameters
            })
            &&& match show->Show_word_spacing {
                Some(value) => next.parameters.word_spacing.scaled == value.scaled,
                None => next.parameters.word_spacing == view.parameters.word_spacing,
            }
            &&& match show->Show_character_spacing {
                Some(value) => next.parameters.character_spacing.scaled == value.scaled,
                None => next.parameters.character_spacing == view.parameters.character_spacing,
            }
        },
{
}

/// Setting the text matrix sets the line to it too, whatever they were, and nothing else.
pub proof fn set_matrices_replace_the_line(
    view: TextView,
    scope: TextScope,
    matrix: Matrix,
    source: ContentOperatorSource,
)
    ensures
        view.active && view.stage is Idle <==> action_begun(
            view,
            scope,
            TextAction::SetMatrix { matrix, source },
            None,
        ) is Ok,
        action_begun(view, scope, TextAction::SetMatrix { matrix, source }, None) matches Ok(
            (next, step),
        ) ==> {
            &&& step == TextStep::Done
            &&& next == (TextView { text_matrix: matrix, line_matrix: matrix, ..view })
        },
{
}

/// Each parameter is set to its own operand, and the others stay; the horizontal scaling is a
/// percentage, to the nearest. Positions stay.
pub proof fn parameters_are_set_one_at_a_time(
    view: TextView,
    scope: TextScope,
    value: ContentNumber,
    face: usize,
    source: ContentOperatorSource,
)
    requires
        view.active,
        view.stage is Idle,
    ensures
        ({
            let p = view.parameters;
            let set = SceneScalar { scaled: value.scaled };
            let spaced = action_begun(
                view,
                scope,
                TextAction::SetCharacterSpacing { value, source },
                None,
            );
            let words = action_begun(
                view,
                scope,
                TextAction::SetWordSpacing { value, source },
                None,
            );
            let led = action_begun(view, scope, TextAction::SetLeading { value, source }, None);
            let raised = action_begun(view, scope, TextAction::SetRise { value, source }, None);
            let sized = action_begun(
                view,
                scope,
                TextAction::SetFont { name: 0, size: value, source },
                Some(face),
            );
            &&& spaced == Ok::<(TextView, TextStep), crate::content::guard::RunStop>(
                (
                    TextView { parameters: TextParameters { character_spacing: set, ..p }, ..view },
                    TextStep::Done,
                ),
            )
            &&& words == Ok::<(TextView, TextStep), crate::content::guard::RunStop>(
                (
                    TextView { parameters: TextParameters { word_spacing: set, ..p }, ..view },
                    TextStep::Done,
                ),
            )
            &&& led == Ok::<(TextView, TextStep), crate::content::guard::RunStop>(
                (
                    TextView { parameters: TextParameters { leading: set, ..p }, ..view },
                    TextStep::Done,
                ),
            )
            &&& raised == Ok::<(TextView, TextStep), crate::content::guard::RunStop>(
                (
                    TextView { parameters: TextParameters { rise: set, ..p }, ..view },
                    TextStep::Done,
                ),
            )
            &&& sized == Ok::<(TextView, TextStep), crate::content::guard::RunStop>(
                (
                    TextView {
                        parameters: TextParameters { font: Some(face), font_size: set, ..p },
                        ..view
                    },
                    TextStep::Done,
                ),
            )
        }),
        action_begun(
            view,
            scope,
            TextAction::SetHorizontalScaling { value, source },
            None,
        ) matches Ok((next, step)) && {
            &&& step == TextStep::Done
            &&& next == (TextView {
                parameters: TextParameters {
                    horizontal_scaling: next.parameters.horizontal_scaling,
                    ..view.parameters
                },
                ..view
            })
            &&& -50 <= next.parameters.horizontal_scaling.scaled * 100 - value.scaled <= 50
        },
{
    rounding_is_nearest(value.scaled as int, 100);
    let v = value.scaled as int;
    let size = magnitude(v);
    assert(magnitude(nearest(v, 100)) <= size / 100 + 1);
}

/// The glyph of a byte is placed on the text: a point of its outline is scaled by the font size,
/// horizontally by the scaled one, and raised; then it goes through the text matrix, and through
/// the transform that was current when the text was shown. Glyphs placed before stay.
pub proof fn glyphs_are_placed_on_their_text(
    view: TextView,
    scope: TextScope,
    size: SceneScalar,
    placed: Matrix,
    transform: Matrix,
    source: ContentOperatorSource,
    x: int,
    y: int,
)
    requires
        view.stage is Sizing,
    ensures
        ({
            let show = view.stage->Sizing_0;
            let sized = resumed(view, scope, TextReply::Scaled(Ok(size)), source);
            &&& sized matches Ok((on_text, ask_text)) && ask_text is Product
            &&& composes(placed, sized->Ok_0.1->Product_left, sized->Ok_0.1->Product_right) ==> {
                let on_page = resumed(
                    sized->Ok_0.0,
                    scope,
                    TextReply::Product(Ok(placed)),
                    source,
                );
                &&& on_page matches Ok((_, ask_page)) && ask_page is Product
                &&& composes(
                    transform,
                    on_page->Ok_0.1->Product_left,
                    on_page->Ok_0.1->Product_right,
                ) ==> (resumed(
                    on_page->Ok_0.0,
                    scope,
                    TextReply::Product(Ok(transform)),
                    source,
                ) matches Ok((next, _)) ==> {
                    let glyph = next.glyphs.last();
                    &&& next.glyphs.len() == view.glyphs.len() + 1
                    &&& next.glyphs.drop_last() == view.glyphs
                    &&& next.outlines == view.outlines
                    &&& next.text_matrix == view.text_matrix
                    &&& next.line_matrix == view.line_matrix
                    &&& next.parameters == view.parameters
                    &&& glyph.code == current_byte(view, scope, show)
                    &&& lands_through(
                        glyph.transform,
                        x,
                        y,
                        show.ctm,
                        view.text_matrix,
                        size.scaled * x,
                        view.parameters.font_size.scaled * y + view.parameters.rise.scaled
                            * 1_000_000_000,
                    )
                })
            }
        }),
{
    let show = view.stage->Sizing_0;
    let (on_text, ask_text) = resumed(view, scope, TextReply::Scaled(Ok(size)), source)->Ok_0;
    if composes(placed, ask_text->Product_left, ask_text->Product_right) {
        let (on_page, ask_page) = resumed(
            on_text,
            scope,
            TextReply::Product(Ok(placed)),
            source,
        )->Ok_0;
        if composes(transform, ask_page->Product_left, ask_page->Product_right) {
            if let Ok((next, _)) = resumed(
                on_page,
                scope,
                TextReply::Product(Ok(transform)),
                source,
            ) {
                assert(next.glyphs.drop_last() =~= view.glyphs);
                let render = ask_page->Product_right;
                assert(carried_x(transform, x, y) == carried_x(transform, x, y));
                assert(lands_on(
                    transform,
                    x,
                    y,
                    placed,
                    carried_x(render, x, y),
                    carried_y(render, x, y),
                ));
                nothing_times(render.c.scaled as int, y);
                nothing_times(render.b.scaled as int, x);
                assert(carried_x(render, x, y) == size.scaled * x);
                assert(carried_y(render, x, y) == view.parameters.font_size.scaled * y
                    + view.parameters.rise.scaled * 1_000_000_000);
                two_products_carry_through_both(
                    transform,
                    placed,
                    show.ctm,
                    view.text_matrix,
                    x,
                    y,
                    carried_x(render, x, y),
                    carried_y(render, x, y),
                );
            }
        }
    }
}

/// Whether a transform carries the point at `x` and `y` billionths to where the transform `outer`
/// carries what `inner` makes of the point at `inner_x` and `inner_y`, which are in billionths of a
/// billionth.
pub open spec fn lands_through(
    matrix: Matrix,
    x: int,
    y: int,
    outer: Matrix,
    inner: Matrix,
    inner_x: int,
    inner_y: int,
) -> bool {
    let text_x = inner.a.scaled * inner_x + inner.c.scaled * inner_y + inner.e.scaled
        * 1_000_000_000_000_000_000;
    let text_y = inner.b.scaled * inner_x + inner.d.scaled * inner_y + inner.f.scaled
        * 1_000_000_000_000_000_000;
    &&& carried_x(matrix, x, y) * 1_000_000_000_000_000_000 == outer.a.scaled * text_x
        + outer.c.scaled * text_y + outer.e.scaled * 1_000_000_000_000_000_000_000_000_000
    &&& carried_y(matrix, x, y) * 1_000_000_000_000_000_000 == outer.b.scaled * text_x
        + outer.d.scaled * text_y + outer.f.scaled * 1_000_000_000_000_000_000_000_000_000
}

/// An exact product has the entries of the matrix product.
proof fn entries_of_a_product(product: Matrix, left: Matrix, right: Matrix)
    requires
        composes(product, left, right),
    ensures
        product.a.scaled * 1_000_000_000 == left.a.scaled * right.a.scaled + left.c.scaled
            * right.b.scaled,
        product.b.scaled * 1_000_000_000 == left.b.scaled * right.a.scaled + left.d.scaled
            * right.b.scaled,
        product.c.scaled * 1_000_000_000 == left.a.scaled * right.c.scaled + left.c.scaled
            * right.d.scaled,
        product.d.scaled * 1_000_000_000 == left.b.scaled * right.c.scaled + left.d.scaled
            * right.d.scaled,
        product.e.scaled * 1_000_000_000 == left.a.scaled * right.e.scaled + left.c.scaled
            * right.f.scaled + left.e.scaled * 1_000_000_000,
        product.f.scaled * 1_000_000_000 == left.b.scaled * right.e.scaled + left.d.scaled
            * right.f.scaled + left.f.scaled * 1_000_000_000,
{
    let one = 1_000_000_000int;
    assert(carried_x(product, 0, 0) == product.e.scaled * one);
    assert(carried_x(product, 1, 0) == product.a.scaled + product.e.scaled * one);
    assert(carried_x(product, 0, 1) == product.c.scaled + product.e.scaled * one);
    assert(lands_on(product, 0, 0, left, carried_x(right, 0, 0), carried_y(right, 0, 0)));
    assert(lands_on(product, 1, 0, left, carried_x(right, 1, 0), carried_y(right, 1, 0)));
    assert(lands_on(product, 0, 1, left, carried_x(right, 0, 1), carried_y(right, 0, 1)));
    let (a, b, c, d) = (
        left.a.scaled as int,
        left.b.scaled as int,
        left.c.scaled as int,
        left.d.scaled as int,
    );
    let (e, f) = (right.e.scaled as int, right.f.scaled as int);
    let (ra, rb, rc, rd) = (
        right.a.scaled as int,
        right.b.scaled as int,
        right.c.scaled as int,
        right.d.scaled as int,
    );
    assert(a * (e * one) == a * e * one && b * (e * one) == b * e * one && c * (f * one) == c * f
        * one && d * (f * one) == d * f * one && a * (ra + e * one) == a * ra + a * e * one && b * (
    ra + e * one) == b * ra + b * e * one && c * (rb + f * one) == c * rb + c * f * one && d * (rb
        + f * one) == d * rb + d * f * one && a * (rc + e * one) == a * rc + a * e * one && b * (rc
        + e * one) == b * rc + b * e * one && c * (rd + f * one) == c * rd + c * f * one && d * (rd
        + f * one) == d * rd + d * f * one) by (nonlinear_arith)
        requires
            one == 1_000_000_000,
    ;
}

proof fn two_products_carry_through_both(
    transform: Matrix,
    placed: Matrix,
    outer: Matrix,
    inner: Matrix,
    x: int,
    y: int,
    u: int,
    v: int,
)
    requires
        lands_on(transform, x, y, placed, u, v),
        composes(placed, outer, inner),
    ensures
        lands_through(transform, x, y, outer, inner, u, v),
{
    entries_of_a_product(placed, outer, inner);
    through_both(
        placed.a.scaled as int,
        placed.c.scaled as int,
        placed.e.scaled as int,
        outer.a.scaled as int,
        outer.c.scaled as int,
        outer.e.scaled as int,
        inner,
        u,
        v,
    );
    through_both(
        placed.b.scaled as int,
        placed.d.scaled as int,
        placed.f.scaled as int,
        outer.b.scaled as int,
        outer.d.scaled as int,
        outer.f.scaled as int,
        inner,
        u,
        v,
    );
}

proof fn through_both(
    p: int,
    q: int,
    r: int,
    o: int,
    k: int,
    m: int,
    inner: Matrix,
    u: int,
    v: int,
)
    requires
        p * 1_000_000_000 == o * inner.a.scaled + k * inner.b.scaled,
        q * 1_000_000_000 == o * inner.c.scaled + k * inner.d.scaled,
        r * 1_000_000_000 == o * inner.e.scaled + k * inner.f.scaled + m * 1_000_000_000,
    ensures
        ({
            let big = 1_000_000_000_000_000_000int;
            let text_x = inner.a.scaled * u + inner.c.scaled * v + inner.e.scaled * big;
            let text_y = inner.b.scaled * u + inner.d.scaled * v + inner.f.scaled * big;
            (p * u + q * v + r * big) * 1_000_000_000 == o * text_x + k * text_y + m
                * 1_000_000_000_000_000_000_000_000_000
        }),
{
    let (a, b, c, d, e, f) = (
        inner.a.scaled as int,
        inner.b.scaled as int,
        inner.c.scaled as int,
        inner.d.scaled as int,
        inner.e.scaled as int,
        inner.f.scaled as int,
    );
    let big = 1_000_000_000_000_000_000int;
    let one = 1_000_000_000int;
    combined(p, one, o, a, k, b, u);
    combined(q, one, o, c, k, d, v);
    distributed(o, a * u, c * v, e * big);
    distributed(k, b * u, d * v, f * big);
    distributed(one, p * u, q * v, r * big);
    distributed(big, o * e, k * f, m * one);
    grouped(o, e, big);
    grouped(k, f, big);
    grouped(m, one, big);
    grouped(r, one, big);
    grouped(one, r, big);
    assert(r * one == one * r);
}

proof fn grouped(x: int, y: int, z: int)
    by (nonlinear_arith)
    ensures
        z * (x * y) == x * (y * z),
        (x * y) * z == x * (y * z),
{
}

proof fn combined(p: int, one: int, o: int, a: int, k: int, b: int, u: int)
    by (nonlinear_arith)
    requires
        p * one == o * a + k * b,
    ensures
        one * (p * u) == o * (a * u) + k * (b * u),
{
}

proof fn distributed(k: int, x: int, y: int, z: int)
    by (nonlinear_arith)
    ensures
        k * (x + y + z) == k * x + k * y + k * z,
        (x + y + z) * k == k * x + k * y + k * z,
{
}

proof fn nothing_times(k: int, x: int)
    by (nonlinear_arith)
    requires
        k == 0,
    ensures
        k * x == 0,
{
}

/// A byte asks for its font size, scaled horizontally, before its glyph is placed.
pub proof fn sizes_are_scaled_horizontally(view: TextView, scope: TextScope, show: ShowContext)
    requires
        on_byte(view, scope, show),
    ensures
        piece_begun(view, scope, show) matches Ok((next, step)) && {
            &&& step matches TextStep::Scaled { left, right } && left.scaled * right.scaled
                == view.parameters.font_size.scaled * view.parameters.horizontal_scaling.scaled
            &&& next.stage == TextStage::Sizing(show)
            &&& next.item == view.item
            &&& next.byte == view.byte
            &&& next.glyphs == view.glyphs
            &&& next.text_matrix == view.text_matrix
            &&& next.line_matrix == view.line_matrix
            &&& next.parameters == view.parameters
        },
{
}

/// A glyph that is placed advances by its width at the font size, to the nearest, by the character
/// spacing, and where its byte is a space by the word spacing; all of it is scaled horizontally.
pub proof fn glyphs_advance_by_their_width(
    view: TextView,
    scope: TextScope,
    transform: Matrix,
    source: ContentOperatorSource,
)
    requires
        view.stage is Rendering,
    ensures
        resumed(view, scope, TextReply::Product(Ok(transform)), source) matches Ok((next, step)) ==> {
            let show = view.stage->Rendering_0;
            let byte = current_byte(view, scope, show);
            let widths = scope.faces[show.font->0 as int].widths;
            let p = view.parameters;
            let spacing = p.character_spacing.scaled + (if byte == 0x20 {
                p.word_spacing.scaled as int
            } else {
                0
            });
            &&& 0x20 <= byte < 0x20 + widths.len()
            &&& widths[byte - 0x20] is Some
            &&& step matches TextStep::Scaled { left, right } && {
                &&& right == p.horizontal_scaling
                &&& -500 <= (left.scaled - spacing) * 1000 - p.font_size.scaled * widths[byte
                    - 0x20]->0 <= 500
            }
            &&& next.stage == TextStage::Shifting(show)
        },
{
    let show = view.stage->Rendering_0;
    let byte = current_byte(view, scope, show);
    let widths = scope.faces[show.font->0 as int].widths;
    rounding_is_nearest(view.parameters.font_size.scaled * widths[byte - 0x20]->0, 1000);
}

/// What is placed, or adjusted, moves the text along the line by the scaled advance; the line
/// stays.
pub proof fn advances_move_the_text_along_its_line(
    view: TextView,
    scope: TextScope,
    advance: SceneScalar,
    matrix: Matrix,
    source: ContentOperatorSource,
)
    requires
        view.stage is Shifting,
    ensures
        resumed(view, scope, TextReply::Scaled(Ok(advance)), source) matches Ok((waiting, step)) && (
        step matches TextStep::Product { left, right } && (composes(matrix, left, right) ==> (
        resumed(waiting, scope, TextReply::Product(Ok(matrix)), source) matches Ok((next, _)) ==> {
            &&& moved_by(next.text_matrix, view.text_matrix, advance.scaled as int, 0)
            &&& next.line_matrix == view.line_matrix
            &&& next.parameters == view.parameters
            &&& next.glyphs == view.glyphs
        }))),
{
    let (waiting, step) = resumed(view, scope, TextReply::Scaled(Ok(advance)), source)->Ok_0;
    let left = step->Product_left;
    let right = step->Product_right;
    if composes(matrix, left, right) {
        moves_compose(matrix, left, right, advance.scaled as int, 0);
    }
}

/// An adjustment moves back by so many thousandths of the font size, to the nearest, and places no
/// glyph.
pub proof fn adjustments_move_back_by_thousandths(
    view: TextView,
    scope: TextScope,
    show: ShowContext,
)
    requires
        0 <= view.item < scope.items[show.items as int].len(),
        scope.items[show.items as int][view.item] is Adjustment,
    ensures
        piece_begun(view, scope, show) matches Ok((next, step)) ==> {
            let value = scope.items[show.items as int][view.item]->Adjustment_0;
            &&& step matches TextStep::Scaled { left, right } && {
                &&& right == view.parameters.horizontal_scaling
                &&& -500_000_000_000 <= left.scaled * 1_000_000_000_000 + value.scaled
                    * view.parameters.font_size.scaled <= 500_000_000_000
            }
            &&& next.stage == TextStage::Shifting(show)
            &&& next.item == view.item
            &&& next.glyphs == view.glyphs
            &&& next.text_matrix == view.text_matrix
        },
{
    let value = scope.items[show.items as int][view.item]->Adjustment_0;
    rounding_is_nearest(
        value.scaled * view.parameters.font_size.scaled,
        1_000_000_000_000,
    );
}

/// The piece at hand is the first one that is left: an adjustment is never passed over, and a
/// string only once all its bytes are.
pub proof fn no_piece_is_passed_over(
    items: Seq<TextShowItem>,
    names: Seq<Seq<u8>>,
    item: int,
    byte: int,
)
    requires
        0 <= item <= items.len(),
    ensures
        ({
            let (i, b) = current_piece(items, names, item, byte);
            &&& item <= i <= items.len()
            &&& i == item ==> b == byte
            &&& i > item ==> b == 0 && items[item] is Bytes && byte
                >= names[items[item]->Bytes_0 as int].len()
            &&& forall|k: int|
                item < k < i ==> #[trigger] items[k] is Bytes
                    && names[items[k]->Bytes_0 as int].len() == 0
            &&& i < items.len() && items[i] is Bytes ==> b < names[items[i]->Bytes_0 as int].len()
        }),
    decreases items.len() - item,
{
    if item < items.len() && items[item] is Bytes && byte
        >= names[items[item]->Bytes_0 as int].len() {
        no_piece_is_passed_over(items, names, item + 1, 0);
    }
}

/// A shown text starts at its first piece with an empty run, and counts a glyph for each of its
/// bytes.
pub proof fn shown_texts_start_at_their_first_piece(
    view: TextView,
    scope: TextScope,
    show: ShowContext,
)
    ensures
        show_begun(view, scope, show) matches Ok((next, step)) ==> {
            let items = scope.items[show.items as int];
            let text = shown_text(items, scope.names, items.len() as int);
            &&& (next.item, next.byte) == current_piece(items, scope.names, 0, 0)
            &&& next.glyphs.len() == 0
            &&& next.text_matrix == view.text_matrix
            &&& next.line_matrix == view.line_matrix
            &&& next.stage matches TextStage::Sizing(shown) ==> shown.glyph_count == retained_sum(
                text.len() as int,
            ) && shown.ctm == show.ctm && shown.paint == show.paint && shown.font == show.font
            &&& step == TextStep::Done ==> text.len() == 0
        },
{
    let items = scope.items[show.items as int];
    if show_begun(view, scope, show) is Ok {
        no_piece_is_passed_over(items, scope.names, 0, 0);
        let (i, b) = current_piece(items, scope.names, 0, 0);
        if i >= items.len() {
            empty_strings_show_nothing(items, scope.names, items.len() as int);
        }
    }
}

proof fn empty_strings_show_nothing(items: Seq<TextShowItem>, names: Seq<Seq<u8>>, count: int)
    requires
        0 <= count <= items.len(),
        forall|k: int|
            0 <= k < items.len() ==> #[trigger] items[k] is Bytes
                && names[items[k]->Bytes_0 as int].len() == 0,
    ensures
        shown_text(items, names, count).len() == 0,
    decreases count,
{
    if count > 0 {
        empty_strings_show_nothing(items, names, count - 1);
        assert(items[count - 1] is Bytes);
    }
}

/// Whether a scene point is a font point, whose coordinates are in half units.
pub open spec fn is_font_point(scene: ScenePoint, point: FontPoint) -> bool {
    scene.x.scaled * 2 == point.x * 1_000_000_000 && scene.y.scaled * 2 == point.y * 1_000_000_000
}

/// Whether a scene segment is a font segment.
pub open spec fn is_font_segment(scene: GlyphSegment, segment: OutlineSegment) -> bool {
    match (scene, segment) {
        (GlyphSegment::MoveTo(to), OutlineSegment::MoveTo(point)) => is_font_point(to, point),
        (GlyphSegment::LineTo(to), OutlineSegment::LineTo(point)) => is_font_point(to, point),
        (
            GlyphSegment::QuadTo { control, end },
            OutlineSegment::QuadTo { control: bend, end: to },
        ) => is_font_point(control, bend) && is_font_point(end, to),
        (GlyphSegment::ClosePath, OutlineSegment::CloseContour) => true,
        _ => false,
    }
}

/// Before the glyph of a byte is placed, the run has the outline that the face gives the byte's
/// glyph, segment by segment. Outlines of other glyphs stay.
pub proof fn outlines_are_those_of_the_face(view: TextView, scope: TextScope, show: ShowContext)
    requires
        on_byte(view, scope, show),
        show_ok(view, scope, show),
    ensures
        piece_begun(view, scope, show) matches Ok((next, _)) && {
            let face = scope.faces[show.font->0 as int];
            let byte = current_byte(view, scope, show);
            &&& 0x20 <= byte < 0x20 + face.codes.len()
            &&& face.codes[byte - 0x20] is Some
            &&& if exists|k: int|
                0 <= k < view.outlines.len() && (#[trigger] view.outlines[k]).glyph_id
                    == face.codes[byte - 0x20]->0 {
                next.outlines == view.outlines
            } else {
                let built = next.outlines.last();
                &&& next.outlines.len() == view.outlines.len() + 1
                &&& next.outlines.drop_last() == view.outlines
                &&& built.glyph_id == face.codes[byte - 0x20]->0
                &&& built.units_per_em == face.units_per_em
                &&& built.source.reference == face.reference
                &&& exists|j: int|
                    0 <= j < face.outlines.len() && {
                        &&& (#[trigger] face.outlines[j]).glyph_id == built.glyph_id
                        &&& face.outlines[j].segments.len() == built.segments.len()
                        &&& forall|i: int|
                            0 <= i < built.segments.len() ==> is_font_segment(
                                #[trigger] built.segments[i],
                                face.outlines[j].segments[i],
                            )
                    }
            }
        },
{
    let face = scope.faces[show.font->0 as int];
    let byte = current_byte(view, scope, show);
    byte_has_outline(view, scope, show);
    let glyph = glyph_of(face, byte)->0;
    let next = piece_begun(view, scope, show)->Ok_0.0;
    run_outline_is_first(view.outlines, glyph, 0);
    face_outline_is_first(face, glyph, 0);
    let j = face_outline(face, glyph, 0);
    if run_outline(view.outlines, glyph, 0) >= view.outlines.len() {
        assert(next.outlines.drop_last() =~= view.outlines);
        let built = next.outlines.last();
        assert forall|i: int| 0 <= i < built.segments.len() implies is_font_segment(
            #[trigger] built.segments[i],
            face.outlines[j].segments[i],
        ) by {
            let segment = face.outlines[j].segments[i];
            assert(built.segments[i] == segment_value(segment));
        }
    } else {
        assert(view.outlines[run_outline(view.outlines, glyph, 0)].glyph_id == glyph);
    }
}

proof fn run_outline_is_first(outlines: Seq<RunOutlineView>, glyph: u16, i: int)
    requires
        0 <= i <= outlines.len(),
    ensures
        ({
            let place = run_outline(outlines, glyph, i);
            &&& i <= place <= outlines.len()
            &&& place < outlines.len() ==> outlines[place].glyph_id == glyph
            &&& forall|k: int| i <= k < place ==> (#[trigger] outlines[k]).glyph_id != glyph
        }),
    decreases outlines.len() - i,
{
    if i < outlines.len() && outlines[i].glyph_id != glyph {
        run_outline_is_first(outlines, glyph, i + 1);
    }
}

proof fn face_outline_is_first(face: FaceView, glyph: u16, i: int)
    requires
        0 <= i <= face.outlines.len(),
    ensures
        ({
            let place = face_outline(face, glyph, i);
            &&& i <= place <= face.outlines.len()
            &&& place < face.outlines.len() ==> face.outlines[place].glyph_id == glyph
        }),
    decreases face.outlines.len() - i,
{
    if i < face.outlines.len() && face.outlines[i].glyph_id != glyph {
        face_outline_is_first(face, glyph, i + 1);
    }
}

/// A glyph that is placed is drawn by the outline of its byte's glyph, under the transform that was
/// found for it, after the glyphs before it. It is placed wherever its byte has a width and its
/// advance is far from overflow.
pub proof fn placed_glyphs_draw_their_outline(
    view: TextView,
    scope: TextScope,
    transform: Matrix,
    source: ContentOperatorSource,
)
    requires
        view.stage is Rendering,
        view.outlines.len() <= usize::MAX,
    ensures
        ({
            let show = view.stage->Rendering_0;
            let face = scope.faces[show.font->0 as int];
            let byte = current_byte(view, scope, show);
            let p = view.parameters;
            let placed = resumed(view, scope, TextReply::Product(Ok(transform)), source);
            &&& placed matches Ok((next, _)) ==> {
                let glyph = next.glyphs.last();
                &&& next.glyphs.len() == view.glyphs.len() + 1
                &&& next.glyphs.drop_last() == view.glyphs
                &&& glyph.transform == transform
                &&& glyph.code == byte
                &&& 0x20 <= byte < 0x20 + face.codes.len() && face.codes[byte - 0x20] is Some && (
                exists|k: int|
                    0 <= k < view.outlines.len() && (#[trigger] view.outlines[k]).glyph_id
                        == face.codes[byte - 0x20]->0) ==> glyph.outline < view.outlines.len()
                    && view.outlines[glyph.outline as int].glyph_id == face.codes[byte - 0x20]->0
            }
            &&& 0x20 <= byte < 0x20 + face.widths.len() && face.widths[byte - 0x20] is Some
                && magnitude(p.font_size.scaled * face.widths[byte - 0x20]->0)
                < 1_000_000_000_000_000_000_000 && magnitude(p.character_spacing.scaled as int)
                < 1_000_000_000_000_000_000 && magnitude(p.word_spacing.scaled as int)
                < 1_000_000_000_000_000_000 ==> placed is Ok
        }),
{
    let show = view.stage->Rendering_0;
    let face = scope.faces[show.font->0 as int];
    let byte = current_byte(view, scope, show);
    let p = view.parameters;
    if let Ok((next, _)) = resumed(view, scope, TextReply::Product(Ok(transform)), source) {
        assert(next.glyphs.drop_last() =~= view.glyphs);
        run_outline_is_first(view.outlines, glyph_of(face, byte)->0, 0);
    }
    if 0x20 <= byte < 0x20 + face.widths.len() && face.widths[byte - 0x20] is Some {
        rounding_is_nearest(p.font_size.scaled * face.widths[byte - 0x20]->0, 1_000);
    }
}

/// A run that was drawn is counted with its glyphs and segments, and the text is at rest again where
/// it stands.
pub proof fn drawn_runs_are_counted(view: TextView, scope: TextScope, source: ContentOperatorSource)
    requires
        view.stage is Drawing,
        view.shown_glyphs + view.stage->Drawing_0.glyph_count <= u64::MAX,
        view.shown_segments + view.stage->Drawing_0.segment_count <= u64::MAX,
    ensures
        resumed(view, scope, TextReply::Drawn(Ok(())), source) matches Ok((next, step)) && {
            &&& step is Done
            &&& next.stage is Idle
            &&& next.shown_glyphs == view.shown_glyphs + view.stage->Drawing_0.glyph_count
            &&& next.shown_segments == view.shown_segments + view.stage->Drawing_0.segment_count
            &&& next.text_matrix == view.text_matrix && next.line_matrix == view.line_matrix
            &&& next.parameters == view.parameters && next.active == view.active
        },
{
}

} // verus!
