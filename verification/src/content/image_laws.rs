//! Laws of acquired images and their samples.

use vstd::prelude::*;

use crate::content::image_limits::ContentImageLimits;
use crate::content::image_runtime::{image_acquired, ImageRuntimeView};
use crate::content::image_samples::{
    consistent, full_sample, narrowing_is_nearest, normalized, palette_entry, piece_of,
    resolved_space, row_of, row_samples, rows_of, sample_at, shift_divisor, spread, AcquiredImage,
    ImageColorSpace, ImageView, ImageXObjectColorSpace,
};

verus! {

/// How many components a pixel of a scene image has.
pub open spec fn channels(space: ImageColorSpace) -> int {
    match space {
        ImageColorSpace::DeviceGray => 1,
        ImageColorSpace::DeviceRgb => 3,
        ImageColorSpace::DeviceCmyk => 4,
    }
}

/// How many components a pixel of an acquired image has once a palette is resolved.
pub open spec fn acquired_channels(space: ImageXObjectColorSpace) -> int {
    match space {
        ImageXObjectColorSpace::DeviceGray | ImageXObjectColorSpace::IndexedGray => 1,
        ImageXObjectColorSpace::DeviceRgb | ImageXObjectColorSpace::IndexedRgb => 3,
        ImageXObjectColorSpace::DeviceCmyk | ImageXObjectColorSpace::IndexedCmyk => 4,
    }
}

/// A scene image keeps the components of the acquired one: a device color space stays what it is,
/// and an indexed one becomes the space of its palette. No other two spaces become one.
pub proof fn color_spaces_keep_their_components(
    space: ImageXObjectColorSpace,
    other: ImageXObjectColorSpace,
)
    ensures
        channels(resolved_space(space)) == acquired_channels(space),
        resolved_space(space) == resolved_space(other) <==> acquired_channels(space)
            == acquired_channels(other),
        space == ImageXObjectColorSpace::DeviceGray ==> resolved_space(space)
            == ImageColorSpace::DeviceGray,
        space == ImageXObjectColorSpace::DeviceRgb ==> resolved_space(space)
            == ImageColorSpace::DeviceRgb,
        space == ImageXObjectColorSpace::DeviceCmyk ==> resolved_space(space)
            == ImageColorSpace::DeviceCmyk,
{
}

/// An acquired image becomes the last scene image, with its size, its evidence, its color space and
/// as many bytes for each pixel as that space has components.
pub proof fn acquired_images_become_scene_images(
    view: ImageRuntimeView,
    limits: ContentImageLimits,
    image: AcquiredImage,
)
    requires
        image.components == acquired_channels(image.color_space),
    ensures
        image_acquired(view, limits, image) matches Ok(next) ==> {
            let scene = next.images.last();
            &&& next.images.len() == view.images.len() + 1
            &&& next.images.drop_last() == view.images
            &&& scene.width == image.width
            &&& scene.height == image.height
            &&& scene.interpolate == image.interpolate
            &&& scene.reference == image.reference
            &&& scene.revision_startxref == image.resource.revision_startxref
            &&& scene.decode_context == image.decode_context
            &&& channels(scene.color_space) == image.components
            &&& scene.samples.len() == scene.width * scene.height * channels(scene.color_space)
            &&& Some(scene.samples) == normalized(image@)
        },
{
    if let Ok(next) = image_acquired(view, limits, image) {
        assert(next.images.drop_last() =~= view.images);
    }
}

/// Samples of one bit are packed from the high bit down: those of a byte make it up again.
pub proof fn bits_make_up_their_byte(image: ImageView, r: int, column: int)
    requires
        0 <= column < image.stride,
        image.bits == 1,
    ensures
        ({
            let byte = image.packed[r * image.stride + column] as int;
            let at = 8 * column;
            &&& forall|k: int| 0 <= k < 8 ==> sample_at(image, r, #[trigger] (at + k)) is Some
            &&& byte == sample_at(image, r, at)->0 * 128 + sample_at(image, r, at + 1)->0 * 64
                + sample_at(image, r, at + 2)->0 * 32 + sample_at(image, r, at + 3)->0 * 16
                + sample_at(image, r, at + 4)->0 * 8 + sample_at(image, r, at + 5)->0 * 4
                + sample_at(image, r, at + 6)->0 * 2 + sample_at(image, r, at + 7)->0
        }),
{
    let byte = image.packed[r * image.stride + column] as int;
    assert forall|k: int| 0 <= k < 8 implies sample_at(
        image,
        r,
        #[trigger] (8 * column + k),
    ) is Some by {
        sample_of_a_byte(image, r, column, k);
    }
    sample_of_a_byte(image, r, column, 0);
    sample_of_a_byte(image, r, column, 1);
    sample_of_a_byte(image, r, column, 2);
    sample_of_a_byte(image, r, column, 3);
    sample_of_a_byte(image, r, column, 4);
    sample_of_a_byte(image, r, column, 5);
    sample_of_a_byte(image, r, column, 6);
    sample_of_a_byte(image, r, column, 7);
    bits_of_a_byte(byte);
}

/// Samples of two bits are packed from the high bits down: those of a byte make it up again.
pub proof fn bit_pairs_make_up_their_byte(image: ImageView, r: int, column: int)
    requires
        0 <= column < image.stride,
        image.bits == 2,
    ensures
        ({
            let byte = image.packed[r * image.stride + column] as int;
            let at = 4 * column;
            &&& forall|k: int| 0 <= k < 4 ==> sample_at(image, r, #[trigger] (at + k)) is Some
            &&& byte == sample_at(image, r, at)->0 * 64 + sample_at(image, r, at + 1)->0 * 16
                + sample_at(image, r, at + 2)->0 * 4 + sample_at(image, r, at + 3)->0
        }),
{
    let byte = image.packed[r * image.stride + column] as int;
    assert forall|k: int| 0 <= k < 4 implies sample_at(
        image,
        r,
        #[trigger] (4 * column + k),
    ) is Some by {
        sample_of_a_byte(image, r, column, k);
    }
    sample_of_a_byte(image, r, column, 0);
    sample_of_a_byte(image, r, column, 1);
    sample_of_a_byte(image, r, column, 2);
    sample_of_a_byte(image, r, column, 3);
    assert(byte / 16 == (byte / 4) / 4);
    assert(byte / 64 == (byte / 16) / 4);
}

/// Samples of four bits are packed from the high bits down: those of a byte make it up again.
pub proof fn half_bytes_make_up_their_byte(image: ImageView, r: int, column: int)
    requires
        0 <= column < image.stride,
        image.bits == 4,
    ensures
        ({
            let byte = image.packed[r * image.stride + column] as int;
            let at = 2 * column;
            &&& sample_at(image, r, at) is Some
            &&& sample_at(image, r, at + 1) is Some
            &&& byte == sample_at(image, r, at)->0 * 16 + sample_at(image, r, at + 1)->0
        }),
{
    sample_of_a_byte(image, r, column, 0);
    sample_of_a_byte(image, r, column, 1);
}

proof fn bits_of_a_byte(byte: int)
    requires
        0 <= byte < 256,
    ensures
        byte / 128 < 2,
        byte == (byte / 128) % 2 * 128 + (byte / 64) % 2 * 64 + (byte / 32) % 2 * 32 + (byte / 16)
            % 2 * 16 + (byte / 8) % 2 * 8 + (byte / 4) % 2 * 4 + (byte / 2) % 2 * 2 + byte % 2,
{
    assert(byte / 4 == (byte / 2) / 2);
    assert(byte / 8 == (byte / 4) / 2);
    assert(byte / 16 == (byte / 8) / 2);
    assert(byte / 32 == (byte / 16) / 2);
    assert(byte / 64 == (byte / 32) / 2);
    assert(byte / 128 == (byte / 64) / 2);
}

proof fn sample_of_a_byte(image: ImageView, r: int, column: int, k: int)
    requires
        image.bits == 1 || image.bits == 2 || image.bits == 4,
        0 <= column < image.stride,
        0 <= k < 8,
        image.bits == 2 ==> k < 4,
        image.bits == 4 ==> k < 2,
    ensures
        ({
            let byte = image.packed[r * image.stride + column] as int;
            &&& image.bits == 1 ==> sample_at(image, r, 8 * column + k) == Some(
                (byte / shift_divisor(7 - k)) % 2,
            )
            &&& image.bits == 2 ==> sample_at(image, r, 4 * column + k) == Some(
                (byte / shift_divisor(6 - 2 * k)) % 4,
            )
            &&& image.bits == 4 ==> sample_at(image, r, 2 * column + k) == Some(
                (byte / shift_divisor(4 - 4 * k)) % 16,
            )
        }),
{
    let bits = image.bits as int;
    if image.bits == 1 {
        assert((8 * column + k) * bits == 8 * column + k) by (nonlinear_arith)
            requires
                bits == 1,
        ;
    } else if image.bits == 2 {
        assert((4 * column + k) * bits == 8 * column + 2 * k) by (nonlinear_arith)
            requires
                bits == 2,
        ;
    } else {
        assert((2 * column + k) * bits == 8 * column + 4 * k) by (nonlinear_arith)
            requires
                bits == 4,
        ;
    }
}

/// The bytes that one sample gives.
pub open spec fn piece_len(image: ImageView) -> int {
    if image.high_value is Some {
        image.components
    } else {
        1
    }
}

proof fn rows_hold_their_pieces(image: ImageView, r: int, count: int, i: int, k: int)
    requires
        consistent(image),
        row_of(image, r, count) is Some,
        image.components >= 0,
        0 <= i < count,
        0 <= k < piece_len(image),
    ensures
        piece_of(image, r, i) is Some,
        piece_of(image, r, i)->0.len() == piece_len(image),
        row_of(image, r, count)->0.len() == count * piece_len(image),
        0 <= i * piece_len(image) + k < count * piece_len(image),
        row_of(image, r, count)->0[i * piece_len(image) + k] == piece_of(image, r, i)->0[k],
    decreases count,
{
    let width = piece_len(image);
    pieces_have_one_length(image, r, count - 1);
    row_length(image, r, count);
    row_length(image, r, count - 1);
    assert((count - 1) * width + width == count * width) by (nonlinear_arith);
    if i < count - 1 {
        rows_hold_their_pieces(image, r, count - 1, i, k);
        assert(i * width + k < (count - 1) * width);
    } else {
        assert(0 <= i * width) by (nonlinear_arith)
            requires
                i >= 0,
                width >= 0,
        ;
    }
}

proof fn pieces_have_one_length(image: ImageView, r: int, i: int)
    requires
        consistent(image),
        image.components >= 0,
        piece_of(image, r, i) is Some,
    ensures
        piece_of(image, r, i)->0.len() == piece_len(image),
{
    samples_are_small(image, r, i);
    if image.high_value is Some {
        let high = image.high_value->0 as int;
        let sample = sample_at(image, r, i)->0;
        let index = if sample < high {
            sample
        } else {
            high
        };
        assert(0 <= index * image.components && index * image.components + image.components <= (
        high + 1) * image.components) by (nonlinear_arith)
            requires
                0 <= index <= high,
                image.components >= 0,
        ;
        assert(palette_entry(image, sample).len() == image.components);
    }
}

proof fn row_length(image: ImageView, r: int, count: int)
    requires
        consistent(image),
        image.components >= 0,
        count >= 0,
        row_of(image, r, count) is Some,
    ensures
        row_of(image, r, count)->0.len() == count * piece_len(image),
    decreases count,
{
    if count > 0 {
        row_length(image, r, count - 1);
        pieces_have_one_length(image, r, count - 1);
        let width = piece_len(image);
        assert((count - 1) * width + width == count * width) by (nonlinear_arith);
    } else {
        let width = piece_len(image);
        assert(0 * width == 0) by (nonlinear_arith);
    }
}

proof fn samples_are_small(image: ImageView, r: int, i: int)
    ensures
        sample_at(image, r, i) matches Some(sample) ==> sample >= 0,
        image.bits == 1 || image.bits == 2 || image.bits == 4 ==> (sample_at(
            image,
            r,
            i,
        ) matches Some(sample) ==> sample <= full_sample(image.bits)),
{
    if let Some(sample) = sample_at(image, r, i) {
        if image.bits != 8 {
            let offset = i * image.bits;
            let byte = image.packed[r * image.stride + offset / 8] as int;
            let divisor = shift_divisor(8 - image.bits - offset % 8);
            assert(byte / divisor >= 0) by (nonlinear_arith)
                requires
                    byte >= 0,
                    divisor > 0,
            ;
        }
    }
}

proof fn rows_length(image: ImageView, count: int)
    requires
        consistent(image),
        image.components >= 0,
        row_samples(image) >= 0,
        count >= 0,
        rows_of(image, count) is Some,
    ensures
        rows_of(image, count)->0.len() == count * (row_samples(image) * piece_len(image)),
    decreases count,
{
    let len = row_samples(image) * piece_len(image);
    if count > 0 {
        rows_length(image, count - 1);
        row_length(image, count - 1, row_samples(image));
        assert((count - 1) * len + len == count * len) by (nonlinear_arith);
    } else {
        assert(0 * len == 0) by (nonlinear_arith);
    }
}

proof fn rows_follow_each_other(image: ImageView, count: int, r: int, at: int)
    requires
        consistent(image),
        image.components >= 0,
        row_samples(image) >= 0,
        rows_of(image, count) is Some,
        0 <= r < count,
        0 <= at < row_samples(image) * piece_len(image),
    ensures
        row_of(image, r, row_samples(image)) is Some,
        0 <= r * (row_samples(image) * piece_len(image)) + at < rows_of(image, count)->0.len(),
        rows_of(image, count)->0[r * (row_samples(image) * piece_len(image)) + at] == row_of(
            image,
            r,
            row_samples(image),
        )->0[at],
    decreases count,
{
    let len = row_samples(image) * piece_len(image);
    rows_length(image, count);
    rows_length(image, count - 1);
    row_length(image, count - 1, row_samples(image));
    assert((count - 1) * len + len == count * len) by (nonlinear_arith);
    if r < count - 1 {
        rows_follow_each_other(image, count - 1, r, at);
    } else {
        assert(0 <= r * len) by (nonlinear_arith)
            requires
                r >= 0,
                len >= 0,
        ;
    }
}

/// The samples of an image come out row by row and in order. One of an indexed image is the entry of
/// its palette, or the last entry where it is beyond; one of sixteen bits is the nearest byte; a
/// smaller one is spread over the bytes evenly.
pub proof fn samples_keep_their_place(image: ImageView, r: int, i: int, k: int)
    requires
        normalized(image) is Some,
        image.high_value is Some || image.bits != 8,
        image.components >= 0,
        image.stride >= 0,
        0 <= r < image.height,
        0 <= i < row_samples(image),
        0 <= k < piece_len(image),
    ensures
        ({
            let bytes = normalized(image)->0;
            let at = r * (row_samples(image) * piece_len(image)) + (i * piece_len(image) + k);
            &&& 0 <= at < bytes.len()
            &&& if image.high_value is Some {
                let high = image.high_value->0 as int;
                &&& sample_at(image, r, i) matches Some(sample) && bytes[at] == image.lookup->0[(
                if sample < high {
                    sample
                } else {
                    high
                }) * image.components + k]
            } else if image.bits == 16 {
                let value = image.packed[r * image.stride + 2 * i] * 256 + image.packed[r
                    * image.stride + 2 * i + 1];
                -32_768 <= bytes[at] * 65_535 - value * 255 <= 32_767
            } else {
                sample_at(image, r, i) matches Some(sample) && bytes[at] * full_sample(image.bits)
                    == sample * 255
            }
        }),
{
    let len = row_samples(image) * piece_len(image);
    let at = i * piece_len(image) + k;
    rows_stop_together(image, r, image.height);
    rows_hold_their_pieces(image, r, row_samples(image), i, k);
    rows_follow_each_other(image, image.height, r, at);
    samples_are_small(image, r, i);
    if image.high_value is Some {
        let high = image.high_value->0 as int;
        let sample = sample_at(image, r, i)->0;
        let index = if sample < high {
            sample
        } else {
            high
        };
        assert(0 <= index * image.components && index * image.components + image.components <= (
        high + 1) * image.components) by (nonlinear_arith)
            requires
                0 <= index <= high,
                image.components >= 0,
        ;
        assert(palette_entry(image, sample)[k] == image.lookup->0[index * image.components + k]);
    } else if image.bits == 16 {
        let value = image.packed[r * image.stride + 2 * i] * 256 + image.packed[r * image.stride + 2
            * i + 1];
        narrowing_is_nearest(value);
    } else {
        let sample = sample_at(image, r, i)->0;
        assert(spread(sample, image.bits) * full_sample(image.bits) == sample * 255);
        assert(0 <= spread(sample, image.bits) <= 255);
    }
}

proof fn rows_stop_together(image: ImageView, r: int, count: int)
    requires
        0 <= r < count,
        rows_of(image, count) is Some,
    ensures
        row_of(image, r, row_samples(image)) is Some,
    decreases count,
{
    if r < count - 1 {
        rows_stop_together(image, r, count - 1);
    }
}

/// Samples of eight bits without a palette are the bytes of the image.
pub proof fn whole_bytes_stay_as_they_are(image: ImageView)
    requires
        image.high_value is None,
        image.bits == 8,
    ensures
        normalized(image) matches Some(bytes) ==> bytes == image.packed,
        normalized(image) is Some <==> image.packed.len() == image.stride * image.height
            && image.lookup is None,
{
}

proof fn full_rows_are_read(image: ImageView, r: int, count: int)
    requires
        image.bits == 1 || image.bits == 2 || image.bits == 4 || image.bits == 8 || image.bits == 16,
        image.high_value is Some ==> image.bits != 16,
        count * image.bits <= image.stride * 8,
    ensures
        row_of(image, r, count) is Some,
    decreases count,
{
    if count > 0 {
        let bits = image.bits as int;
        let offset = (count - 1) * bits;
        assert(offset + bits == count * bits) by (nonlinear_arith)
            requires
                offset == (count - 1) * bits,
        ;
        full_rows_are_read(image, r, count - 1);
        assert(offset / 8 < image.stride);
    }
}

proof fn full_images_are_read(image: ImageView, count: int)
    requires
        image.bits == 1 || image.bits == 2 || image.bits == 4 || image.bits == 8 || image.bits == 16,
        image.high_value is Some ==> image.bits != 16,
        row_samples(image) * image.bits <= image.stride * 8,
    ensures
        rows_of(image, count) is Some,
    decreases count,
{
    if count > 0 {
        full_images_are_read(image, count - 1);
        full_rows_are_read(image, count - 1, row_samples(image));
    }
}

/// Whether an image is complete: its rows hold all samples of its width, and its bytes all rows. A
/// palette has an entry for each index up to its bound; without one, samples are whole components.
/// Rows of whole bytes hold nothing else.
pub open spec fn complete(image: ImageView) -> bool {
    let samples = image.width * image.source_components;
    &&& image.width >= 0 && image.height >= 0 && image.components >= 0
    &&& image.source_components >= 0 && image.stride >= 0
    &&& image.packed.len() == image.stride * image.height
    &&& image.bits == 1 || image.bits == 2 || image.bits == 4 || image.bits == 8 || image.bits == 16
    &&& samples * image.bits <= image.stride * 8
    &&& match (image.high_value, image.lookup) {
        (Some(high), Some(lookup)) => image.bits != 16 && image.source_components == 1
            && lookup.len() == (high + 1) * image.components,
        (None, None) => image.components == image.source_components && (image.bits == 8
            ==> image.stride == samples),
        _ => false,
    }
}

/// The samples of a complete image are all there: as many bytes as it has pixels and components.
pub proof fn complete_images_have_all_samples(image: ImageView)
    requires
        complete(image),
    ensures
        normalized(image) is Some,
        normalized(image)->0.len() == image.width * image.height * image.components,
{
    let samples = image.width * image.source_components;
    assert(samples >= 0) by (nonlinear_arith)
        requires
            samples == image.width * image.source_components,
            image.width >= 0,
            image.source_components >= 0,
    ;
    if image.high_value is None && image.bits == 8 {
        assert((image.width * image.components) * image.height == image.width * image.height
            * image.components) by (nonlinear_arith);
    } else {
        if image.high_value is Some {
            assert(image.width * 1 == image.width);
        }
        assert(row_samples(image) == samples);
        full_images_are_read(image, image.height);
        rows_length(image, image.height);
        if image.high_value is Some {
            assert(image.height * (image.width * image.components) == image.width * image.height
                * image.components) by (nonlinear_arith);
        } else {
            assert(image.height * ((image.width * image.components) * 1) == image.width
                * image.height * image.components) by (nonlinear_arith);
        }
    }
}

} // verus!
