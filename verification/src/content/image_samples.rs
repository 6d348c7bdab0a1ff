//! Acquired images, and their samples as bytes.

use vstd::prelude::*;

use crate::content::model::ObjectRef;
use crate::content::resources::ResourceProof;

verus! {

/// Color space of an acquired image.
#[derive(Clone, Copy, Debug, PartialEq, Eq, Structural)]
pub enum ImageXObjectColorSpace {
    DeviceGray,
    DeviceRgb,
    DeviceCmyk,
    IndexedGray,
    IndexedRgb,
    IndexedCmyk,
}

/// Color space of a scene image.
#[derive(Clone, Copy, Debug, PartialEq, Eq, Structural)]
pub enum ImageColorSpace {
    DeviceGray,
    DeviceRgb,
    DeviceCmyk,
}

/// The color space that samples have once palettes are resolved.
pub open spec fn resolved_space(space: ImageXObjectColorSpace) -> ImageColorSpace {
    match space {
        ImageXObjectColorSpace::DeviceGray
        | ImageXObjectColorSpace::IndexedGray => ImageColorSpace::DeviceGray,
        ImageXObjectColorSpace::DeviceRgb
        | ImageXObjectColorSpace::IndexedRgb => ImageColorSpace::DeviceRgb,
        ImageXObjectColorSpace::DeviceCmyk
        | ImageXObjectColorSpace::IndexedCmyk => ImageColorSpace::DeviceCmyk,
    }
}

/// Returns the color space that samples have once palettes are resolved.
pub fn scene_color_space(space: ImageXObjectColorSpace) -> (resolved: ImageColorSpace)
    ensures
        resolved == resolved_space(space),
{
    match space {
        ImageXObjectColorSpace::DeviceGray
        | ImageXObjectColorSpace::IndexedGray => ImageColorSpace::DeviceGray,
        ImageXObjectColorSpace::DeviceRgb
        | ImageXObjectColorSpace::IndexedRgb => ImageColorSpace::DeviceRgb,
        ImageXObjectColorSpace::DeviceCmyk
        | ImageXObjectColorSpace::IndexedCmyk => ImageColorSpace::DeviceCmyk,
    }
}

/// An acquired image: packed rows, and the palette of an indexed one.
pub struct AcquiredImage {
    pub resource: ResourceProof,
    pub reference: ObjectRef,
    pub decode_context: u64,
    pub width: u32,
    pub height: u32,
    pub components: u8,
    pub source_components: u8,
    pub bits_per_component: u8,
    pub stride_bytes: u64,
    pub color_space: ImageXObjectColorSpace,
    pub interpolate: bool,
    pub indexed_high_value: Option<u8>,
    pub indexed_lookup: Option<Vec<u8>>,
    pub decoded: Vec<u8>,
    pub reported_decoded_bytes: u64,
}

/// An acquired image, as a value.
pub struct ImageView {
    pub width: int,
    pub height: int,
    pub components: int,
    pub source_components: int,
    pub bits: u8,
    pub stride: int,
    pub high_value: Option<u8>,
    pub lookup: Option<Seq<u8>>,
    pub packed: Seq<u8>,
}

impl View for AcquiredImage {
    type V = ImageView;

    open spec fn view(&self) -> ImageView {
        ImageView {
            width: self.width as int,
            height: self.height as int,
            components: self.components as int,
            source_components: self.source_components as int,
            bits: self.bits_per_component,
            stride: self.stride_bytes as int,
            high_value: self.indexed_high_value,
            lookup: match self.indexed_lookup {
                Some(lookup) => Some(lookup@),
                None => None,
            },
            packed: self.decoded@,
        }
    }
}

/// The largest sample of one, two or four bits.
pub open spec fn full_sample(bits: u8) -> int {
    if bits == 1 {
        1
    } else if bits == 2 {
        3
    } else {
        15
    }
}

/// The power of two that shifts `count` bits away.
pub open spec fn shift_divisor(count: int) -> int {
    if count <= 0 {
        1
    } else if count == 1 {
        2
    } else if count == 2 {
        4
    } else if count == 3 {
        8
    } else if count == 4 {
        16
    } else if count == 5 {
        32
    } else if count == 6 {
        64
    } else {
        128
    }
}

/// Sample `i` of row `r`, most significant bits first, where the row holds it.
pub open spec fn sample_at(image: ImageView, r: int, i: int) -> Option<int> {
    let bits = image.bits as int;
    if image.bits == 8 {
        if i < image.stride {
            Some(image.packed[r * image.stride + i] as int)
        } else {
            None
        }
    } else {
        let offset = i * bits;
        if offset / 8 < image.stride {
            let byte = image.packed[r * image.stride + offset / 8] as int;
            Some((byte / shift_divisor(8 - bits - offset % 8)) % (full_sample(image.bits) + 1))
        } else {
            None
        }
    }
}

/// A sample of less than eight bits on the byte scale.
pub open spec fn spread(sample: int, bits: u8) -> int {
    sample * 255 / full_sample(bits)
}

/// A sample of sixteen bits on the byte scale, to the nearest.
pub open spec fn narrowed(sample: int) -> int {
    (sample * 255 + 32_767) / 65_535
}

/// The palette entry of a sample; one beyond the palette takes its last entry.
pub open spec fn palette_entry(image: ImageView, sample: int) -> Seq<u8> {
    let high = image.high_value->0 as int;
    let index = if sample < high {
        sample
    } else {
        high
    };
    image.lookup->0.subrange(index * image.components, index * image.components + image.components)
}

/// The bytes of sample `i` of row `r`.
pub open spec fn piece_of(image: ImageView, r: int, i: int) -> Option<Seq<u8>> {
    if image.high_value is Some {
        match sample_at(image, r, i) {
            Some(sample) => Some(palette_entry(image, sample)),
            None => None,
        }
    } else if image.bits == 16 {
        let at = r * image.stride + 2 * i;
        Some(seq![narrowed(image.packed[at] * 256 + image.packed[at + 1]) as u8])
    } else {
        match sample_at(image, r, i) {
            Some(sample) => Some(seq![spread(sample, image.bits) as u8]),
            None => None,
        }
    }
}

/// The bytes of the first `count` samples of row `r`.
pub open spec fn row_of(image: ImageView, r: int, count: int) -> Option<Seq<u8>>
    decreases count,
{
    if count <= 0 {
        Some(Seq::empty())
    } else {
        match (row_of(image, r, count - 1), piece_of(image, r, count - 1)) {
            (Some(front), Some(piece)) => Some(front + piece),
            _ => None,
        }
    }
}

/// How many samples a row gives.
pub open spec fn row_samples(image: ImageView) -> int {
    if image.high_value is Some {
        image.width
    } else if image.bits == 16 && image.stride / 2 < image.width * image.source_components {
        image.stride / 2
    } else {
        image.width * image.source_components
    }
}

/// The bytes of the first `count` rows.
pub open spec fn rows_of(image: ImageView, count: int) -> Option<Seq<u8>>
    decreases count,
{
    if count <= 0 {
        Some(Seq::empty())
    } else {
        match (rows_of(image, count - 1), row_of(image, count - 1, row_samples(image))) {
            (Some(front), Some(row)) => Some(front + row),
            _ => None,
        }
    }
}

/// Whether an image is consistent: its rows fill its bytes, and a palette comes with its bound,
/// one source component and as many entries as the bound says.
pub open spec fn consistent(image: ImageView) -> bool {
    &&& image.packed.len() == image.stride * image.height
    &&& image.high_value is Some <==> image.lookup is Some
    &&& image.high_value matches Some(high) ==> {
        &&& image.lookup->0.len() == (high + 1) * image.components
        &&& image.source_components == 1
        &&& image.bits == 1 || image.bits == 2 || image.bits == 4 || image.bits == 8
    }
    &&& image.high_value is None ==> (image.bits == 1 || image.bits == 2 || image.bits == 4
        || image.bits == 8 || image.bits == 16)
}

/// The samples of an image as bytes, with palettes resolved.
pub open spec fn normalized(image: ImageView) -> Option<Seq<u8>> {
    if !consistent(image) {
        None
    } else if image.high_value is None && image.bits == 8 {
        Some(image.packed)
    } else {
        rows_of(image, image.height)
    }
}

/// The extremes of a sample stay the extremes, and order is kept.
pub proof fn spreading_keeps_extremes(bits: u8, low: int, high: int)
    requires
        bits == 1 || bits == 2 || bits == 4,
        0 <= low <= high <= full_sample(bits),
    ensures
        spread(0, bits) == 0,
        spread(full_sample(bits), bits) == 255,
        0 <= spread(low, bits) <= spread(high, bits) <= 255,
{
}

/// Narrowing is to the nearest byte: it errs by less than half a step.
pub proof fn narrowing_is_nearest(sample: int)
    requires
        0 <= sample <= 65_535,
    ensures
        0 <= narrowed(sample) <= 255,
        narrowed(0) == 0,
        narrowed(65_535) == 255,
        -32_768 <= narrowed(sample) * 65_535 - sample * 255 <= 32_767,
{
    let n = sample * 255 + 32_767;
    assert(n == (n / 65_535) * 65_535 + n % 65_535);
}

/// The power of two that shifts `count` bits away.
fn divisor_of(count: usize) -> (divisor: u8)
    requires
        count <= 7,
    ensures
        divisor == shift_divisor(count as int),
        divisor > 0,
{
    match count {
        0 => 1,
        1 => 2,
        2 => 4,
        3 => 8,
        4 => 16,
        5 => 32,
        6 => 64,
        _ => 128,
    }
}

/// Where sample `i` of a row is: its byte in the row, and the bits below it in that byte.
proof fn packed_place(bits: u8, i: int)
    requires
        bits == 1 || bits == 2 || bits == 4,
        0 <= i,
    ensures
        0 <= i * bits <= i * 8,
        0 <= 8 - bits - (i * bits) % 8 <= 7,
{
    if bits == 1 {
        assert(i * bits == i);
    } else if bits == 2 {
        assert(i * bits == 2 * i) by (nonlinear_arith)
            requires
                bits == 2,
        ;
    } else {
        assert(i * bits == 4 * i) by (nonlinear_arith)
            requires
                bits == 4,
        ;
    }
}

/// A byte of a row is a byte of the image.
proof fn byte_in_row(stride: int, height: int, r: int, column: int)
    by (nonlinear_arith)
    requires
        0 <= r < height,
        0 <= column < stride,
    ensures
        0 <= r * stride,
        r * stride + column < stride * height,
{
}

/// Reads sample `i` of row `r`.
#[verifier::spinoff_prover]
pub fn packed_sample(image: &AcquiredImage, stride: usize, r: usize, i: usize) -> (sample: Option<
    u8,
>)
    requires
        consistent(image@),
        stride == image.stride_bytes,
        r < image.height,
        image.bits_per_component != 16,
        i * 8 <= usize::MAX,
    ensures
        match sample {
            Some(value) => sample_at(image@, r as int, i as int) == Some(value as int),
            None => sample_at(image@, r as int, i as int) is None,
        },
{
    let bits: u8 = image.bits_per_component;
    assert(image.decoded.len() == stride * image.height);
    if bits == 8 {
        if i >= stride {
            return None;
        }
        proof {
            byte_in_row(stride as int, image.height as int, r as int, i as int);
        }
        return Some(image.decoded[r * stride + i]);
    }
    proof {
        packed_place(bits, i as int);
    }
    let offset: usize = i * (bits as usize);
    let column: usize = offset / 8;
    if column >= stride {
        return None;
    }
    proof {
        byte_in_row(stride as int, image.height as int, r as int, column as int);
    }
    let byte: u8 = image.decoded[r * stride + column];
    let shift: usize = 8 - (bits as usize) - offset % 8;
    let range: u8 = if bits == 1 {
        2
    } else if bits == 2 {
        4
    } else {
        16
    };
    Some((byte / divisor_of(shift)) % range)
}

proof fn row_stops(image: ImageView, r: int, low: int, high: int)
    requires
        0 <= low <= high,
        row_of(image, r, low) is None,
    ensures
        row_of(image, r, high) is None,
    decreases high - low,
{
    if low < high {
        row_stops(image, r, low, high - 1);
    }
}

proof fn rows_stop(image: ImageView, low: int, high: int)
    requires
        0 <= low <= high,
        rows_of(image, low) is None,
    ensures
        rows_of(image, high) is None,
    decreases high - low,
{
    if low < high {
        rows_stop(image, low, high - 1);
    }
}

/// Appends the bytes of one sample.
fn append_piece(
    image: &AcquiredImage,
    stride: usize,
    r: usize,
    i: usize,
    output: &mut Vec<u8>,
) -> (done: bool)
    requires
        consistent(image@),
        stride == image.stride_bytes,
        r < image.height,
        i < row_samples(image@),
        i * 8 <= usize::MAX,
        image@.high_value is Some || image@.bits != 8,
    ensures
        match piece_of(image@, r as int, i as int) {
            Some(piece) => done && final(output)@ == old(output)@ + piece,
            None => !done,
        },
{
    if let Some(high) = image.indexed_high_value {
        if let Some(lookup) = &image.indexed_lookup {
            let sample: u8 = match packed_sample(image, stride, r, i) {
                Some(sample) => sample,
                None => {
                    return false;
                },
            };
            let components: usize = image.components as usize;
            let index: usize = if sample < high {
                sample as usize
            } else {
                high as usize
            };
            assert(index * components + components <= (high + 1) * components
                && index * components <= 0xff * 0xff && (high + 1) * components <= 0x100 * 0xff)
                by (nonlinear_arith)
                requires
                    index <= high,
                    high <= 0xff,
                    components <= 0xff,
            ;
            let start: usize = index * components;
            let ghost entry = lookup@.subrange(start as int, start + components);
            let mut k: usize = 0;
            while k < components
                invariant
                    k <= components,
                    start + components <= lookup@.len(),
                    components <= 0xff,
                    start <= 0xff * 0xff,
                    entry == lookup@.subrange(start as int, start + components),
                    output@ =~= old(output)@ + entry.take(k as int),
                decreases components - k,
            {
                output.push(lookup[start + k]);
                assert(entry.take(k + 1) =~= entry.take(k as int).push(entry[k as int]));
                k = k + 1;
            }
            assert(entry.take(components as int) =~= entry);
            assert(entry =~= palette_entry(image@, sample as int));
            return true;
        }
        return false;
    }
    if image.bits_per_component == 16 {
        proof {
            assert(i < stride / 2);
            byte_in_row(stride as int, image.height as int, r as int, 2 * i + 1);
        }
        assert(image.decoded.len() == stride * image.height);
        let at: usize = r * stride + 2 * i;
        let value: u32 = (image.decoded[at] as u32) * 256 + (image.decoded[at + 1] as u32);
        proof {
            narrowing_is_nearest(value as int);
        }
        let byte: u8 = ((value * 255 + 32_767) / 65_535) as u8;
        output.push(byte);
        assert(output@ =~= old(output)@ + seq![byte]);
        return true;
    }
    let sample: u8 = match packed_sample(image, stride, r, i) {
        Some(sample) => sample,
        None => {
            return false;
        },
    };
    let bits: u8 = image.bits_per_component;
    let full: u16 = if bits == 1 {
        1
    } else if bits == 2 {
        3
    } else {
        15
    };
    proof {
        spreading_keeps_extremes(bits, sample as int, sample as int);
    }
    let byte: u8 = ((sample as u16) * 255 / full) as u8;
    output.push(byte);
    assert(output@ =~= old(output)@ + seq![byte]);
    true
}

/// Whether the rows of an image, and the bits of one, can be addressed on this machine.
pub open spec fn addressable(view: ImageView) -> bool {
    &&& view.stride <= usize::MAX
    &&& view.stride * view.height <= usize::MAX
    &&& row_samples(view) * 8 <= usize::MAX
}

/// Appends the samples of an image as bytes. Returns whether the image is consistent and holds
/// every sample; a row that is too long for the machine counts as inconsistent.
pub fn normalize_image_samples(image: &AcquiredImage, output: &mut Vec<u8>) -> (done: bool)
    ensures
        done ==> normalized(image@) is Some && final(output)@ == old(output)@ + normalized(
            image@,
        )->0,
        !done ==> normalized(image@) is None || !addressable(image@),
{
    let ghost view = image@;
    if image.stride_bytes > usize::MAX as u64 {
        return false;
    }
    let stride: usize = image.stride_bytes as usize;
    let expected: usize = match stride.checked_mul(image.height as usize) {
        Some(expected) => expected,
        None => {
            return false;
        },
    };
    if image.decoded.len() != expected {
        return false;
    }
    let bits: u8 = image.bits_per_component;
    let small = bits == 1 || bits == 2 || bits == 4 || bits == 8;
    match (&image.indexed_high_value, &image.indexed_lookup) {
        (Some(high), Some(lookup)) => {
            let components: usize = image.components as usize;
            assert((high + 1) * components <= 0x100 * 0xff) by (nonlinear_arith)
                requires
                    *high <= 0xff,
                    components <= 0xff,
            ;
            if lookup.len() != ((*high as usize) + 1) * components || image.source_components != 1
                || !small {
                return false;
            }
        },
        (None, None) => {
            if !small && bits != 16 {
                return false;
            }
        },
        _ => {
            return false;
        },
    }
    assert(consistent(view));
    if image.indexed_high_value.is_none() && bits == 8 {
        let mut k: usize = 0;
        while k < image.decoded.len()
            invariant
                k <= image.decoded@.len(),
                output@ =~= old(output)@ + image.decoded@.take(k as int),
            decreases image.decoded@.len() - k,
        {
            output.push(image.decoded[k]);
            k = k + 1;
        }
        assert(image.decoded@.take(k as int) =~= image.decoded@);
        return true;
    }
    let samples: usize = match samples_per_row(image, stride) {
        Some(samples) => samples,
        None => {
            return false;
        },
    };
    let height: usize = image.height as usize;
    let mut r: usize = 0;
    while r < height
        invariant
            r <= height,
            height == image.height,
            view == image@,
            consistent(view),
            stride == image.stride_bytes,
            samples == row_samples(view),
            samples * 8 <= usize::MAX,
            view.high_value is Some || view.bits != 8,
            rows_of(view, r as int) is Some,
            output@ =~= old(output)@ + rows_of(view, r as int)->0,
        decreases height - r,
    {
        let ghost start = output@;
        let mut i: usize = 0;
        assert(output@ =~= start + row_of(view, r as int, 0)->0);
        while i < samples
            invariant
                i <= samples,
                r < height,
                height == image.height,
                view == image@,
                consistent(view),
                stride == image.stride_bytes,
                samples == row_samples(view),
                samples * 8 <= usize::MAX,
                view.high_value is Some || view.bits != 8,
                row_of(view, r as int, i as int) is Some,
                output@ =~= start + row_of(view, r as int, i as int)->0,
            decreases samples - i,
        {
            if !append_piece(image, stride, r, i, output) {
                proof {
                    row_stops(view, r as int, i + 1, samples as int);
                    rows_stop(view, r + 1, height as int);
                }
                return false;
            }
            i = i + 1;
        }
        r = r + 1;
    }
    true
}

/// Returns how many samples a row gives, where that fits.
fn samples_per_row(image: &AcquiredImage, stride: usize) -> (samples: Option<usize>)
    requires
        stride == image.stride_bytes,
    ensures
        match samples {
            Some(count) => count == row_samples(image@) && count * 8 <= usize::MAX,
            None => row_samples(image@) * 8 > usize::MAX,
        },
{
    let width: u64 = image.width as u64;
    let source: u64 = image.source_components as u64;
    assert(0 <= width * source <= 0xffff_ffff * 0xff) by (nonlinear_arith)
        requires
            width <= 0xffff_ffff,
            source <= 0xff,
    ;
    let all: u64 = width * source;
    let count: u64 = if image.indexed_high_value.is_some() {
        width
    } else if image.bits_per_component == 16 && ((stride / 2) as u64) < all {
        (stride / 2) as u64
    } else {
        all
    };
    if count > (usize::MAX / 8) as u64 {
        return None;
    }
    Some(count as usize)
}

} // verus!
