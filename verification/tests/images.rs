use pdf_content::content::image_samples::{
    normalize_image_samples, packed_sample, scene_color_space,
};
use pdf_content::{
    AcquiredImage, ImageColorSpace, ImageXObjectColorSpace, ObjectRef, ResourceProof,
    SourceIdentity, SourceSnapshot, SourceValidator,
};

fn image(width: u32, height: u32, bits: u8, stride: u64, decoded: &[u8]) -> AcquiredImage {
    let target = ObjectRef::new(1, 0).unwrap();
    AcquiredImage {
        resource: ResourceProof {
            snapshot: SourceSnapshot::new(
                SourceIdentity { value: 1 },
                None,
                SourceValidator { value: 1 },
            ),
            target,
            revision_startxref: 0,
        },
        reference: target,
        decode_context: 0,
        width,
        height,
        components: 1,
        source_components: 1,
        bits_per_component: bits,
        stride_bytes: stride,
        color_space: ImageXObjectColorSpace::DeviceGray,
        interpolate: false,
        indexed_high_value: None,
        indexed_lookup: None,
        decoded: decoded.to_vec(),
        reported_decoded_bytes: decoded.len() as u64,
    }
}

fn samples(image: &AcquiredImage) -> Option<Vec<u8>> {
    let mut output = Vec::new();
    if normalize_image_samples(image, &mut output) {
        Some(output)
    } else {
        None
    }
}

#[test]
fn small_samples_spread_over_the_byte_scale() {
    assert_eq!(
        samples(&image(5, 2, 1, 1, &[0b1010_0000, 0b0101_1111])).unwrap(),
        [255, 0, 255, 0, 0, 0, 255, 0, 255, 255]
    );
    assert_eq!(samples(&image(4, 1, 2, 1, &[0b0001_1011])).unwrap(), [0, 85, 170, 255]);
    assert_eq!(samples(&image(3, 1, 4, 2, &[0x08, 0xf0])).unwrap(), [0, 136, 255]);
}

#[test]
fn byte_samples_are_copied() {
    assert_eq!(samples(&image(2, 2, 8, 2, &[1, 2, 3, 4])).unwrap(), [1, 2, 3, 4]);
}

#[test]
fn wide_samples_round_to_the_nearest_byte() {
    assert_eq!(
        samples(&image(4, 1, 16, 8, &[0, 0, 0, 128, 0, 129, 255, 255])).unwrap(),
        [0, 0, 1, 255]
    );
}

#[test]
fn palettes_resolve_and_clamp() {
    let mut indexed = image(4, 1, 2, 1, &[0b0001_1011]);
    indexed.components = 3;
    indexed.indexed_high_value = Some(2);
    indexed.indexed_lookup = Some(vec![1, 2, 3, 4, 5, 6, 7, 8, 9]);
    assert_eq!(samples(&indexed).unwrap(), [1, 2, 3, 4, 5, 6, 7, 8, 9, 7, 8, 9]);
    indexed.indexed_lookup = Some(vec![1, 2, 3]);
    assert_eq!(samples(&indexed), None);
    indexed.indexed_lookup = None;
    assert_eq!(samples(&indexed), None);
}

#[test]
fn inconsistent_images_are_refused() {
    assert_eq!(samples(&image(2, 2, 8, 2, &[1, 2, 3])), None);
    assert_eq!(samples(&image(1, 1, 3, 1, &[1])), None);
    assert_eq!(samples(&image(9, 1, 1, 1, &[0])), None);
}

#[test]
fn samples_are_read_most_significant_bits_first() {
    let packed = image(4, 1, 2, 1, &[0b1101_0010]);
    assert_eq!(packed_sample(&packed, 1, 0, 0), Some(3));
    assert_eq!(packed_sample(&packed, 1, 0, 1), Some(1));
    assert_eq!(packed_sample(&packed, 1, 0, 3), Some(2));
    assert_eq!(packed_sample(&packed, 1, 0, 4), None);
}

#[test]
fn palettes_take_the_color_space_of_their_entries() {
    assert_eq!(
        scene_color_space(ImageXObjectColorSpace::IndexedRgb),
        ImageColorSpace::DeviceRgb
    );
    assert_eq!(
        scene_color_space(ImageXObjectColorSpace::DeviceCmyk),
        ImageColorSpace::DeviceCmyk
    );
}
