//! Fixed-point arithmetic of text positioning.

use vstd::prelude::*;

use crate::content::number::ContentNumber;
use crate::content::scene::{scalar_of, ScenePoint, SceneScalar};
use crate::content::vm_error::SceneError;

verus! {

/// The magnitude of an integer.
pub open spec fn magnitude(value: int) -> int {
    if value < 0 {
        -value
    } else {
        value
    }
}

/// The integer nearest to a quotient, halves away from zero.
pub open spec fn nearest(numerator: int, denominator: int) -> int {
    let quotient = magnitude(numerator) / denominator;
    let rounded = if 2 * (magnitude(numerator) % denominator) >= denominator {
        quotient + 1
    } else {
        quotient
    };
    if numerator < 0 {
        -rounded
    } else {
        rounded
    }
}

/// The scalar nearest to a quotient. A divisor that is not positive, or whose doubled remainder
/// does not fit, counts as overflow.
pub open spec fn rounded_scalar(numerator: int, denominator: int) -> Result<
    SceneScalar,
    SceneError,
> {
    if denominator <= 0 || 2 * (magnitude(numerator) % denominator) > i128::MAX {
        Err(SceneError::NumericOverflow)
    } else {
        scalar_of(nearest(numerator, denominator))
    }
}

/// Returns the scalar nearest to a quotient.
pub fn rounded_scene_scalar(numerator: i128, denominator: i128) -> (scalar: Result<
    SceneScalar,
    SceneError,
>)
    ensures
        scalar == rounded_scalar(numerator as int, denominator as int),
{
    if denominator <= 0 {
        return Err(SceneError::NumericOverflow);
    }
    let negative = numerator < 0;
    let size: u128 = if negative {
        ((-(numerator + 1)) as u128) + 1
    } else {
        numerator as u128
    };
    let divisor: u128 = denominator as u128;
    let quotient: u128 = size / divisor;
    let remainder: u128 = size % divisor;
    assert(size == magnitude(numerator as int));
    assert(remainder < divisor) by (nonlinear_arith)
        requires
            remainder == size % divisor,
            divisor > 0,
    ;
    assert(quotient <= size) by (nonlinear_arith)
        requires
            quotient == size / divisor,
            divisor > 0,
    ;
    if remainder > (i128::MAX as u128) / 2 {
        return Err(SceneError::NumericOverflow);
    }
    let rounded: u128 = if remainder * 2 >= divisor {
        quotient + 1
    } else {
        quotient
    };
    if negative {
        if rounded > 9_223_372_036_854_775_808 {
            return Err(SceneError::NumericOverflow);
        }
        let scaled: i64 = (-(rounded as i128)) as i64;
        Ok(SceneScalar::from_scaled(scaled))
    } else {
        if rounded > 9_223_372_036_854_775_807 {
            return Err(SceneError::NumericOverflow);
        }
        Ok(SceneScalar::from_scaled(rounded as i64))
    }
}

/// Rounding moves by at most half a step, and keeps the sign.
pub proof fn rounding_is_nearest(numerator: int, denominator: int)
    requires
        denominator > 0,
    ensures
        magnitude(nearest(numerator, denominator) * denominator - numerator) * 2 <= denominator,
        nearest(-numerator, denominator) == -nearest(numerator, denominator),
{
    let size = magnitude(numerator);
    let quotient = size / denominator;
    let remainder = size % denominator;
    assert(size == quotient * denominator + remainder && 0 <= remainder < denominator)
        by (nonlinear_arith)
        requires
            quotient == size / denominator,
            remainder == size % denominator,
            denominator > 0,
            size >= 0,
    ;
    assert((quotient + 1) * denominator == quotient * denominator + denominator)
        by (nonlinear_arith);
    assert((-quotient) * denominator == -(quotient * denominator)) by (nonlinear_arith);
    assert((-(quotient + 1)) * denominator == -(quotient * denominator) - denominator)
        by (nonlinear_arith);
}

/// The value divided by an integer.
pub open spec fn divided(value: SceneScalar, denominator: int) -> Result<SceneScalar, SceneError> {
    rounded_scalar(value.scaled as int, denominator)
}

/// Divides a value by an integer.
pub fn divide_scalar(value: SceneScalar, denominator: i128) -> (quotient: Result<
    SceneScalar,
    SceneError,
>)
    ensures
        quotient == divided(value, denominator as int),
{
    rounded_scene_scalar(value.scaled as i128, denominator)
}

/// Multiplies a value by one integer and divides it by another.
pub fn integer_product_divide(value: SceneScalar, multiplier: u32, denominator: i128) -> (result:
    Result<SceneScalar, SceneError>)
    ensures
        result == rounded_scalar(value.scaled * multiplier, denominator as int),
{
    let factor: i128 = value.scaled as i128;
    let other: i128 = multiplier as i128;
    assert(-0x8000_0000_0000_0000 * 0xffff_ffff <= factor * other <= 0x7fff_ffff_ffff_ffff
        * 0xffff_ffff) by (nonlinear_arith)
        requires
            -0x8000_0000_0000_0000 <= factor <= 0x7fff_ffff_ffff_ffff,
            0 <= other <= 0xffff_ffff,
    ;
    rounded_scene_scalar(factor * other, denominator)
}

/// The product of two values, divided by an integer.
pub open spec fn product_quotient(left: SceneScalar, right: SceneScalar, denominator: int) -> Result<
    SceneScalar,
    SceneError,
> {
    rounded_scalar(left.scaled * right.scaled, 1_000_000_000 * denominator)
}

/// Multiplies two values and divides the product by an integer.
pub fn product_divide(left: SceneScalar, right: SceneScalar, denominator: u32) -> (result: Result<
    SceneScalar,
    SceneError,
>)
    ensures
        result == product_quotient(left, right, denominator as int),
{
    let factor: i128 = left.scaled as i128;
    let other: i128 = right.scaled as i128;
    assert(-0x4000_0000_0000_0000_0000_0000_0000_0000 <= factor * other
        <= 0x4000_0000_0000_0000_0000_0000_0000_0000) by (nonlinear_arith)
        requires
            -0x8000_0000_0000_0000 <= factor <= 0x7fff_ffff_ffff_ffff,
            -0x8000_0000_0000_0000 <= other <= 0x7fff_ffff_ffff_ffff,
    ;
    let divisor: i128 = 1_000_000_000 * (denominator as i128);
    rounded_scene_scalar(factor * other, divisor)
}

/// How far a glyph moves before horizontal scaling: its width at the font size, the character
/// spacing, and for a space the word spacing.
pub open spec fn advance_base(
    font_size: SceneScalar,
    character_spacing: SceneScalar,
    word_spacing: SceneScalar,
    width: u32,
    byte: u8,
) -> Result<SceneScalar, SceneError> {
    match rounded_scalar(font_size.scaled * width, 1_000) {
        Err(error) => Err(error),
        Ok(glyph) => match scalar_of(glyph.scaled + character_spacing.scaled) {
            Err(error) => Err(error),
            Ok(advance) => if byte == 0x20 {
                scalar_of(advance.scaled + word_spacing.scaled)
            } else {
                Ok(advance)
            },
        },
    }
}

/// Returns how far a glyph moves before horizontal scaling.
pub fn text_advance(
    font_size: SceneScalar,
    character_spacing: SceneScalar,
    word_spacing: SceneScalar,
    width: u32,
    byte: u8,
) -> (advance: Result<SceneScalar, SceneError>)
    ensures
        advance == advance_base(font_size, character_spacing, word_spacing, width, byte),
{
    let glyph = match integer_product_divide(font_size, width, 1_000) {
        Ok(glyph) => glyph,
        Err(error) => {
            return Err(error);
        },
    };
    let advance = match glyph.checked_add(character_spacing) {
        Ok(advance) => advance,
        Err(error) => {
            return Err(error);
        },
    };
    if byte == 0x20 {
        advance.checked_add(word_spacing)
    } else {
        Ok(advance)
    }
}

/// How far an adjustment moves before horizontal scaling: back by thousandths of the font size.
pub open spec fn adjustment_base(font_size: SceneScalar, adjustment: ContentNumber) -> Result<
    SceneScalar,
    SceneError,
> {
    match product_quotient(SceneScalar { scaled: adjustment.scaled }, font_size, 1_000) {
        Err(error) => Err(error),
        Ok(scaled) => scalar_of(0 - scaled.scaled),
    }
}

/// Returns how far an adjustment moves before horizontal scaling.
pub fn text_adjustment(font_size: SceneScalar, adjustment: ContentNumber) -> (moved: Result<
    SceneScalar,
    SceneError,
>)
    ensures
        moved == adjustment_base(font_size, adjustment),
{
    match product_divide(SceneScalar::from_scaled(adjustment.scaled), font_size, 1_000) {
        Ok(scaled) => SceneScalar::from_scaled(0).checked_sub(scaled),
        Err(error) => Err(error),
    }
}

/// Point of a font outline, in half font units.
#[derive(Clone, Copy, Debug, PartialEq, Eq, Structural)]
pub struct FontPoint {
    pub x: i32,
    pub y: i32,
}

/// The scene point of a font point.
pub open spec fn font_point_value(point: FontPoint) -> ScenePoint {
    ScenePoint {
        x: SceneScalar { scaled: (point.x * 500_000_000) as i64 },
        y: SceneScalar { scaled: (point.y * 500_000_000) as i64 },
    }
}

/// Returns the scene point of a font point.
pub fn scene_font_point(point: FontPoint) -> (scene: ScenePoint)
    ensures
        scene == font_point_value(point),
        scene.x.scaled == point.x * 500_000_000,
        scene.y.scaled == point.y * 500_000_000,
{
    ScenePoint::new(
        SceneScalar::from_scaled((point.x as i64) * 500_000_000),
        SceneScalar::from_scaled((point.y as i64) * 500_000_000),
    )
}

} // verus!
