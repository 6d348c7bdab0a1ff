//! Plain scene values that interpretation plans with.

use vstd::prelude::*;

use crate::content::model::{ContentOperatorSource, DecodedSpan, ObjectRef};
use crate::content::vm_error::SceneError;

verus! {

/// Fixed-point scene coordinate with nine decimal fractional digits.
#[derive(Clone, Copy, Debug, PartialEq, Eq, Hash, Structural)]
pub struct SceneScalar {
    pub scaled: i64,
}

impl SceneScalar {
    /// Creates a value from its scaled integer.
    pub fn from_scaled(scaled: i64) -> (scalar: Self)
        ensures
            scalar == (SceneScalar { scaled }),
    {
        Self { scaled }
    }

    /// Adds exactly.
    pub fn checked_add(self, other: Self) -> (sum: Result<Self, SceneError>)
        ensures
            sum == scalar_of(self.scaled + other.scaled),
    {
        match self.scaled.checked_add(other.scaled) {
            Some(scaled) => Ok(Self { scaled }),
            None => Err(SceneError::NumericOverflow),
        }
    }

    /// Subtracts exactly.
    pub fn checked_sub(self, other: Self) -> (difference: Result<Self, SceneError>)
        ensures
            difference == scalar_of(self.scaled - other.scaled),
    {
        match self.scaled.checked_sub(other.scaled) {
            Some(scaled) => Ok(Self { scaled }),
            None => Err(SceneError::NumericOverflow),
        }
    }
}

/// The scalar with a scaled value, where it fits.
pub open spec fn scalar_of(scaled: int) -> Result<SceneScalar, SceneError> {
    if i64::MIN <= scaled <= i64::MAX {
        Ok(SceneScalar { scaled: scaled as i64 })
    } else {
        Err(SceneError::NumericOverflow)
    }
}

/// Scene point.
#[derive(Clone, Copy, Debug, PartialEq, Eq, Hash, Structural)]
pub struct ScenePoint {
    pub x: SceneScalar,
    pub y: SceneScalar,
}

impl ScenePoint {
    /// Creates a point.
    pub fn new(x: SceneScalar, y: SceneScalar) -> (point: Self)
        ensures
            point == (ScenePoint { x, y }),
    {
        Self { x, y }
    }
}

/// Affine transform: the two columns of its linear part, then its translation.
#[derive(Clone, Copy, Debug, PartialEq, Eq, Hash, Structural)]
pub struct Matrix {
    pub a: SceneScalar,
    pub b: SceneScalar,
    pub c: SceneScalar,
    pub d: SceneScalar,
    pub e: SceneScalar,
    pub f: SceneScalar,
}

/// The identity transform.
pub open spec fn identity_matrix() -> Matrix {
    let one = SceneScalar { scaled: 1_000_000_000 };
    let zero = SceneScalar { scaled: 0 };
    Matrix { a: one, b: zero, c: zero, d: one, e: zero, f: zero }
}

/// The transform that moves by `tx` and `ty`.
pub open spec fn translation_of(tx: SceneScalar, ty: SceneScalar) -> Matrix {
    Matrix { e: tx, f: ty, ..identity_matrix() }
}

impl Matrix {
    /// Returns the identity transform.
    pub fn identity() -> (matrix: Self)
        ensures
            matrix == identity_matrix(),
    {
        let one = SceneScalar { scaled: 1_000_000_000 };
        let zero = SceneScalar { scaled: 0 };
        Self { a: one, b: zero, c: zero, d: one, e: zero, f: zero }
    }

    /// Returns the transform that moves by `tx` and `ty`.
    pub fn translation(tx: SceneScalar, ty: SceneScalar) -> (matrix: Self)
        ensures
            matrix == translation_of(tx, ty),
    {
        let one = SceneScalar { scaled: 1_000_000_000 };
        let zero = SceneScalar { scaled: 0 };
        Self { a: one, b: zero, c: zero, d: one, e: tx, f: ty }
    }
}

/// Closed unit interval in 65535 steps.
#[derive(Clone, Copy, Debug, PartialEq, Eq, Hash, Structural)]
pub struct SceneUnit {
    pub value: u16,
}

impl SceneUnit {
    /// Creates a unit value.
    pub fn from_u16(value: u16) -> (unit: Self)
        ensures
            unit == (SceneUnit { value }),
    {
        Self { value }
    }
}

/// Supported blend modes.
#[derive(Clone, Copy, Debug, PartialEq, Eq, Hash, Structural)]
pub enum BlendMode {
    Normal,
    Multiply,
    Screen,
}

/// Device color.
#[derive(Clone, Copy, Debug, PartialEq, Eq, Hash, Structural)]
pub enum DeviceColor {
    Gray(SceneUnit),
    Rgb { red: SceneUnit, green: SceneUnit, blue: SceneUnit },
    Cmyk { cyan: SceneUnit, magenta: SceneUnit, yellow: SceneUnit, black: SceneUnit },
}

/// Color, constant alpha and blend mode of one paint.
#[derive(Clone, Copy, Debug, PartialEq, Eq, Hash, Structural)]
pub struct Paint {
    pub color: DeviceColor,
    pub alpha: SceneUnit,
    pub blend_mode: BlendMode,
}

impl Paint {
    /// Creates a paint.
    pub fn new(color: DeviceColor, alpha: SceneUnit, blend_mode: BlendMode) -> (paint: Self)
        ensures
            paint == (Paint { color, alpha, blend_mode }),
    {
        Self { color, alpha, blend_mode }
    }

    /// Returns the constant alpha.
    pub fn alpha(self) -> (alpha: SceneUnit)
        ensures
            alpha == self.alpha,
    {
        self.alpha
    }

    /// Returns the blend mode.
    pub fn blend_mode(self) -> (mode: BlendMode)
        ensures
            mode == self.blend_mode,
    {
        self.blend_mode
    }
}

/// Winding rule.
#[derive(Clone, Copy, Debug, PartialEq, Eq, Hash, Structural)]
pub enum FillRule {
    Nonzero,
    EvenOdd,
}

/// Line cap.
#[derive(Clone, Copy, Debug, PartialEq, Eq, Hash, Structural)]
pub enum LineCap {
    Butt,
    Round,
    Square,
}

/// Line join.
#[derive(Clone, Copy, Debug, PartialEq, Eq, Hash, Structural)]
pub enum LineJoin {
    Miter,
    Round,
    Bevel,
}

/// One path segment in scene coordinates.
#[derive(Clone, Copy, Debug, PartialEq, Eq, Hash, Structural)]
pub enum PathSegment {
    MoveTo(ScenePoint),
    LineTo(ScenePoint),
    CubicTo { control_1: ScenePoint, control_2: ScenePoint, end: ScenePoint },
    ClosePath,
}

/// Declared bounds of one scene command.
#[derive(Clone, Copy, Debug, PartialEq, Eq, Hash, Structural)]
pub enum SceneBounds {
    Empty,
    Page,
    Finite { minimum: ScenePoint, maximum: ScenePoint },
}

/// Where a scene resource comes from.
#[derive(Clone, Copy, Debug, PartialEq, Eq, Hash, Structural)]
pub struct GraphicsResourceSource {
    pub reference: ObjectRef,
    pub revision_startxref: u64,
    pub decode_context: u64,
}

/// Evidence of one scene command.
#[derive(Clone, Copy, Debug, PartialEq, Eq, Hash, Structural)]
pub struct CommandSource {
    pub span: DecodedSpan,
    pub operator_index: u32,
}

/// The command evidence of an operator.
pub open spec fn command_source_of(source: ContentOperatorSource) -> CommandSource {
    CommandSource { span: source.span, operator_index: source.page_operator_ordinal as u32 }
}

/// The operator that command evidence names.
pub open spec fn operator_source_of(source: CommandSource) -> ContentOperatorSource {
    ContentOperatorSource {
        span: source.span,
        page_operator_ordinal: source.operator_index as u64,
    }
}

/// Turns operator evidence into command evidence.
pub fn command_source(source: ContentOperatorSource) -> (command: CommandSource)
    requires
        source.page_operator_ordinal <= u32::MAX,
    ensures
        command == command_source_of(source),
{
    CommandSource { span: source.span, operator_index: source.page_operator_ordinal as u32 }
}

/// Command evidence names the operator that it came from.
pub proof fn command_evidence_round_trip(source: ContentOperatorSource)
    requires
        source.page_operator_ordinal <= u32::MAX,
    ensures
        operator_source_of(command_source_of(source)) == source,
{
}

} // verus!
