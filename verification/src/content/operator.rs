//! The stable operator table.

use vstd::prelude::*;

verus! {

/// Structural context declared by a known operator specification.
#[derive(Clone, Copy, Debug, PartialEq, Eq, Structural)]
pub enum OperatorContext {
    /// No additional structural context is required by the scanner table.
    Any,
    /// Opens or closes a text object.
    TextObjectBoundary,
    /// Changes text state, text positioning, or text showing inside a text object.
    TextObject,
    /// Opens or closes a compatibility section.
    CompatibilityBoundary,
    /// Operates on the marked-content stack or emits a marked-content point.
    MarkedContent,
    /// Constructs or closes the current path outside a text object.
    PathConstruction,
    /// Paints or discards the current path outside a text object.
    PathPainting,
    /// Selects a pending clipping rule for the current path outside a text object.
    ClippingPath,
    /// Changes one registered line parameter in the current graphics state.
    LineState,
    /// Changes a registered device-color value in the current graphics state.
    DeviceColor,
    /// Paints one named external object outside a text object.
    XObject,
}

/// Exact top-level operand shape required before an initial known operator can execute.
#[derive(Clone, Copy, Debug, PartialEq, Eq, Structural)]
pub enum OperatorOperandShape {
    /// No operands.
    NoOperands,
    /// One PDF number.
    OneNumber,
    /// Two PDF numbers in source order.
    TwoNumbers,
    /// Three PDF numbers in source order.
    ThreeNumbers,
    /// Four PDF numbers in source order.
    FourNumbers,
    /// Six PDF numbers in source order.
    SixNumbers,
    /// One PDF integer.
    OneInteger,
    /// One array of PDF numbers followed by one PDF number.
    NumberArrayAndNumber,
    /// One PDF name.
    Name,
    /// One PDF name followed by one PDF number.
    NameAndNumber,
    /// One decoded PDF string.
    String,
    /// One direct PDF array whose element shape is validated by the operator.
    Array,
    /// Two PDF numbers followed by one decoded PDF string.
    TwoNumbersAndString,
    /// One PDF name followed by either a name or a direct dictionary.
    NameAndNameOrDictionary,
}

impl OperatorOperandShape {
    /// The number of operands, as a value.
    pub open spec fn count(self) -> u8 {
        match self {
            OperatorOperandShape::NoOperands => 0,
            OperatorOperandShape::OneNumber
            | OperatorOperandShape::OneInteger
            | OperatorOperandShape::Name
            | OperatorOperandShape::String
            | OperatorOperandShape::Array => 1,
            OperatorOperandShape::TwoNumbers
            | OperatorOperandShape::NumberArrayAndNumber
            | OperatorOperandShape::NameAndNumber
            | OperatorOperandShape::NameAndNameOrDictionary => 2,
            OperatorOperandShape::ThreeNumbers | OperatorOperandShape::TwoNumbersAndString => 3,
            OperatorOperandShape::FourNumbers => 4,
            OperatorOperandShape::SixNumbers => 6,
        }
    }

    /// Returns the number of operands.
    pub fn operand_count(self) -> (count: u8)
        ensures
            count == self.count(),
    {
        match self {
            OperatorOperandShape::NoOperands => 0,
            OperatorOperandShape::OneNumber | OperatorOperandShape::OneInteger => 1,
            OperatorOperandShape::TwoNumbers
            | OperatorOperandShape::NumberArrayAndNumber
            | OperatorOperandShape::NameAndNumber => 2,
            OperatorOperandShape::ThreeNumbers | OperatorOperandShape::TwoNumbersAndString => 3,
            OperatorOperandShape::FourNumbers => 4,
            OperatorOperandShape::SixNumbers => 6,
            OperatorOperandShape::Name
            | OperatorOperandShape::String
            | OperatorOperandShape::Array => 1,
            OperatorOperandShape::NameAndNameOrDictionary => 2,
        }
    }
}

/// Declarative initial VM outcome after an operator's operand shape has been validated.
#[derive(Clone, Copy, Debug, PartialEq, Eq, Structural)]
pub enum OperatorFailurePolicy {
    /// Execute the operator under its structural and resource rules.
    Execute,
    /// Publish a structured unsupported outcome only after operand validation succeeds.
    ValidateThenUnsupported,
}

/// Stable known operator identity used by the initial content interpreter.
#[derive(Clone, Copy, Debug, PartialEq, Eq, PartialOrd, Ord, Hash, Structural)]
pub enum OperatorKind {
    /// Save graphics state (`q`).
    SaveGraphicsState,
    /// Restore graphics state (`Q`).
    RestoreGraphicsState,
    /// Apply a named external graphics-state dictionary (`gs`).
    SetGraphicsState,
    /// Concatenate current transformation matrix (`cm`).
    ConcatMatrix,
    /// Begin text object (`BT`).
    BeginText,
    /// End text object (`ET`).
    EndText,
    /// Set character spacing (`Tc`).
    SetCharacterSpacing,
    /// Set word spacing (`Tw`).
    SetWordSpacing,
    /// Set horizontal scaling percentage (`Tz`).
    SetHorizontalScaling,
    /// Set text leading (`TL`).
    SetTextLeading,
    /// Select the text font and size (`Tf`).
    SetTextFont,
    /// Set text rendering mode (`Tr`).
    SetTextRenderMode,
    /// Set text rise (`Ts`).
    SetTextRise,
    /// Move the text line matrix (`Td`).
    MoveTextPosition,
    /// Move the text line matrix and set leading (`TD`).
    MoveTextPositionSetLeading,
    /// Set the text and text-line matrices (`Tm`).
    SetTextMatrix,
    /// Move to the start of the next text line (`T*`).
    MoveToNextTextLine,
    /// Show one decoded text string (`Tj`).
    ShowText,
    /// Show strings with numeric position adjustments (`TJ`).
    ShowTextAdjusted,
    /// Move to the next line and show text (`'`).
    MoveNextLineShowText,
    /// Set spacing, move to the next line, and show text (`"`).
    SetSpacingMoveNextLineShowText,
    /// Begin compatibility section (`BX`).
    BeginCompatibility,
    /// End compatibility section (`EX`).
    EndCompatibility,
    /// Marked-content point (`MP`).
    MarkedContentPoint,
    /// Marked-content point with properties (`DP`).
    MarkedContentPointProperties,
    /// Begin marked-content sequence (`BMC`).
    BeginMarkedContent,
    /// Begin marked-content sequence with properties (`BDC`).
    BeginMarkedContentProperties,
    /// End marked-content sequence (`EMC`).
    EndMarkedContent,
    /// Begin a new subpath (`m`).
    MoveTo,
    /// Append a straight-line segment (`l`).
    LineTo,
    /// Append a cubic Bezier segment (`c`).
    CubicCurveTo,
    /// Append a cubic Bezier segment replicating the initial control point (`v`).
    CubicCurveToReplicateInitial,
    /// Append a cubic Bezier segment replicating the final control point (`y`).
    CubicCurveToReplicateFinal,
    /// Close the current subpath (`h`).
    ClosePath,
    /// Append a closed rectangular subpath (`re`).
    Rectangle,
    /// Stroke the current path (`S`).
    StrokePath,
    /// Close and stroke the current path (`s`).
    CloseAndStrokePath,
    /// Fill the current path using the nonzero winding rule (`f`).
    FillNonzero,
    /// Fill using the legacy nonzero winding alias (`F`).
    FillNonzeroLegacy,
    /// Fill the current path using the even-odd rule (`f*`).
    FillEvenOdd,
    /// Fill nonzero and then stroke the current path (`B`).
    FillStrokeNonzero,
    /// Fill even-odd and then stroke the current path (`B*`).
    FillStrokeEvenOdd,
    /// Close, fill nonzero, and stroke the current path (`b`).
    CloseFillStrokeNonzero,
    /// Close, fill even-odd, and stroke the current path (`b*`).
    CloseFillStrokeEvenOdd,
    /// End the current path without painting (`n`).
    EndPath,
    /// Select nonzero clipping for the current path (`W`).
    ClipNonzero,
    /// Select even-odd clipping for the current path (`W*`).
    ClipEvenOdd,
    /// Set line width (`w`).
    SetLineWidth,
    /// Set line-cap style (`J`).
    SetLineCap,
    /// Set line-join style (`j`).
    SetLineJoin,
    /// Set miter limit (`M`).
    SetMiterLimit,
    /// Set line-dash pattern and phase (`d`).
    SetLineDash,
    /// Set stroking DeviceGray (`G`).
    SetStrokingGray,
    /// Set nonstroking DeviceGray (`g`).
    SetNonstrokingGray,
    /// Set stroking DeviceRGB (`RG`).
    SetStrokingRgb,
    /// Set nonstroking DeviceRGB (`rg`).
    SetNonstrokingRgb,
    /// Set stroking DeviceCMYK (`K`).
    SetStrokingCmyk,
    /// Set nonstroking DeviceCMYK (`k`).
    SetNonstrokingCmyk,
    /// Paint one named external object (`Do`).
    PaintXObject,
}

/// Declarative scanner and interpreter metadata for one known operator.
#[derive(Clone, Copy, Debug, PartialEq, Eq)]
pub struct OperatorSpec {
    token: &'static [u8],
    min_operands: u8,
    max_operands: u8,
    operand_shape: OperatorOperandShape,
    context: OperatorContext,
    failure_policy: OperatorFailurePolicy,
    base_fuel: u16,
}

impl OperatorSpec {
    /// Whether this is the table row of `kind`.
    pub closed spec fn describes(self, kind: OperatorKind) -> bool {
        &&& self.token@ == kind.spec_token()
        &&& self.min_operands == kind.spec_shape().count()
        &&& self.max_operands == kind.spec_shape().count()
        &&& self.operand_shape == kind.spec_shape()
        &&& self.context == kind.spec_context()
        &&& self.failure_policy == kind.spec_policy()
        &&& self.base_fuel == kind.spec_base_fuel()
    }

    /// Returns the exact case-sensitive operator token.
    pub fn token(self) -> (token: &'static [u8])
        ensures
            forall|kind: OperatorKind| #[trigger] self.describes(kind) ==> token@ == kind.spec_token(),
    {
        self.token
    }

    /// Returns the minimum operand count expected by the interpreter.
    pub fn min_operands(self) -> (count: u8)
        ensures
            forall|kind: OperatorKind| #[trigger]
                self.describes(kind) ==> count == kind.spec_shape().count(),
    {
        self.min_operands
    }

    /// Returns the maximum operand count expected by the interpreter.
    pub fn max_operands(self) -> (count: u8)
        ensures
            forall|kind: OperatorKind| #[trigger]
                self.describes(kind) ==> count == kind.spec_shape().count(),
    {
        self.max_operands
    }

    /// Returns the exact operand type shape validated by the interpreter.
    pub fn operand_shape(self) -> (shape: OperatorOperandShape)
        ensures
            forall|kind: OperatorKind| #[trigger] self.describes(kind) ==> shape == kind.spec_shape(),
    {
        self.operand_shape
    }

    /// Returns the structural context class.
    pub fn context(self) -> (context: OperatorContext)
        ensures
            forall|kind: OperatorKind| #[trigger]
                self.describes(kind) ==> context == kind.spec_context(),
    {
        self.context
    }

    /// Returns the declared outcome after successful operand validation.
    pub fn failure_policy(self) -> (policy: OperatorFailurePolicy)
        ensures
            forall|kind: OperatorKind| #[trigger]
                self.describes(kind) ==> policy == kind.spec_policy(),
    {
        self.failure_policy
    }

    /// Returns the declared base fuel cost.
    pub fn base_fuel(self) -> (fuel: u16)
        ensures
            forall|kind: OperatorKind| #[trigger]
                self.describes(kind) ==> fuel == kind.spec_base_fuel(),
    {
        self.base_fuel
    }
}

/// The operator that a token names, if any.
pub open spec fn kind_of_token(token: Seq<u8>) -> Option<OperatorKind> {
    if token.len() == 1 {
        match token[0] {
            0x71 => Some(OperatorKind::SaveGraphicsState),
            0x51 => Some(OperatorKind::RestoreGraphicsState),
            0x27 => Some(OperatorKind::MoveNextLineShowText),
            0x22 => Some(OperatorKind::SetSpacingMoveNextLineShowText),
            0x6d => Some(OperatorKind::MoveTo),
            0x6c => Some(OperatorKind::LineTo),
            0x63 => Some(OperatorKind::CubicCurveTo),
            0x76 => Some(OperatorKind::CubicCurveToReplicateInitial),
            0x79 => Some(OperatorKind::CubicCurveToReplicateFinal),
            0x68 => Some(OperatorKind::ClosePath),
            0x53 => Some(OperatorKind::StrokePath),
            0x73 => Some(OperatorKind::CloseAndStrokePath),
            0x66 => Some(OperatorKind::FillNonzero),
            0x46 => Some(OperatorKind::FillNonzeroLegacy),
            0x42 => Some(OperatorKind::FillStrokeNonzero),
            0x62 => Some(OperatorKind::CloseFillStrokeNonzero),
            0x6e => Some(OperatorKind::EndPath),
            0x57 => Some(OperatorKind::ClipNonzero),
            0x77 => Some(OperatorKind::SetLineWidth),
            0x4a => Some(OperatorKind::SetLineCap),
            0x6a => Some(OperatorKind::SetLineJoin),
            0x4d => Some(OperatorKind::SetMiterLimit),
            0x64 => Some(OperatorKind::SetLineDash),
            0x47 => Some(OperatorKind::SetStrokingGray),
            0x67 => Some(OperatorKind::SetNonstrokingGray),
            0x4b => Some(OperatorKind::SetStrokingCmyk),
            0x6b => Some(OperatorKind::SetNonstrokingCmyk),
            _ => None,
        }
    } else if token.len() == 2 {
        match (token[0], token[1]) {
            (0x67, 0x73) => Some(OperatorKind::SetGraphicsState),
            (0x63, 0x6d) => Some(OperatorKind::ConcatMatrix),
            (0x42, 0x54) => Some(OperatorKind::BeginText),
            (0x45, 0x54) => Some(OperatorKind::EndText),
            (0x54, 0x63) => Some(OperatorKind::SetCharacterSpacing),
            (0x54, 0x77) => Some(OperatorKind::SetWordSpacing),
            (0x54, 0x7a) => Some(OperatorKind::SetHorizontalScaling),
            (0x54, 0x4c) => Some(OperatorKind::SetTextLeading),
            (0x54, 0x66) => Some(OperatorKind::SetTextFont),
            (0x54, 0x72) => Some(OperatorKind::SetTextRenderMode),
            (0x54, 0x73) => Some(OperatorKind::SetTextRise),
            (0x54, 0x64) => Some(OperatorKind::MoveTextPosition),
            (0x54, 0x44) => Some(OperatorKind::MoveTextPositionSetLeading),
            (0x54, 0x6d) => Some(OperatorKind::SetTextMatrix),
            (0x54, 0x2a) => Some(OperatorKind::MoveToNextTextLine),
            (0x54, 0x6a) => Some(OperatorKind::ShowText),
            (0x54, 0x4a) => Some(OperatorKind::ShowTextAdjusted),
            (0x42, 0x58) => Some(OperatorKind::BeginCompatibility),
            (0x45, 0x58) => Some(OperatorKind::EndCompatibility),
            (0x4d, 0x50) => Some(OperatorKind::MarkedContentPoint),
            (0x44, 0x50) => Some(OperatorKind::MarkedContentPointProperties),
            (0x72, 0x65) => Some(OperatorKind::Rectangle),
            (0x66, 0x2a) => Some(OperatorKind::FillEvenOdd),
            (0x42, 0x2a) => Some(OperatorKind::FillStrokeEvenOdd),
            (0x62, 0x2a) => Some(OperatorKind::CloseFillStrokeEvenOdd),
            (0x57, 0x2a) => Some(OperatorKind::ClipEvenOdd),
            (0x52, 0x47) => Some(OperatorKind::SetStrokingRgb),
            (0x72, 0x67) => Some(OperatorKind::SetNonstrokingRgb),
            (0x44, 0x6f) => Some(OperatorKind::PaintXObject),
            _ => None,
        }
    } else if token.len() == 3 {
        match (token[0], token[1], token[2]) {
            (0x42, 0x4d, 0x43) => Some(OperatorKind::BeginMarkedContent),
            (0x42, 0x44, 0x43) => Some(OperatorKind::BeginMarkedContentProperties),
            (0x45, 0x4d, 0x43) => Some(OperatorKind::EndMarkedContent),
            _ => None,
        }
    } else {
        None
    }
}

impl OperatorKind {
    /// The token, as a value.
    pub open spec fn spec_token(self) -> Seq<u8> {
        match self {
            OperatorKind::SaveGraphicsState => seq![0x71u8],
            OperatorKind::RestoreGraphicsState => seq![0x51u8],
            OperatorKind::SetGraphicsState => seq![0x67u8, 0x73u8],
            OperatorKind::ConcatMatrix => seq![0x63u8, 0x6du8],
            OperatorKind::BeginText => seq![0x42u8, 0x54u8],
            OperatorKind::EndText => seq![0x45u8, 0x54u8],
            OperatorKind::SetCharacterSpacing => seq![0x54u8, 0x63u8],
            OperatorKind::SetWordSpacing => seq![0x54u8, 0x77u8],
            OperatorKind::SetHorizontalScaling => seq![0x54u8, 0x7au8],
            OperatorKind::SetTextLeading => seq![0x54u8, 0x4cu8],
            OperatorKind::SetTextFont => seq![0x54u8, 0x66u8],
            OperatorKind::SetTextRenderMode => seq![0x54u8, 0x72u8],
            OperatorKind::SetTextRise => seq![0x54u8, 0x73u8],
            OperatorKind::MoveTextPosition => seq![0x54u8, 0x64u8],
            OperatorKind::MoveTextPositionSetLeading => seq![0x54u8, 0x44u8],
            OperatorKind::SetTextMatrix => seq![0x54u8, 0x6du8],
            OperatorKind::MoveToNextTextLine => seq![0x54u8, 0x2au8],
            OperatorKind::ShowText => seq![0x54u8, 0x6au8],
            OperatorKind::ShowTextAdjusted => seq![0x54u8, 0x4au8],
            OperatorKind::MoveNextLineShowText => seq![0x27u8],
            OperatorKind::SetSpacingMoveNextLineShowText => seq![0x22u8],
            OperatorKind::BeginCompatibility => seq![0x42u8, 0x58u8],
            OperatorKind::EndCompatibility => seq![0x45u8, 0x58u8],
            OperatorKind::MarkedContentPoint => seq![0x4du8, 0x50u8],
            OperatorKind::MarkedContentPointProperties => seq![0x44u8, 0x50u8],
            OperatorKind::BeginMarkedContent => seq![0x42u8, 0x4du8, 0x43u8],
            OperatorKind::BeginMarkedContentProperties => seq![0x42u8, 0x44u8, 0x43u8],
            OperatorKind::EndMarkedContent => seq![0x45u8, 0x4du8, 0x43u8],
            OperatorKind::MoveTo => seq![0x6du8],
            OperatorKind::LineTo => seq![0x6cu8],
            OperatorKind::CubicCurveTo => seq![0x63u8],
            OperatorKind::CubicCurveToReplicateInitial => seq![0x76u8],
            OperatorKind::CubicCurveToReplicateFinal => seq![0x79u8],
            OperatorKind::ClosePath => seq![0x68u8],
            OperatorKind::Rectangle => seq![0x72u8, 0x65u8],
            OperatorKind::StrokePath => seq![0x53u8],
            OperatorKind::CloseAndStrokePath => seq![0x73u8],
            OperatorKind::FillNonzero => seq![0x66u8],
            OperatorKind::FillNonzeroLegacy => seq![0x46u8],
            OperatorKind::FillEvenOdd => seq![0x66u8, 0x2au8],
            OperatorKind::FillStrokeNonzero => seq![0x42u8],
            OperatorKind::FillStrokeEvenOdd => seq![0x42u8, 0x2au8],
            OperatorKind::CloseFillStrokeNonzero => seq![0x62u8],
            OperatorKind::CloseFillStrokeEvenOdd => seq![0x62u8, 0x2au8],
            OperatorKind::EndPath => seq![0x6eu8],
            OperatorKind::ClipNonzero => seq![0x57u8],
            OperatorKind::ClipEvenOdd => seq![0x57u8, 0x2au8],
            OperatorKind::SetLineWidth => seq![0x77u8],
            OperatorKind::SetLineCap => seq![0x4au8],
            OperatorKind::SetLineJoin => seq![0x6au8],
            OperatorKind::SetMiterLimit => seq![0x4du8],
            OperatorKind::SetLineDash => seq![0x64u8],
            OperatorKind::SetStrokingGray => seq![0x47u8],
            OperatorKind::SetNonstrokingGray => seq![0x67u8],
            OperatorKind::SetStrokingRgb => seq![0x52u8, 0x47u8],
            OperatorKind::SetNonstrokingRgb => seq![0x72u8, 0x67u8],
            OperatorKind::SetStrokingCmyk => seq![0x4bu8],
            OperatorKind::SetNonstrokingCmyk => seq![0x6bu8],
            OperatorKind::PaintXObject => seq![0x44u8, 0x6fu8],
        }
    }

    /// The operand shape, as a value.
    pub open spec fn spec_shape(self) -> OperatorOperandShape {
        match self {
            OperatorKind::SetGraphicsState
            | OperatorKind::MarkedContentPoint
            | OperatorKind::BeginMarkedContent
            | OperatorKind::PaintXObject => OperatorOperandShape::Name,
            OperatorKind::ConcatMatrix
            | OperatorKind::SetTextMatrix
            | OperatorKind::CubicCurveTo => OperatorOperandShape::SixNumbers,
            OperatorKind::SetCharacterSpacing
            | OperatorKind::SetWordSpacing
            | OperatorKind::SetHorizontalScaling
            | OperatorKind::SetTextLeading
            | OperatorKind::SetTextRise
            | OperatorKind::SetLineWidth
            | OperatorKind::SetMiterLimit
            | OperatorKind::SetStrokingGray
            | OperatorKind::SetNonstrokingGray => OperatorOperandShape::OneNumber,
            OperatorKind::SetTextFont => OperatorOperandShape::NameAndNumber,
            OperatorKind::SetTextRenderMode
            | OperatorKind::SetLineCap
            | OperatorKind::SetLineJoin => OperatorOperandShape::OneInteger,
            OperatorKind::MoveTextPosition
            | OperatorKind::MoveTextPositionSetLeading
            | OperatorKind::MoveTo
            | OperatorKind::LineTo => OperatorOperandShape::TwoNumbers,
            OperatorKind::ShowText
            | OperatorKind::MoveNextLineShowText => OperatorOperandShape::String,
            OperatorKind::ShowTextAdjusted => OperatorOperandShape::Array,
            OperatorKind::SetSpacingMoveNextLineShowText => OperatorOperandShape::TwoNumbersAndString,
            OperatorKind::MarkedContentPointProperties
            | OperatorKind::BeginMarkedContentProperties => OperatorOperandShape::NameAndNameOrDictionary,
            OperatorKind::CubicCurveToReplicateInitial
            | OperatorKind::CubicCurveToReplicateFinal
            | OperatorKind::Rectangle
            | OperatorKind::SetStrokingCmyk
            | OperatorKind::SetNonstrokingCmyk => OperatorOperandShape::FourNumbers,
            OperatorKind::SetLineDash => OperatorOperandShape::NumberArrayAndNumber,
            OperatorKind::SetStrokingRgb
            | OperatorKind::SetNonstrokingRgb => OperatorOperandShape::ThreeNumbers,
            _ => OperatorOperandShape::NoOperands,
        }
    }

    /// The structural context, as a value.
    pub open spec fn spec_context(self) -> OperatorContext {
        match self {
            OperatorKind::BeginText
            | OperatorKind::EndText => OperatorContext::TextObjectBoundary,
            OperatorKind::MoveTextPosition
            | OperatorKind::MoveTextPositionSetLeading
            | OperatorKind::SetTextMatrix
            | OperatorKind::MoveToNextTextLine
            | OperatorKind::ShowText
            | OperatorKind::ShowTextAdjusted
            | OperatorKind::MoveNextLineShowText
            | OperatorKind::SetSpacingMoveNextLineShowText => OperatorContext::TextObject,
            OperatorKind::BeginCompatibility
            | OperatorKind::EndCompatibility => OperatorContext::CompatibilityBoundary,
            OperatorKind::MarkedContentPoint
            | OperatorKind::MarkedContentPointProperties
            | OperatorKind::BeginMarkedContent
            | OperatorKind::BeginMarkedContentProperties
            | OperatorKind::EndMarkedContent => OperatorContext::MarkedContent,
            OperatorKind::MoveTo
            | OperatorKind::LineTo
            | OperatorKind::CubicCurveTo
            | OperatorKind::CubicCurveToReplicateInitial
            | OperatorKind::CubicCurveToReplicateFinal
            | OperatorKind::ClosePath
            | OperatorKind::Rectangle => OperatorContext::PathConstruction,
            OperatorKind::StrokePath
            | OperatorKind::CloseAndStrokePath
            | OperatorKind::FillNonzero
            | OperatorKind::FillNonzeroLegacy
            | OperatorKind::FillEvenOdd
            | OperatorKind::FillStrokeNonzero
            | OperatorKind::FillStrokeEvenOdd
            | OperatorKind::CloseFillStrokeNonzero
            | OperatorKind::CloseFillStrokeEvenOdd
            | OperatorKind::EndPath => OperatorContext::PathPainting,
            OperatorKind::ClipNonzero
            | OperatorKind::ClipEvenOdd => OperatorContext::ClippingPath,
            OperatorKind::SetLineWidth
            | OperatorKind::SetLineCap
            | OperatorKind::SetLineJoin
            | OperatorKind::SetMiterLimit
            | OperatorKind::SetLineDash => OperatorContext::LineState,
            OperatorKind::SetStrokingGray
            | OperatorKind::SetNonstrokingGray
            | OperatorKind::SetStrokingRgb
            | OperatorKind::SetNonstrokingRgb
            | OperatorKind::SetStrokingCmyk
            | OperatorKind::SetNonstrokingCmyk => OperatorContext::DeviceColor,
            OperatorKind::PaintXObject => OperatorContext::XObject,
            _ => OperatorContext::Any,
        }
    }

    /// The outcome policy, as a value.
    pub open spec fn spec_policy(self) -> OperatorFailurePolicy {
        match self {
            OperatorKind::MarkedContentPoint
            | OperatorKind::MarkedContentPointProperties => OperatorFailurePolicy::ValidateThenUnsupported,
            _ => OperatorFailurePolicy::Execute,
        }
    }

    /// The base fuel, as a value.
    pub open spec fn spec_base_fuel(self) -> u16 {
        match self {
            OperatorKind::SetGraphicsState
            | OperatorKind::SetCharacterSpacing
            | OperatorKind::SetWordSpacing
            | OperatorKind::SetHorizontalScaling
            | OperatorKind::SetTextLeading
            | OperatorKind::SetTextRenderMode
            | OperatorKind::SetTextRise
            | OperatorKind::MoveToNextTextLine
            | OperatorKind::ShowText
            | OperatorKind::MarkedContentPoint
            | OperatorKind::BeginMarkedContent
            | OperatorKind::SetLineWidth
            | OperatorKind::SetLineCap
            | OperatorKind::SetLineJoin
            | OperatorKind::SetMiterLimit
            | OperatorKind::SetStrokingGray
            | OperatorKind::SetNonstrokingGray => 2,
            OperatorKind::ConcatMatrix
            | OperatorKind::MoveTextPositionSetLeading
            | OperatorKind::SetStrokingRgb
            | OperatorKind::SetNonstrokingRgb => 4,
            OperatorKind::SetTextFont
            | OperatorKind::MoveTextPosition
            | OperatorKind::ShowTextAdjusted
            | OperatorKind::MoveNextLineShowText
            | OperatorKind::MarkedContentPointProperties
            | OperatorKind::BeginMarkedContentProperties
            | OperatorKind::MoveTo
            | OperatorKind::LineTo
            | OperatorKind::SetLineDash
            | OperatorKind::PaintXObject => 3,
            OperatorKind::SetTextMatrix
            | OperatorKind::CubicCurveTo => 7,
            OperatorKind::SetSpacingMoveNextLineShowText
            | OperatorKind::CubicCurveToReplicateInitial
            | OperatorKind::CubicCurveToReplicateFinal
            | OperatorKind::Rectangle
            | OperatorKind::SetStrokingCmyk
            | OperatorKind::SetNonstrokingCmyk => 5,
            _ => 1,
        }
    }

    /// Finds the operator that a token names.
    pub fn from_token(token: &[u8]) -> (kind: Option<Self>)
        ensures
            kind == kind_of_token(token@),
    {
        if token.len() == 1 {
            match token[0] {
                0x71 => Some(OperatorKind::SaveGraphicsState),
                0x51 => Some(OperatorKind::RestoreGraphicsState),
                0x27 => Some(OperatorKind::MoveNextLineShowText),
                0x22 => Some(OperatorKind::SetSpacingMoveNextLineShowText),
                0x6d => Some(OperatorKind::MoveTo),
                0x6c => Some(OperatorKind::LineTo),
                0x63 => Some(OperatorKind::CubicCurveTo),
                0x76 => Some(OperatorKind::CubicCurveToReplicateInitial),
                0x79 => Some(OperatorKind::CubicCurveToReplicateFinal),
                0x68 => Some(OperatorKind::ClosePath),
                0x53 => Some(OperatorKind::StrokePath),
                0x73 => Some(OperatorKind::CloseAndStrokePath),
                0x66 => Some(OperatorKind::FillNonzero),
                0x46 => Some(OperatorKind::FillNonzeroLegacy),
                0x42 => Some(OperatorKind::FillStrokeNonzero),
                0x62 => Some(OperatorKind::CloseFillStrokeNonzero),
                0x6e => Some(OperatorKind::EndPath),
                0x57 => Some(OperatorKind::ClipNonzero),
                0x77 => Some(OperatorKind::SetLineWidth),
                0x4a => Some(OperatorKind::SetLineCap),
                0x6a => Some(OperatorKind::SetLineJoin),
                0x4d => Some(OperatorKind::SetMiterLimit),
                0x64 => Some(OperatorKind::SetLineDash),
                0x47 => Some(OperatorKind::SetStrokingGray),
                0x67 => Some(OperatorKind::SetNonstrokingGray),
                0x4b => Some(OperatorKind::SetStrokingCmyk),
                0x6b => Some(OperatorKind::SetNonstrokingCmyk),
                _ => None,
            }
        } else if token.len() == 2 {
            match (token[0], token[1]) {
                (0x67, 0x73) => Some(OperatorKind::SetGraphicsState),
                (0x63, 0x6d) => Some(OperatorKind::ConcatMatrix),
                (0x42, 0x54) => Some(OperatorKind::BeginText),
                (0x45, 0x54) => Some(OperatorKind::EndText),
                (0x54, 0x63) => Some(OperatorKind::SetCharacterSpacing),
                (0x54, 0x77) => Some(OperatorKind::SetWordSpacing),
                (0x54, 0x7a) => Some(OperatorKind::SetHorizontalScaling),
                (0x54, 0x4c) => Some(OperatorKind::SetTextLeading),
                (0x54, 0x66) => Some(OperatorKind::SetTextFont),
                (0x54, 0x72) => Some(OperatorKind::SetTextRenderMode),
                (0x54, 0x73) => Some(OperatorKind::SetTextRise),
                (0x54, 0x64) => Some(OperatorKind::MoveTextPosition),
                (0x54, 0x44) => Some(OperatorKind::MoveTextPositionSetLeading),
                (0x54, 0x6d) => Some(OperatorKind::SetTextMatrix),
                (0x54, 0x2a) => Some(OperatorKind::MoveToNextTextLine),
                (0x54, 0x6a) => Some(OperatorKind::ShowText),
                (0x54, 0x4a) => Some(OperatorKind::ShowTextAdjusted),
                (0x42, 0x58) => Some(OperatorKind::BeginCompatibility),
                (0x45, 0x58) => Some(OperatorKind::EndCompatibility),
                (0x4d, 0x50) => Some(OperatorKind::MarkedContentPoint),
                (0x44, 0x50) => Some(OperatorKind::MarkedContentPointProperties),
                (0x72, 0x65) => Some(OperatorKind::Rectangle),
                (0x66, 0x2a) => Some(OperatorKind::FillEvenOdd),
                (0x42, 0x2a) => Some(OperatorKind::FillStrokeEvenOdd),
                (0x62, 0x2a) => Some(OperatorKind::CloseFillStrokeEvenOdd),
                (0x57, 0x2a) => Some(OperatorKind::ClipEvenOdd),
                (0x52, 0x47) => Some(OperatorKind::SetStrokingRgb),
                (0x72, 0x67) => Some(OperatorKind::SetNonstrokingRgb),
                (0x44, 0x6f) => Some(OperatorKind::PaintXObject),
                _ => None,
            }
        } else if token.len() == 3 {
            match (token[0], token[1], token[2]) {
                (0x42, 0x4d, 0x43) => Some(OperatorKind::BeginMarkedContent),
                (0x42, 0x44, 0x43) => Some(OperatorKind::BeginMarkedContentProperties),
                (0x45, 0x4d, 0x43) => Some(OperatorKind::EndMarkedContent),
                _ => None,
            }
        } else {
            None
        }
    }

    /// Returns the declarative specification for this known operator.
    pub fn spec(self) -> (row: OperatorSpec)
        ensures
            row.describes(self),
    {
        let row = match self {
            OperatorKind::SaveGraphicsState => spec_row(
                &[0x71u8],
                OperatorOperandShape::NoOperands,
                OperatorContext::Any,
                OperatorFailurePolicy::Execute,
                1,
            ),
            OperatorKind::RestoreGraphicsState => spec_row(
                &[0x51u8],
                OperatorOperandShape::NoOperands,
                OperatorContext::Any,
                OperatorFailurePolicy::Execute,
                1,
            ),
            OperatorKind::SetGraphicsState => spec_row(
                &[0x67u8, 0x73u8],
                OperatorOperandShape::Name,
                OperatorContext::Any,
                OperatorFailurePolicy::Execute,
                2,
            ),
            OperatorKind::ConcatMatrix => spec_row(
                &[0x63u8, 0x6du8],
                OperatorOperandShape::SixNumbers,
                OperatorContext::Any,
                OperatorFailurePolicy::Execute,
                4,
            ),
            OperatorKind::BeginText => spec_row(
                &[0x42u8, 0x54u8],
                OperatorOperandShape::NoOperands,
                OperatorContext::TextObjectBoundary,
                OperatorFailurePolicy::Execute,
                1,
            ),
            OperatorKind::EndText => spec_row(
                &[0x45u8, 0x54u8],
                OperatorOperandShape::NoOperands,
                OperatorContext::TextObjectBoundary,
                OperatorFailurePolicy::Execute,
                1,
            ),
            OperatorKind::SetCharacterSpacing => text_state_spec(&[0x54u8, 0x63u8], OperatorOperandShape::OneNumber, 2),
            OperatorKind::SetWordSpacing => text_state_spec(&[0x54u8, 0x77u8], OperatorOperandShape::OneNumber, 2),
            OperatorKind::SetHorizontalScaling => text_state_spec(&[0x54u8, 0x7au8], OperatorOperandShape::OneNumber, 2),
            OperatorKind::SetTextLeading => text_state_spec(&[0x54u8, 0x4cu8], OperatorOperandShape::OneNumber, 2),
            OperatorKind::SetTextFont => text_state_spec(&[0x54u8, 0x66u8], OperatorOperandShape::NameAndNumber, 3),
            OperatorKind::SetTextRenderMode => text_state_spec(&[0x54u8, 0x72u8], OperatorOperandShape::OneInteger, 2),
            OperatorKind::SetTextRise => text_state_spec(&[0x54u8, 0x73u8], OperatorOperandShape::OneNumber, 2),
            OperatorKind::MoveTextPosition => text_spec(&[0x54u8, 0x64u8], OperatorOperandShape::TwoNumbers, 3),
            OperatorKind::MoveTextPositionSetLeading => text_spec(&[0x54u8, 0x44u8], OperatorOperandShape::TwoNumbers, 4),
            OperatorKind::SetTextMatrix => text_spec(&[0x54u8, 0x6du8], OperatorOperandShape::SixNumbers, 7),
            OperatorKind::MoveToNextTextLine => text_spec(&[0x54u8, 0x2au8], OperatorOperandShape::NoOperands, 2),
            OperatorKind::ShowText => text_spec(&[0x54u8, 0x6au8], OperatorOperandShape::String, 2),
            OperatorKind::ShowTextAdjusted => text_spec(&[0x54u8, 0x4au8], OperatorOperandShape::Array, 3),
            OperatorKind::MoveNextLineShowText => text_spec(&[0x27u8], OperatorOperandShape::String, 3),
            OperatorKind::SetSpacingMoveNextLineShowText => text_spec(&[0x22u8], OperatorOperandShape::TwoNumbersAndString, 5),
            OperatorKind::BeginCompatibility => spec_row(
                &[0x42u8, 0x58u8],
                OperatorOperandShape::NoOperands,
                OperatorContext::CompatibilityBoundary,
                OperatorFailurePolicy::Execute,
                1,
            ),
            OperatorKind::EndCompatibility => spec_row(
                &[0x45u8, 0x58u8],
                OperatorOperandShape::NoOperands,
                OperatorContext::CompatibilityBoundary,
                OperatorFailurePolicy::Execute,
                1,
            ),
            OperatorKind::MarkedContentPoint => spec_row(
                &[0x4du8, 0x50u8],
                OperatorOperandShape::Name,
                OperatorContext::MarkedContent,
                OperatorFailurePolicy::ValidateThenUnsupported,
                2,
            ),
            OperatorKind::MarkedContentPointProperties => spec_row(
                &[0x44u8, 0x50u8],
                OperatorOperandShape::NameAndNameOrDictionary,
                OperatorContext::MarkedContent,
                OperatorFailurePolicy::ValidateThenUnsupported,
                3,
            ),
            OperatorKind::BeginMarkedContent => spec_row(
                &[0x42u8, 0x4du8, 0x43u8],
                OperatorOperandShape::Name,
                OperatorContext::MarkedContent,
                OperatorFailurePolicy::Execute,
                2,
            ),
            OperatorKind::BeginMarkedContentProperties => spec_row(
                &[0x42u8, 0x44u8, 0x43u8],
                OperatorOperandShape::NameAndNameOrDictionary,
                OperatorContext::MarkedContent,
                OperatorFailurePolicy::Execute,
                3,
            ),
            OperatorKind::EndMarkedContent => spec_row(
                &[0x45u8, 0x4du8, 0x43u8],
                OperatorOperandShape::NoOperands,
                OperatorContext::MarkedContent,
                OperatorFailurePolicy::Execute,
                1,
            ),
            OperatorKind::MoveTo => spec_row(
                &[0x6du8],
                OperatorOperandShape::TwoNumbers,
                OperatorContext::PathConstruction,
                OperatorFailurePolicy::Execute,
                3,
            ),
            OperatorKind::LineTo => spec_row(
                &[0x6cu8],
                OperatorOperandShape::TwoNumbers,
                OperatorContext::PathConstruction,
                OperatorFailurePolicy::Execute,
                3,
            ),
            OperatorKind::CubicCurveTo => spec_row(
                &[0x63u8],
                OperatorOperandShape::SixNumbers,
                OperatorContext::PathConstruction,
                OperatorFailurePolicy::Execute,
                7,
            ),
            OperatorKind::CubicCurveToReplicateInitial => spec_row(
                &[0x76u8],
                OperatorOperandShape::FourNumbers,
                OperatorContext::PathConstruction,
                OperatorFailurePolicy::Execute,
                5,
            ),
            OperatorKind::CubicCurveToReplicateFinal => spec_row(
                &[0x79u8],
                OperatorOperandShape::FourNumbers,
                OperatorContext::PathConstruction,
                OperatorFailurePolicy::Execute,
                5,
            ),
            OperatorKind::ClosePath => spec_row(
                &[0x68u8],
                OperatorOperandShape::NoOperands,
                OperatorContext::PathConstruction,
                OperatorFailurePolicy::Execute,
                1,
            ),
            OperatorKind::Rectangle => spec_row(
                &[0x72u8, 0x65u8],
                OperatorOperandShape::FourNumbers,
                OperatorContext::PathConstruction,
                OperatorFailurePolicy::Execute,
                5,
            ),
            OperatorKind::StrokePath => spec_row(
                &[0x53u8],
                OperatorOperandShape::NoOperands,
                OperatorContext::PathPainting,
                OperatorFailurePolicy::Execute,
                1,
            ),
            OperatorKind::CloseAndStrokePath => spec_row(
                &[0x73u8],
                OperatorOperandShape::NoOperands,
                OperatorContext::PathPainting,
                OperatorFailurePolicy::Execute,
                1,
            ),
            OperatorKind::FillNonzero => spec_row(
                &[0x66u8],
                OperatorOperandShape::NoOperands,
                OperatorContext::PathPainting,
                OperatorFailurePolicy::Execute,
                1,
            ),
            OperatorKind::FillNonzeroLegacy => spec_row(
                &[0x46u8],
                OperatorOperandShape::NoOperands,
                OperatorContext::PathPainting,
                OperatorFailurePolicy::Execute,
                1,
            ),
            OperatorKind::FillEvenOdd => spec_row(
                &[0x66u8, 0x2au8],
                OperatorOperandShape::NoOperands,
                OperatorContext::PathPainting,
                OperatorFailurePolicy::Execute,
                1,
            ),
            OperatorKind::FillStrokeNonzero => spec_row(
                &[0x42u8],
                OperatorOperandShape::NoOperands,
                OperatorContext::PathPainting,
                OperatorFailurePolicy::Execute,
                1,
            ),
            OperatorKind::FillStrokeEvenOdd => spec_row(
                &[0x42u8, 0x2au8],
                OperatorOperandShape::NoOperands,
                OperatorContext::PathPainting,
                OperatorFailurePolicy::Execute,
                1,
            ),
            OperatorKind::CloseFillStrokeNonzero => spec_row(
                &[0x62u8],
                OperatorOperandShape::NoOperands,
                OperatorContext::PathPainting,
                OperatorFailurePolicy::Execute,
                1,
            ),
            OperatorKind::CloseFillStrokeEvenOdd => spec_row(
                &[0x62u8, 0x2au8],
                OperatorOperandShape::NoOperands,
                OperatorContext::PathPainting,
                OperatorFailurePolicy::Execute,
                1,
            ),
            OperatorKind::EndPath => spec_row(
                &[0x6eu8],
                OperatorOperandShape::NoOperands,
                OperatorContext::PathPainting,
                OperatorFailurePolicy::Execute,
                1,
            ),
            OperatorKind::ClipNonzero => spec_row(
                &[0x57u8],
                OperatorOperandShape::NoOperands,
                OperatorContext::ClippingPath,
                OperatorFailurePolicy::Execute,
                1,
            ),
            OperatorKind::ClipEvenOdd => spec_row(
                &[0x57u8, 0x2au8],
                OperatorOperandShape::NoOperands,
                OperatorContext::ClippingPath,
                OperatorFailurePolicy::Execute,
                1,
            ),
            OperatorKind::SetLineWidth => spec_row(
                &[0x77u8],
                OperatorOperandShape::OneNumber,
                OperatorContext::LineState,
                OperatorFailurePolicy::Execute,
                2,
            ),
            OperatorKind::SetLineCap => spec_row(
                &[0x4au8],
                OperatorOperandShape::OneInteger,
                OperatorContext::LineState,
                OperatorFailurePolicy::Execute,
                2,
            ),
            OperatorKind::SetLineJoin => spec_row(
                &[0x6au8],
                OperatorOperandShape::OneInteger,
                OperatorContext::LineState,
                OperatorFailurePolicy::Execute,
                2,
            ),
            OperatorKind::SetMiterLimit => spec_row(
                &[0x4du8],
                OperatorOperandShape::OneNumber,
                OperatorContext::LineState,
                OperatorFailurePolicy::Execute,
                2,
            ),
            OperatorKind::SetLineDash => spec_row(
                &[0x64u8],
                OperatorOperandShape::NumberArrayAndNumber,
                OperatorContext::LineState,
                OperatorFailurePolicy::Execute,
                3,
            ),
            OperatorKind::SetStrokingGray => spec_row(
                &[0x47u8],
                OperatorOperandShape::OneNumber,
                OperatorContext::DeviceColor,
                OperatorFailurePolicy::Execute,
                2,
            ),
            OperatorKind::SetNonstrokingGray => spec_row(
                &[0x67u8],
                OperatorOperandShape::OneNumber,
                OperatorContext::DeviceColor,
                OperatorFailurePolicy::Execute,
                2,
            ),
            OperatorKind::SetStrokingRgb => spec_row(
                &[0x52u8, 0x47u8],
                OperatorOperandShape::ThreeNumbers,
                OperatorContext::DeviceColor,
                OperatorFailurePolicy::Execute,
                4,
            ),
            OperatorKind::SetNonstrokingRgb => spec_row(
                &[0x72u8, 0x67u8],
                OperatorOperandShape::ThreeNumbers,
                OperatorContext::DeviceColor,
                OperatorFailurePolicy::Execute,
                4,
            ),
            OperatorKind::SetStrokingCmyk => spec_row(
                &[0x4bu8],
                OperatorOperandShape::FourNumbers,
                OperatorContext::DeviceColor,
                OperatorFailurePolicy::Execute,
                5,
            ),
            OperatorKind::SetNonstrokingCmyk => spec_row(
                &[0x6bu8],
                OperatorOperandShape::FourNumbers,
                OperatorContext::DeviceColor,
                OperatorFailurePolicy::Execute,
                5,
            ),
            OperatorKind::PaintXObject => spec_row(
                &[0x44u8, 0x6fu8],
                OperatorOperandShape::Name,
                OperatorContext::XObject,
                OperatorFailurePolicy::Execute,
                3,
            ),
        };
        assert(row.token@ =~= self.spec_token());
        row
    }
}

fn spec_row(
    token: &'static [u8],
    operand_shape: OperatorOperandShape,
    context: OperatorContext,
    failure_policy: OperatorFailurePolicy,
    base_fuel: u16,
) -> (row: OperatorSpec)
    ensures
        row == (OperatorSpec {
            token,
            min_operands: operand_shape.count(),
            max_operands: operand_shape.count(),
            operand_shape,
            context,
            failure_policy,
            base_fuel,
        }),
{
    let operands: u8 = operand_shape.operand_count();
    OperatorSpec {
        token,
        min_operands: operands,
        max_operands: operands,
        operand_shape,
        context,
        failure_policy,
        base_fuel,
    }
}

fn text_spec(token: &'static [u8], operand_shape: OperatorOperandShape, base_fuel: u16) -> (row:
    OperatorSpec)
    ensures
        row == (OperatorSpec {
            token,
            min_operands: operand_shape.count(),
            max_operands: operand_shape.count(),
            operand_shape,
            context: OperatorContext::TextObject,
            failure_policy: OperatorFailurePolicy::Execute,
            base_fuel,
        }),
{
    spec_row(
        token,
        operand_shape,
        OperatorContext::TextObject,
        OperatorFailurePolicy::Execute,
        base_fuel,
    )
}

fn text_state_spec(
    token: &'static [u8],
    operand_shape: OperatorOperandShape,
    base_fuel: u16,
) -> (row: OperatorSpec)
    ensures
        row == (OperatorSpec {
            token,
            min_operands: operand_shape.count(),
            max_operands: operand_shape.count(),
            operand_shape,
            context: OperatorContext::Any,
            failure_policy: OperatorFailurePolicy::Execute,
            base_fuel,
        }),
{
    spec_row(
        token,
        operand_shape,
        OperatorContext::Any,
        OperatorFailurePolicy::Execute,
        base_fuel,
    )
}

/// Every operator is found by its own token.
pub proof fn operators_are_found_by_their_token(kind: OperatorKind)
    ensures
        kind_of_token(kind.spec_token()) == Some(kind),
{
}

/// A token that names an operator is the token of that operator.
pub proof fn found_operators_have_the_token(token: Seq<u8>, kind: OperatorKind)
    requires
        kind_of_token(token) == Some(kind),
    ensures
        kind.spec_token() == token,
{
    assert(kind.spec_token() =~= token);
}

/// No two operators share a token.
pub proof fn operator_tokens_are_distinct(left: OperatorKind, right: OperatorKind)
    requires
        left.spec_token() == right.spec_token(),
    ensures
        left == right,
{
    operators_are_found_by_their_token(left);
    operators_are_found_by_their_token(right);
}

} // verus!
