//! Structured interpretation failures and unsupported outcomes.

use vstd::prelude::*;

use crate::content::error::ContentError;
use crate::content::model::ContentOperatorSource;

verus! {

/// Interpreter budget that rejected work.
#[derive(Clone, Copy, Debug, PartialEq, Eq, Structural)]
pub enum ContentVmLimitKind {
    /// Executed operators.
    Operators,
    /// Deterministic work units.
    Fuel,
    /// Saved graphics states.
    GraphicsStateDepth,
    /// Nested compatibility sections.
    CompatibilityDepth,
    /// Nested marked-content sequences.
    MarkedContentDepth,
    /// Resolved marked-content properties.
    PropertyUses,
    /// Allocator-reported live capacity.
    RetainedBytes,
    /// A fallible allocation failed inside validated limits.
    Allocation,
}

/// Path and dash budget that rejected work.
#[derive(Clone, Copy, Debug, PartialEq, Eq, Structural)]
pub enum ContentGraphicsLimitKind {
    /// Segments of the current path.
    PathSegments,
    /// Allocator-reported capacity of the current path.
    PathRetainedBytes,
    /// Entries of one dash array.
    DashEntries,
    /// Allocator-reported capacity of live dash arrays.
    DashRetainedBytes,
}

/// Image budget that rejected work.
#[derive(Clone, Copy, Debug, PartialEq, Eq, Structural)]
pub enum ContentImageLimitKind {
    /// Executed image operators.
    ImageUses,
    /// Distinct acquired images.
    UniqueImages,
    /// Aggregate decoded bytes.
    DecodedBytes,
    /// Operators inspected by the planning pass.
    PlanningOperators,
    /// Exact-cache key comparisons.
    CacheProbes,
    /// Planning capacity.
    PlanRetainedBytes,
    /// A planning allocation failed.
    PlanAllocation,
    /// Cache metadata capacity.
    CacheRetainedBytes,
    /// A cache allocation failed.
    CacheAllocation,
    /// An allocation for decoded bytes failed.
    DecodedAllocation,
    /// Calls into lower acquisition jobs.
    AcquisitionPolls,
}

/// Font budget that rejected work.
#[derive(Clone, Copy, Debug, PartialEq, Eq, Structural)]
pub enum ContentFontLimitKind {
    /// Executed font selections.
    FontUses,
    /// Distinct acquired fonts.
    UniqueFonts,
    /// Aggregate retained bytes of acquired fonts.
    ResourceRetainedBytes,
    /// Positioned glyphs.
    Glyphs,
    /// Copied outline segments.
    OutlineSegments,
    /// Live glyph capacity before one handoff.
    GlyphRetainedBytes,
    /// A glyph allocation failed.
    GlyphAllocation,
    /// Decoded printable string bytes.
    TextBytes,
    /// Numeric text adjustments.
    TextAdjustments,
    /// Operators inspected by the planning pass.
    PlanningOperators,
    /// Exact-cache key comparisons.
    CacheProbes,
    /// Planning capacity.
    PlanRetainedBytes,
    /// A planning allocation failed.
    PlanAllocation,
    /// Cache metadata capacity.
    CacheRetainedBytes,
    /// A cache allocation failed.
    CacheAllocation,
    /// Calls into lower acquisition jobs.
    AcquisitionPolls,
}

/// Context of one rejected interpreter budget.
#[derive(Clone, Copy, Debug, PartialEq, Eq, Structural)]
pub struct ContentVmLimit {
    pub kind: ContentVmLimitKind,
    pub limit: u64,
    pub consumed: u64,
    pub attempted: u64,
}

impl ContentVmLimit {
    /// Creates a limit context.
    pub fn new(
        kind: ContentVmLimitKind,
        limit: u64,
        consumed: u64,
        attempted: u64,
    ) -> (context: Self)
        ensures
            context == (ContentVmLimit { kind, limit, consumed, attempted }),
    {
        Self { kind, limit, consumed, attempted }
    }

    /// Returns the rejected budget dimension.
    pub fn kind(self) -> (kind: ContentVmLimitKind)
        ensures
            kind == self.kind,
    {
        self.kind
    }
}

/// Context of one rejected path or dash budget.
#[derive(Clone, Copy, Debug, PartialEq, Eq, Structural)]
pub struct ContentGraphicsLimit {
    pub kind: ContentGraphicsLimitKind,
    pub limit: u64,
    pub consumed: u64,
    pub attempted: u64,
}

impl ContentGraphicsLimit {
    /// Creates a limit context.
    pub fn new(
        kind: ContentGraphicsLimitKind,
        limit: u64,
        consumed: u64,
        attempted: u64,
    ) -> (context: Self)
        ensures
            context == (ContentGraphicsLimit { kind, limit, consumed, attempted }),
    {
        Self { kind, limit, consumed, attempted }
    }

    /// Returns the rejected budget dimension.
    pub fn kind(self) -> (kind: ContentGraphicsLimitKind)
        ensures
            kind == self.kind,
    {
        self.kind
    }
}

/// Context of one rejected image budget.
#[derive(Clone, Copy, Debug, PartialEq, Eq, Structural)]
pub struct ContentImageLimit {
    pub kind: ContentImageLimitKind,
    pub limit: u64,
    pub consumed: u64,
    pub attempted: u64,
}

impl ContentImageLimit {
    /// Creates a limit context.
    pub fn new(
        kind: ContentImageLimitKind,
        limit: u64,
        consumed: u64,
        attempted: u64,
    ) -> (context: Self)
        ensures
            context == (ContentImageLimit { kind, limit, consumed, attempted }),
    {
        Self { kind, limit, consumed, attempted }
    }

    /// Returns the rejected budget dimension.
    pub fn kind(self) -> (kind: ContentImageLimitKind)
        ensures
            kind == self.kind,
    {
        self.kind
    }
}

/// Context of one rejected font budget.
#[derive(Clone, Copy, Debug, PartialEq, Eq, Structural)]
pub struct ContentFontLimit {
    pub kind: ContentFontLimitKind,
    pub limit: u64,
    pub consumed: u64,
    pub attempted: u64,
}

impl ContentFontLimit {
    /// Creates a limit context.
    pub fn new(
        kind: ContentFontLimitKind,
        limit: u64,
        consumed: u64,
        attempted: u64,
    ) -> (context: Self)
        ensures
            context == (ContentFontLimit { kind, limit, consumed, attempted }),
    {
        Self { kind, limit, consumed, attempted }
    }

    /// Returns the rejected budget dimension.
    pub fn kind(self) -> (kind: ContentFontLimitKind)
        ensures
            kind == self.kind,
    {
        self.kind
    }
}

/// Limit context of a resource failure.
#[derive(Clone, Copy, Debug, PartialEq, Eq, Structural)]
pub enum ContentVmLimitContext {
    /// The failure is not one of a budget.
    Unlimited,
    /// An interpreter budget.
    Vm(ContentVmLimit),
    /// A path or dash budget.
    Graphics(ContentGraphicsLimit),
    /// An image budget.
    Image(ContentImageLimit),
    /// A font budget.
    Font(ContentFontLimit),
}

/// Stable machine-readable interpretation failure.
#[derive(Clone, Copy, Debug, PartialEq, Eq, Structural)]
pub enum ContentVmErrorCode {
    /// Configured limits are zero or above fixed hard ceilings, or profiles disagree.
    InvalidLimits,
    /// A number lexeme has invalid syntax.
    InvalidNumber,
    /// A number needs more than nine decimal places.
    NumericPrecision,
    /// A number does not fit the fixed-point range.
    NumericOverflow,
    /// An operator has the wrong number of operands.
    InvalidOperandCount,
    /// An operand has the wrong type.
    InvalidOperandType,
    /// An operator stands in the wrong structural context.
    InvalidOperatorContext,
    /// Saves and restores are unbalanced.
    InvalidGraphicsState,
    /// A graphics parameter is out of range.
    InvalidGraphicsParameter,
    /// A path operator needs a current point.
    InvalidPathState,
    /// Text objects are unbalanced, or text is shown without a font.
    InvalidTextObject,
    /// Compatibility sections are unbalanced.
    InvalidCompatibilityState,
    /// Marked-content sequences are unbalanced.
    InvalidMarkedContentState,
    /// The byte source is no longer bound to the acquired snapshot.
    SourceSnapshotMismatch,
    /// Cooperative cancellation was observed.
    Cancelled,
    /// A deterministic resource budget was exceeded.
    ResourceLimit,
    /// Checked internal state could not be maintained.
    InternalState,
}

/// Coarse interpretation error policy category.
#[derive(Clone, Copy, Debug, PartialEq, Eq, Structural)]
pub enum ContentVmErrorCategory {
    /// Invalid caller configuration.
    Configuration,
    /// Malformed page content.
    Malformed,
    /// The immutable source changed.
    Integrity,
    /// Cooperative cancellation.
    Cancellation,
    /// Deterministic resource exhaustion.
    Resource,
    /// Internal implementation invariant failure.
    Internal,
}

/// Stable recovery policy for an interpretation failure.
#[derive(Clone, Copy, Debug, PartialEq, Eq, Structural)]
pub enum ContentVmRecoverability {
    /// Correct the configured limits before retrying.
    CorrectConfiguration,
    /// Correct the malformed content.
    CorrectInput,
    /// Reopen the document against the current source.
    ReopenSource,
    /// Retry only under a current generation if still useful.
    RetryCurrentGeneration,
    /// Reduce work or use an approved larger budget.
    ReduceWorkload,
    /// Repeating the same operation is not an approved recovery action.
    DoNotRetry,
}

/// The policy category of a code.
pub open spec fn vm_category_of(code: ContentVmErrorCode) -> ContentVmErrorCategory {
    match code {
        ContentVmErrorCode::InvalidLimits => ContentVmErrorCategory::Configuration,
        ContentVmErrorCode::SourceSnapshotMismatch => ContentVmErrorCategory::Integrity,
        ContentVmErrorCode::Cancelled => ContentVmErrorCategory::Cancellation,
        ContentVmErrorCode::ResourceLimit => ContentVmErrorCategory::Resource,
        ContentVmErrorCode::InternalState => ContentVmErrorCategory::Internal,
        _ => ContentVmErrorCategory::Malformed,
    }
}

/// The recovery policy of a category.
pub open spec fn vm_recovery_of(category: ContentVmErrorCategory) -> ContentVmRecoverability {
    match category {
        ContentVmErrorCategory::Configuration => ContentVmRecoverability::CorrectConfiguration,
        ContentVmErrorCategory::Malformed => ContentVmRecoverability::CorrectInput,
        ContentVmErrorCategory::Integrity => ContentVmRecoverability::ReopenSource,
        ContentVmErrorCategory::Cancellation => ContentVmRecoverability::RetryCurrentGeneration,
        ContentVmErrorCategory::Resource => ContentVmRecoverability::ReduceWorkload,
        ContentVmErrorCategory::Internal => ContentVmRecoverability::DoNotRetry,
    }
}

/// Content-redacted structured interpretation error.
#[derive(Clone, Copy, Debug, PartialEq, Eq, Structural)]
pub struct ContentVmError {
    pub code: ContentVmErrorCode,
    pub source: Option<ContentOperatorSource>,
    pub context: ContentVmLimitContext,
}

/// The failure that carries `code` and no limit context.
pub open spec fn vm_failure_of(
    code: ContentVmErrorCode,
    source: Option<ContentOperatorSource>,
) -> ContentVmError {
    ContentVmError { code, source, context: ContentVmLimitContext::Unlimited }
}

/// The failure of one operator.
pub open spec fn operator_failure(
    code: ContentVmErrorCode,
    source: ContentOperatorSource,
) -> ContentVmError {
    vm_failure_of(code, Some(source))
}

/// The resource failure with a limit context.
pub open spec fn vm_resource(
    context: ContentVmLimitContext,
    source: Option<ContentOperatorSource>,
) -> ContentVmError {
    ContentVmError { code: ContentVmErrorCode::ResourceLimit, source, context }
}

impl ContentVmError {
    /// Whether a budget of allocator-reported capacity decided the failure: what was held together
    /// with what was to be held would have passed it.
    pub open spec fn is_retained_failure(self) -> bool {
        &&& self.code == ContentVmErrorCode::ResourceLimit
        &&& match self.context {
            ContentVmLimitContext::Vm(limit) => limit.kind == ContentVmLimitKind::RetainedBytes
                && limit.consumed + limit.attempted > limit.limit,
            ContentVmLimitContext::Graphics(limit) => (limit.kind
                == ContentGraphicsLimitKind::PathRetainedBytes || limit.kind
                == ContentGraphicsLimitKind::DashRetainedBytes) && limit.consumed + limit.attempted
                > limit.limit,
            ContentVmLimitContext::Image(limit) => (limit.kind
                == ContentImageLimitKind::PlanRetainedBytes || limit.kind
                == ContentImageLimitKind::CacheRetainedBytes) && limit.consumed + limit.attempted
                > limit.limit,
            ContentVmLimitContext::Font(limit) => (limit.kind
                == ContentFontLimitKind::PlanRetainedBytes || limit.kind
                == ContentFontLimitKind::CacheRetainedBytes || limit.kind
                == ContentFontLimitKind::GlyphRetainedBytes) && limit.consumed + limit.attempted
                > limit.limit,
            ContentVmLimitContext::Unlimited => false,
        }
    }

    /// Whether the allocator refused what the budgets admitted.
    pub open spec fn is_allocation_failure(self) -> bool {
        &&& self.code == ContentVmErrorCode::ResourceLimit
        &&& match self.context {
            ContentVmLimitContext::Vm(limit) => limit.kind == ContentVmLimitKind::Allocation,
            ContentVmLimitContext::Graphics(_) => false,
            ContentVmLimitContext::Image(limit) => limit.kind
                == ContentImageLimitKind::PlanAllocation || limit.kind
                == ContentImageLimitKind::CacheAllocation || limit.kind
                == ContentImageLimitKind::DecodedAllocation,
            ContentVmLimitContext::Font(limit) => limit.kind == ContentFontLimitKind::PlanAllocation
                || limit.kind == ContentFontLimitKind::CacheAllocation || limit.kind
                == ContentFontLimitKind::GlyphAllocation,
            ContentVmLimitContext::Unlimited => false,
        }
    }

    /// Whether memory decided the failure: a budget of allocator-reported capacity would have been
    /// passed, or the allocator refused.
    pub open spec fn is_memory_failure(self) -> bool {
        self.is_retained_failure() || self.is_allocation_failure()
    }

    /// Whether fuel ran out: of a budget of `ceiling` units `fuel` were charged before, and at most
    /// `most` more were to be charged.
    pub open spec fn is_fuel_failure(self, ceiling: u64, fuel: u64, most: int) -> bool {
        &&& self.code == ContentVmErrorCode::ResourceLimit
        &&& self.context matches ContentVmLimitContext::Vm(limit) && {
            &&& limit.kind == ContentVmLimitKind::Fuel
            &&& limit.limit == ceiling
            &&& fuel <= limit.consumed
            &&& ceiling < limit.consumed + limit.attempted <= fuel + most
        }
    }

    /// Creates a failure without limit context.
    pub fn new(code: ContentVmErrorCode, source: Option<ContentOperatorSource>) -> (error: Self)
        ensures
            error == vm_failure_of(code, source),
    {
        Self { code, source, context: ContentVmLimitContext::Unlimited }
    }

    /// Creates a failure of an interpreter budget.
    pub fn resource(limit: ContentVmLimit, source: Option<ContentOperatorSource>) -> (error: Self)
        ensures
            error == vm_resource(ContentVmLimitContext::Vm(limit), source),
    {
        Self {
            code: ContentVmErrorCode::ResourceLimit,
            source,
            context: ContentVmLimitContext::Vm(limit),
        }
    }

    /// Creates a failure of a path or dash budget.
    pub fn graphics_resource(
        limit: ContentGraphicsLimit,
        source: Option<ContentOperatorSource>,
    ) -> (error: Self)
        ensures
            error == vm_resource(ContentVmLimitContext::Graphics(limit), source),
    {
        Self {
            code: ContentVmErrorCode::ResourceLimit,
            source,
            context: ContentVmLimitContext::Graphics(limit),
        }
    }

    /// Creates a failure of an image budget.
    pub fn image_resource(
        limit: ContentImageLimit,
        source: Option<ContentOperatorSource>,
    ) -> (error: Self)
        ensures
            error == vm_resource(ContentVmLimitContext::Image(limit), source),
    {
        Self {
            code: ContentVmErrorCode::ResourceLimit,
            source,
            context: ContentVmLimitContext::Image(limit),
        }
    }

    /// Creates a failure of a font budget.
    pub fn font_resource(
        limit: ContentFontLimit,
        source: Option<ContentOperatorSource>,
    ) -> (error: Self)
        ensures
            error == vm_resource(ContentVmLimitContext::Font(limit), source),
    {
        Self {
            code: ContentVmErrorCode::ResourceLimit,
            source,
            context: ContentVmLimitContext::Font(limit),
        }
    }

    /// Binds the failure to one operator.
    pub fn with_source(self, source: ContentOperatorSource) -> (error: Self)
        ensures
            error == (ContentVmError { source: Some(source), ..self }),
    {
        Self { code: self.code, source: Some(source), context: self.context }
    }

    /// Returns the stable machine-readable error code.
    pub fn code(self) -> (code: ContentVmErrorCode)
        ensures
            code == self.code,
    {
        self.code
    }

    /// Returns the operator that failed, when one did.
    pub fn source(self) -> (source: Option<ContentOperatorSource>)
        ensures
            source == self.source,
    {
        self.source
    }

    /// Returns the coarse policy category.
    pub fn category(self) -> (category: ContentVmErrorCategory)
        ensures
            category == vm_category_of(self.code),
    {
        match self.code {
            ContentVmErrorCode::InvalidLimits => ContentVmErrorCategory::Configuration,
            ContentVmErrorCode::SourceSnapshotMismatch => ContentVmErrorCategory::Integrity,
            ContentVmErrorCode::Cancelled => ContentVmErrorCategory::Cancellation,
            ContentVmErrorCode::ResourceLimit => ContentVmErrorCategory::Resource,
            ContentVmErrorCode::InternalState => ContentVmErrorCategory::Internal,
            _ => ContentVmErrorCategory::Malformed,
        }
    }

    /// Returns the stable recovery policy.
    pub fn recoverability(self) -> (recoverability: ContentVmRecoverability)
        ensures
            recoverability == vm_recovery_of(vm_category_of(self.code)),
    {
        match self.category() {
            ContentVmErrorCategory::Configuration => ContentVmRecoverability::CorrectConfiguration,
            ContentVmErrorCategory::Malformed => ContentVmRecoverability::CorrectInput,
            ContentVmErrorCategory::Integrity => ContentVmRecoverability::ReopenSource,
            ContentVmErrorCategory::Cancellation =>
                ContentVmRecoverability::RetryCurrentGeneration,
            ContentVmErrorCategory::Resource => ContentVmRecoverability::ReduceWorkload,
            ContentVmErrorCategory::Internal => ContentVmRecoverability::DoNotRetry,
        }
    }

    /// Returns the rejected interpreter budget, when it was one.
    pub fn vm_limit(self) -> (limit: Option<ContentVmLimit>)
        ensures
            limit == (match self.context {
                ContentVmLimitContext::Vm(limit) => Some(limit),
                _ => None,
            }),
    {
        match self.context {
            ContentVmLimitContext::Vm(limit) => Some(limit),
            _ => None,
        }
    }

    /// Returns the rejected path or dash budget, when it was one.
    pub fn graphics_limit(self) -> (limit: Option<ContentGraphicsLimit>)
        ensures
            limit == (match self.context {
                ContentVmLimitContext::Graphics(limit) => Some(limit),
                _ => None,
            }),
    {
        match self.context {
            ContentVmLimitContext::Graphics(limit) => Some(limit),
            _ => None,
        }
    }

    /// Returns the rejected image budget, when it was one.
    pub fn image_limit(self) -> (limit: Option<ContentImageLimit>)
        ensures
            limit == (match self.context {
                ContentVmLimitContext::Image(limit) => Some(limit),
                _ => None,
            }),
    {
        match self.context {
            ContentVmLimitContext::Image(limit) => Some(limit),
            _ => None,
        }
    }

    /// Returns the rejected font budget, when it was one.
    pub fn font_limit(self) -> (limit: Option<ContentFontLimit>)
        ensures
            limit == (match self.context {
                ContentVmLimitContext::Font(limit) => Some(limit),
                _ => None,
            }),
    {
        match self.context {
            ContentVmLimitContext::Font(limit) => Some(limit),
            _ => None,
        }
    }
}

/// Creates the failure of one operator.
pub(crate) fn vm_error(code: ContentVmErrorCode, source: ContentOperatorSource) -> (error:
    ContentVmError)
    ensures
        error == operator_failure(code, source),
{
    ContentVmError::new(code, Some(source))
}

/// Failure of the scene layer, carried through as a value.
#[derive(Clone, Copy, Debug, PartialEq, Eq, Structural)]
pub enum SceneError {
    /// A fixed-point result does not fit.
    NumericOverflow,
    /// The allocator refused what a resource needs.
    Allocation,
    /// Any other failure, by its code.
    Other(u32),
}

/// Failure of the document layer, carried through as a value.
#[derive(Clone, Copy, Debug, PartialEq, Eq, Structural)]
pub struct DocumentError {
    /// Stable code of the failure.
    pub code: u32,
    /// Whether the failure names a valid feature outside the supported profile.
    pub unsupported: bool,
}

/// Terminal lower-layer or interpreter failure.
#[derive(Clone, Copy, Debug, PartialEq, Eq, Structural)]
pub enum ContentVmFailure {
    /// The scanner failed.
    Content(ContentError),
    /// The document layer failed.
    Document(DocumentError),
    /// The scene layer failed.
    Scene(SceneError),
    /// The interpreter failed.
    Vm(ContentVmError),
}

/// Why an image is outside the supported profile.
#[derive(Clone, Copy, Debug, PartialEq, Eq, Structural)]
pub enum ImageUnsupported {
    /// The object is no image.
    NonImageXObject,
    /// Any other reason, by its code.
    Other(u32),
}

/// Validated feature outside the interpreter's profile.
#[derive(Clone, Copy, Debug, PartialEq, Eq, Structural)]
pub enum ContentUnsupportedKind {
    /// A lexically valid operator that is not in the table.
    UnknownOperator,
    /// The operator needs the graphics-capable profile.
    GraphicsV2Operator,
    /// Text needs a font profile.
    FontProfileRequired,
    /// External objects need an image profile.
    ImageProfileRequired,
    /// External graphics states need a profile.
    ExtGStateProfileRequired,
    /// The external graphics state is not registered.
    ExtGStateResource,
    /// A marked-content point.
    MarkedContentPoint,
    /// A marked-content point with properties.
    MarkedContentPointProperties,
    /// A direct property dictionary.
    DirectContentPropertyDictionary,
    /// A text rendering mode other than fill.
    TextRenderMode,
    /// Text outside printable ASCII.
    TextEncoding,
    /// The property lookup met an unsupported feature.
    PropertyResource(u32),
    /// The image is unsupported.
    ImageResource(ImageUnsupported),
    /// The font is unsupported.
    FontResource(u32),
    /// The form is unsupported.
    FormResource(u32),
}

/// One unsupported outcome with its operator.
#[derive(Clone, Copy, Debug, PartialEq, Eq, Structural)]
pub struct ContentUnsupported {
    pub kind: ContentUnsupportedKind,
    pub source: ContentOperatorSource,
}

impl ContentUnsupported {
    /// Creates an unsupported outcome.
    pub fn new(kind: ContentUnsupportedKind, source: ContentOperatorSource) -> (outcome: Self)
        ensures
            outcome == (ContentUnsupported { kind, source }),
    {
        Self { kind, source }
    }

    /// The unsupported outcome that a document failure stands for, if it does.
    pub fn from_document(error: DocumentError, source: ContentOperatorSource) -> (outcome: Option<
        Self,
    >)
        ensures
            outcome == (if error.unsupported {
                Some(
                    ContentUnsupported {
                        kind: ContentUnsupportedKind::PropertyResource(error.code),
                        source,
                    },
                )
            } else {
                None
            }),
    {
        if error.unsupported {
            Some(Self { kind: ContentUnsupportedKind::PropertyResource(error.code), source })
        } else {
            None
        }
    }

    /// Returns the unsupported feature.
    pub fn kind(self) -> (kind: ContentUnsupportedKind)
        ensures
            kind == self.kind,
    {
        self.kind
    }

    /// Returns the operator.
    pub fn source(self) -> (source: ContentOperatorSource)
        ensures
            source == self.source,
    {
        self.source
    }
}

} // verus!
