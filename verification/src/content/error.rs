//! Structured content-scanner failures.

use vstd::prelude::*;

use crate::content::model::ContentPosition;

verus! {

/// Deterministic scanner budget that rejected work or publication.
#[derive(Clone, Copy, Debug, PartialEq, Eq, Structural)]
pub enum ContentLimitKind {
    /// Ordered decoded streams.
    Streams,
    /// Aggregate decoded bytes.
    TotalDecodedBytes,
    /// Lexical tokens.
    Tokens,
    /// Raw bytes in one lexical token.
    TokenBytes,
    /// Top-level operands preceding one operator.
    OperandsPerOperator,
    /// Nested array/dictionary depth.
    NestingDepth,
    /// Published operators.
    Operators,
    /// Deterministic scanner work units.
    Fuel,
    /// Allocator-reported owned capacity.
    RetainedBytes,
    /// A fallible allocation failed inside validated limits.
    Allocation,
}

/// Structured limit context that never retains document bytes.
#[derive(Clone, Copy, Debug, PartialEq, Eq, Structural)]
pub struct ContentLimit {
    pub kind: ContentLimitKind,
    pub limit: u64,
    pub consumed: u64,
    pub attempted: u64,
}

impl ContentLimit {
    /// Creates a limit context.
    pub fn new(kind: ContentLimitKind, limit: u64, consumed: u64, attempted: u64) -> (context: Self)
        ensures
            context == (ContentLimit { kind, limit, consumed, attempted }),
    {
        Self { kind, limit, consumed, attempted }
    }

    /// Returns the rejected budget dimension.
    pub fn kind(self) -> (kind: ContentLimitKind)
        ensures
            kind == self.kind,
    {
        self.kind
    }

    /// Returns the configured ceiling.
    pub fn limit(self) -> (limit: u64)
        ensures
            limit == self.limit,
    {
        self.limit
    }

    /// Returns the charged amount before the rejected operation.
    pub fn consumed(self) -> (consumed: u64)
        ensures
            consumed == self.consumed,
    {
        self.consumed
    }

    /// Returns the additional amount or complete amount that was rejected.
    pub fn attempted(self) -> (attempted: u64)
        ensures
            attempted == self.attempted,
    {
        self.attempted
    }
}

/// Stable machine-readable content-scanner failure.
#[derive(Clone, Copy, Debug, PartialEq, Eq, Structural)]
pub enum ContentErrorCode {
    /// Configured limits are zero or exceed fixed hard ceilings.
    InvalidLimits,
    /// Stream ordinals are not the exact zero-based input order.
    InvalidStreamOrder,
    /// A lexical token or direct operand has invalid syntax.
    MalformedToken,
    /// A literal or hexadecimal string reaches its stream boundary unterminated.
    UnterminatedString,
    /// Array or dictionary delimiters are mismatched or unclosed.
    MismatchedDelimiter,
    /// A number is invalid or outside the supported integer range.
    InvalidNumber,
    /// A name contains an incomplete or non-hexadecimal escape.
    InvalidNameEscape,
    /// A hexadecimal string contains a non-hexadecimal byte.
    InvalidHexString,
    /// A dictionary key is not a PDF name.
    InvalidDictionaryKey,
    /// Top-level operands remain after the final stream without an operator.
    DanglingOperands,
    /// Cooperative cancellation was observed before atomic publication.
    Cancelled,
    /// A deterministic resource budget was exceeded.
    ResourceLimit,
    /// Checked internal scanner state could not be maintained.
    InternalState,
}

/// Coarse content-scanner error policy category.
#[derive(Clone, Copy, Debug, PartialEq, Eq, Structural)]
pub enum ContentErrorCategory {
    /// Invalid caller configuration.
    Configuration,
    /// Malformed ordered input metadata.
    Input,
    /// Malformed PDF content syntax.
    Malformed,
    /// Cooperative cancellation.
    Cancellation,
    /// Deterministic resource exhaustion.
    Resource,
    /// Internal implementation invariant failure.
    Internal,
}

/// Stable recovery policy for a scanner failure.
#[derive(Clone, Copy, Debug, PartialEq, Eq, Structural)]
pub enum ContentRecoverability {
    /// Correct the configured limits before retrying.
    CorrectConfiguration,
    /// Correct stream metadata or malformed decoded bytes.
    CorrectInput,
    /// Retry only under a current generation if still useful.
    RetryCurrentGeneration,
    /// Reduce work or use an approved larger budget.
    ReduceWorkload,
    /// Repeating the same operation is not an approved recovery action.
    DoNotRetry,
}

/// The policy category of a code.
pub open spec fn content_category_of(code: ContentErrorCode) -> ContentErrorCategory {
    match code {
        ContentErrorCode::InvalidLimits => ContentErrorCategory::Configuration,
        ContentErrorCode::InvalidStreamOrder => ContentErrorCategory::Input,
        ContentErrorCode::Cancelled => ContentErrorCategory::Cancellation,
        ContentErrorCode::ResourceLimit => ContentErrorCategory::Resource,
        ContentErrorCode::InternalState => ContentErrorCategory::Internal,
        _ => ContentErrorCategory::Malformed,
    }
}

/// The recovery policy of a category.
pub open spec fn content_recovery_of(category: ContentErrorCategory) -> ContentRecoverability {
    match category {
        ContentErrorCategory::Configuration => ContentRecoverability::CorrectConfiguration,
        ContentErrorCategory::Input | ContentErrorCategory::Malformed =>
            ContentRecoverability::CorrectInput,
        ContentErrorCategory::Cancellation => ContentRecoverability::RetryCurrentGeneration,
        ContentErrorCategory::Resource => ContentRecoverability::ReduceWorkload,
        ContentErrorCategory::Internal => ContentRecoverability::DoNotRetry,
    }
}

/// The stable diagnostic identifier of a code.
pub open spec fn content_diagnostic_of(code: ContentErrorCode) -> Seq<char> {
    match code {
        ContentErrorCode::InvalidLimits => "RPE-CONTENT-0001"@,
        ContentErrorCode::InvalidStreamOrder => "RPE-CONTENT-0002"@,
        ContentErrorCode::MalformedToken => "RPE-CONTENT-0003"@,
        ContentErrorCode::UnterminatedString => "RPE-CONTENT-0004"@,
        ContentErrorCode::MismatchedDelimiter => "RPE-CONTENT-0005"@,
        ContentErrorCode::InvalidNumber => "RPE-CONTENT-0006"@,
        ContentErrorCode::InvalidNameEscape => "RPE-CONTENT-0007"@,
        ContentErrorCode::InvalidHexString => "RPE-CONTENT-0008"@,
        ContentErrorCode::InvalidDictionaryKey => "RPE-CONTENT-0009"@,
        ContentErrorCode::DanglingOperands => "RPE-CONTENT-0010"@,
        ContentErrorCode::Cancelled => "RPE-CONTENT-0011"@,
        ContentErrorCode::ResourceLimit => "RPE-CONTENT-0012"@,
        ContentErrorCode::InternalState => "RPE-CONTENT-0013"@,
    }
}

/// Content-redacted structured scanner error.
///
/// The category, the recovery policy and the diagnostic identifier are functions of the code.
#[derive(Clone, Copy, Debug, PartialEq, Eq, Structural)]
pub struct ContentError {
    pub code: ContentErrorCode,
    pub position: Option<ContentPosition>,
    pub limit: Option<ContentLimit>,
}

/// The failure that carries `code` and no limit context.
pub open spec fn content_failure(
    code: ContentErrorCode,
    position: Option<ContentPosition>,
) -> ContentError {
    ContentError { code, position, limit: None }
}

/// The resource failure that reports `attempted` beyond `consumed` against `limit`.
pub open spec fn content_resource(
    kind: ContentLimitKind,
    limit: u64,
    consumed: u64,
    attempted: u64,
    position: Option<ContentPosition>,
) -> ContentError {
    ContentError {
        code: ContentErrorCode::ResourceLimit,
        position,
        limit: Some(ContentLimit { kind, limit, consumed, attempted }),
    }
}

impl ContentError {
    /// Constructs the failure of one code, without limit context.
    pub(crate) fn for_code(code: ContentErrorCode, position: Option<ContentPosition>) -> (error:
        Self)
        ensures
            error == content_failure(code, position),
    {
        Self { code, position, limit: None }
    }

    /// Constructs a resource failure with its limit context.
    pub(crate) fn resource(
        kind: ContentLimitKind,
        limit: u64,
        consumed: u64,
        attempted: u64,
        position: Option<ContentPosition>,
    ) -> (error: Self)
        ensures
            error == content_resource(kind, limit, consumed, attempted, position),
    {
        Self {
            code: ContentErrorCode::ResourceLimit,
            position,
            limit: Some(ContentLimit::new(kind, limit, consumed, attempted)),
        }
    }

    /// Returns the stable machine-readable error code.
    pub fn code(self) -> (code: ContentErrorCode)
        ensures
            code == self.code,
    {
        self.code
    }

    /// Returns the coarse policy category.
    pub fn category(self) -> (category: ContentErrorCategory)
        ensures
            category == content_category_of(self.code),
    {
        match self.code {
            ContentErrorCode::InvalidLimits => ContentErrorCategory::Configuration,
            ContentErrorCode::InvalidStreamOrder => ContentErrorCategory::Input,
            ContentErrorCode::MalformedToken => ContentErrorCategory::Malformed,
            ContentErrorCode::UnterminatedString => ContentErrorCategory::Malformed,
            ContentErrorCode::MismatchedDelimiter => ContentErrorCategory::Malformed,
            ContentErrorCode::InvalidNumber => ContentErrorCategory::Malformed,
            ContentErrorCode::InvalidNameEscape => ContentErrorCategory::Malformed,
            ContentErrorCode::InvalidHexString => ContentErrorCategory::Malformed,
            ContentErrorCode::InvalidDictionaryKey => ContentErrorCategory::Malformed,
            ContentErrorCode::DanglingOperands => ContentErrorCategory::Malformed,
            ContentErrorCode::Cancelled => ContentErrorCategory::Cancellation,
            ContentErrorCode::ResourceLimit => ContentErrorCategory::Resource,
            ContentErrorCode::InternalState => ContentErrorCategory::Internal,
        }
    }

    /// Returns the stable recovery policy.
    pub fn recoverability(self) -> (recoverability: ContentRecoverability)
        ensures
            recoverability == content_recovery_of(content_category_of(self.code)),
    {
        match self.code {
            ContentErrorCode::InvalidLimits => ContentRecoverability::CorrectConfiguration,
            ContentErrorCode::InvalidStreamOrder => ContentRecoverability::CorrectInput,
            ContentErrorCode::MalformedToken => ContentRecoverability::CorrectInput,
            ContentErrorCode::UnterminatedString => ContentRecoverability::CorrectInput,
            ContentErrorCode::MismatchedDelimiter => ContentRecoverability::CorrectInput,
            ContentErrorCode::InvalidNumber => ContentRecoverability::CorrectInput,
            ContentErrorCode::InvalidNameEscape => ContentRecoverability::CorrectInput,
            ContentErrorCode::InvalidHexString => ContentRecoverability::CorrectInput,
            ContentErrorCode::InvalidDictionaryKey => ContentRecoverability::CorrectInput,
            ContentErrorCode::DanglingOperands => ContentRecoverability::CorrectInput,
            ContentErrorCode::Cancelled => ContentRecoverability::RetryCurrentGeneration,
            ContentErrorCode::ResourceLimit => ContentRecoverability::ReduceWorkload,
            ContentErrorCode::InternalState => ContentRecoverability::DoNotRetry,
        }
    }

    /// Returns the stable diagnostic identifier.
    pub fn diagnostic_id(self) -> (id: &'static str)
        ensures
            id@ == content_diagnostic_of(self.code),
    {
        match self.code {
            ContentErrorCode::InvalidLimits => "RPE-CONTENT-0001",
            ContentErrorCode::InvalidStreamOrder => "RPE-CONTENT-0002",
            ContentErrorCode::MalformedToken => "RPE-CONTENT-0003",
            ContentErrorCode::UnterminatedString => "RPE-CONTENT-0004",
            ContentErrorCode::MismatchedDelimiter => "RPE-CONTENT-0005",
            ContentErrorCode::InvalidNumber => "RPE-CONTENT-0006",
            ContentErrorCode::InvalidNameEscape => "RPE-CONTENT-0007",
            ContentErrorCode::InvalidHexString => "RPE-CONTENT-0008",
            ContentErrorCode::InvalidDictionaryKey => "RPE-CONTENT-0009",
            ContentErrorCode::DanglingOperands => "RPE-CONTENT-0010",
            ContentErrorCode::Cancelled => "RPE-CONTENT-0011",
            ContentErrorCode::ResourceLimit => "RPE-CONTENT-0012",
            ContentErrorCode::InternalState => "RPE-CONTENT-0013",
        }
    }

    /// Returns the decoded coordinate where failure was detected.
    pub fn position(self) -> (position: Option<ContentPosition>)
        ensures
            position == self.position,
    {
        self.position
    }

    /// Returns structured resource context for a budget failure.
    pub fn limit(self) -> (limit: Option<ContentLimit>)
        ensures
            limit == self.limit,
    {
        self.limit
    }
}

/// Diagnostic identifiers are stable names: two codes with the same identifier are the same code.
pub proof fn content_diagnostics_are_distinct(left: ContentErrorCode, right: ContentErrorCode)
    requires
        content_diagnostic_of(left) == content_diagnostic_of(right),
    ensures
        left == right,
{
    reveal_strlit("RPE-CONTENT-0001");
    reveal_strlit("RPE-CONTENT-0002");
    reveal_strlit("RPE-CONTENT-0003");
    reveal_strlit("RPE-CONTENT-0004");
    reveal_strlit("RPE-CONTENT-0005");
    reveal_strlit("RPE-CONTENT-0006");
    reveal_strlit("RPE-CONTENT-0007");
    reveal_strlit("RPE-CONTENT-0008");
    reveal_strlit("RPE-CONTENT-0009");
    reveal_strlit("RPE-CONTENT-0010");
    reveal_strlit("RPE-CONTENT-0011");
    reveal_strlit("RPE-CONTENT-0012");
    reveal_strlit("RPE-CONTENT-0013");
    let l = content_diagnostic_of(left);
    let r = content_diagnostic_of(right);
    assert(l[14] == r[14] && l[15] == r[15]);
}

} // verus!
