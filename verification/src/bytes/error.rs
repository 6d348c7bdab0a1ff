use vstd::prelude::*;

verus! {

/// Deterministic byte-layer budget that rejected an operation.
#[derive(Clone, Copy, Debug, PartialEq, Eq, Structural)]
pub enum SourceLimitKind {
    /// Immutable source total length.
    InputBytes,
    /// One exact request or supplied response range.
    ReadBytes,
    /// Unique bytes retained by the store.
    CachedBytes,
    /// Peak retained plus in-flight/coalescing bytes owned by the store operation.
    ResidentBytes,
    /// Disjoint cached backing segments.
    Segments,
    /// Pending and retained terminal data tickets.
    Tickets,
    /// Job/checkpoint subscriptions on one ticket.
    TicketSubscribers,
    /// Job/checkpoint subscriptions across the store.
    TotalSubscriptions,
    /// Disjoint missing ranges emitted for one ticket.
    MissingRanges,
    /// Fallible allocation for bounded metadata or bytes.
    Allocation,
}

/// Structured resource-limit context without source content or host paths.
#[derive(Clone, Copy, Debug, PartialEq, Eq, Structural)]
pub struct SourceLimit {
    pub(crate) kind: SourceLimitKind,
    pub(crate) limit: u64,
    pub(crate) attempted: u64,
}

impl SourceLimit {
    /// The budget dimension, as a value.
    pub closed spec fn spec_kind(self) -> SourceLimitKind {
        self.kind
    }

    /// The configured ceiling, as a value.
    pub closed spec fn spec_limit(self) -> u64 {
        self.limit
    }

    /// The rejected total, as a value.
    pub closed spec fn spec_attempted(self) -> u64 {
        self.attempted
    }

    pub(crate) fn new(kind: SourceLimitKind, limit: u64, attempted: u64) -> (context: Self)
        ensures
            context.spec_kind() == kind,
            context.spec_limit() == limit,
            context.spec_attempted() == attempted,
    {
        Self { kind, limit, attempted }
    }

    /// Returns the budget dimension that was exceeded.
    pub fn kind(self) -> (kind: SourceLimitKind)
        ensures
            kind == self.spec_kind(),
    {
        self.kind
    }

    /// Returns the configured deterministic ceiling.
    pub fn limit(self) -> (limit: u64)
        ensures
            limit == self.spec_limit(),
    {
        self.limit
    }

    /// Returns the rejected count or byte total.
    pub fn attempted(self) -> (attempted: u64)
        ensures
            attempted == self.spec_attempted(),
    {
        self.attempted
    }
}

/// Stable machine-readable failures produced by the byte layer.
#[derive(Clone, Copy, Debug, PartialEq, Eq, Structural)]
pub enum SourceErrorCode {
    /// A range has zero length or its exclusive end overflows `u64`.
    InvalidRange,
    /// Configured range-store limits are zero, inconsistent, or above hard ceilings.
    InvalidLimits,
    /// Response bytes do not exactly match the declared byte range length.
    ResponseLengthMismatch,
    /// A response extends beyond the immutable known source length.
    ResponseOutOfBounds,
    /// Response identity or validator differs from the bound snapshot.
    SourceChanged,
    /// Overlapping responses for one snapshot contain different bytes.
    ConflictingBytes,
    /// A configured deterministic byte, segment, ticket, or subscriber budget was reached.
    ResourceLimit,
    /// The requested data ticket is not retained by this store.
    UnknownTicket,
    /// A terminal ticket was asked to transition again.
    TicketAlreadyTerminal,
    /// A pending ticket was asked to be released as a retained terminal record.
    TicketNotTerminal,
    /// One job tried to attach two different checkpoints to the same pending ticket.
    CheckpointConflict,
    /// A terminal ticket still owns subscriptions that runtime has not taken.
    SubscriptionsNotTaken,
    /// The host source operation failed without changing snapshot identity.
    SourceUnavailable,
    /// Internal synchronization state could not be accessed safely.
    InternalState,
}

/// Coarse policy category for [`SourceErrorCode`].
#[derive(Clone, Copy, Debug, PartialEq, Eq, Structural)]
pub enum SourceErrorCategory {
    /// Caller-supplied range, limit, response geometry, or handle is invalid.
    Input,
    /// Immutable source identity or byte integrity no longer holds.
    Integrity,
    /// A deterministic resource budget was exhausted.
    Resource,
    /// A ticket lifecycle transition is invalid.
    Lifecycle,
    /// The bound source is temporarily unavailable without an integrity change.
    Availability,
    /// The implementation cannot safely continue from internal state.
    Internal,
}

/// Stable recovery policy for byte-layer failures.
#[derive(Clone, Copy, Debug, PartialEq, Eq, Structural)]
pub enum SourceRecoverability {
    /// Correct the request, response, limits, or ticket handle.
    CorrectInput,
    /// Reopen the document against a newly bound immutable source snapshot.
    ReopenSource,
    /// Reduce requested work or increase an approved deterministic budget.
    ReduceWorkload,
    /// Retry through host policy while preserving the same immutable snapshot.
    RetrySource,
    /// Repeating the same operation is not an approved recovery action.
    DoNotRetry,
}

/// The policy category of a code.
pub open spec fn source_category_of(code: SourceErrorCode) -> SourceErrorCategory {
    match code {
        SourceErrorCode::InvalidRange => SourceErrorCategory::Input,
        SourceErrorCode::InvalidLimits => SourceErrorCategory::Input,
        SourceErrorCode::ResponseLengthMismatch => SourceErrorCategory::Input,
        SourceErrorCode::ResponseOutOfBounds => SourceErrorCategory::Input,
        SourceErrorCode::SourceChanged => SourceErrorCategory::Integrity,
        SourceErrorCode::ConflictingBytes => SourceErrorCategory::Integrity,
        SourceErrorCode::ResourceLimit => SourceErrorCategory::Resource,
        SourceErrorCode::UnknownTicket => SourceErrorCategory::Input,
        SourceErrorCode::TicketAlreadyTerminal => SourceErrorCategory::Lifecycle,
        SourceErrorCode::TicketNotTerminal => SourceErrorCategory::Lifecycle,
        SourceErrorCode::CheckpointConflict => SourceErrorCategory::Lifecycle,
        SourceErrorCode::SubscriptionsNotTaken => SourceErrorCategory::Lifecycle,
        SourceErrorCode::SourceUnavailable => SourceErrorCategory::Availability,
        SourceErrorCode::InternalState => SourceErrorCategory::Internal,
    }
}

/// The recovery policy of a category.
pub open spec fn source_recovery_of(code: SourceErrorCode) -> SourceRecoverability {
    match code {
        SourceErrorCode::SourceChanged | SourceErrorCode::ConflictingBytes =>
            SourceRecoverability::ReopenSource,
        SourceErrorCode::ResourceLimit => SourceRecoverability::ReduceWorkload,
        SourceErrorCode::SourceUnavailable => SourceRecoverability::RetrySource,
        SourceErrorCode::InternalState => SourceRecoverability::DoNotRetry,
        _ => SourceRecoverability::CorrectInput,
    }
}

/// The stable diagnostic identifier of a code.
pub open spec fn source_diagnostic_of(code: SourceErrorCode) -> Seq<char> {
    match code {
        SourceErrorCode::InvalidRange => "RPE-BYTES-0001"@,
        SourceErrorCode::InvalidLimits => "RPE-BYTES-0002"@,
        SourceErrorCode::ResponseLengthMismatch => "RPE-BYTES-0003"@,
        SourceErrorCode::ResponseOutOfBounds => "RPE-BYTES-0004"@,
        SourceErrorCode::SourceChanged => "RPE-BYTES-0005"@,
        SourceErrorCode::ConflictingBytes => "RPE-BYTES-0006"@,
        SourceErrorCode::ResourceLimit => "RPE-BYTES-0007"@,
        SourceErrorCode::UnknownTicket => "RPE-BYTES-0008"@,
        SourceErrorCode::TicketAlreadyTerminal => "RPE-BYTES-0009"@,
        SourceErrorCode::TicketNotTerminal => "RPE-BYTES-0010"@,
        SourceErrorCode::CheckpointConflict => "RPE-BYTES-0011"@,
        SourceErrorCode::SubscriptionsNotTaken => "RPE-BYTES-0012"@,
        SourceErrorCode::SourceUnavailable => "RPE-BYTES-0013"@,
        SourceErrorCode::InternalState => "RPE-BYTES-0014"@,
    }
}

/// Source-redacted, stable byte-layer failure.
///
/// The category, the recovery policy and the diagnostic identifier are functions of the code.
#[derive(Clone, Copy, Debug, PartialEq, Eq, Structural)]
pub struct SourceError {
    pub(crate) code: SourceErrorCode,
    pub(crate) limit: Option<SourceLimit>,
}

/// The failure that carries `code` and no limit context.
pub closed spec fn source_failure(code: SourceErrorCode) -> SourceError {
    SourceError { code, limit: None }
}

/// The resource failure that reports `attempted` against `limit`.
pub closed spec fn source_resource(
    kind: SourceLimitKind,
    limit: u64,
    attempted: u64,
) -> SourceError {
    SourceError {
        code: SourceErrorCode::ResourceLimit,
        limit: Some(SourceLimit { kind, limit, attempted }),
    }
}

impl SourceError {
    /// Only a resource failure carries a limit context.
    #[verifier::type_invariant]
    pub closed spec fn well_formed(self) -> bool {
        self.limit is Some ==> self.code == SourceErrorCode::ResourceLimit
    }

    /// The failure code, as a value.
    pub closed spec fn spec_code(self) -> SourceErrorCode {
        self.code
    }

    /// The limit context, as a value.
    pub closed spec fn spec_limit(self) -> Option<SourceLimit> {
        self.limit
    }

    /// Constructs a source-redacted host availability failure for ticket completion.
    pub fn source_unavailable() -> (error: Self)
        ensures
            error == source_failure(SourceErrorCode::SourceUnavailable),
    {
        Self::for_code(SourceErrorCode::SourceUnavailable)
    }

    /// Constructs the failure of a caller whose synchronization broke.
    pub fn internal_state() -> (error: Self)
        ensures
            error == source_failure(SourceErrorCode::InternalState),
    {
        Self::for_code(SourceErrorCode::InternalState)
    }

    /// Constructs the failure of one code, without limit context.
    pub(crate) fn for_code(code: SourceErrorCode) -> (error: Self)
        ensures
            error == source_failure(code),
            error.spec_code() == code,
            error.spec_limit() is None,
    {
        Self { code, limit: None }
    }

    /// Constructs a resource failure with its limit context.
    pub(crate) fn resource(kind: SourceLimitKind, limit: u64, attempted: u64) -> (error: Self)
        ensures
            error == source_resource(kind, limit, attempted),
            error.spec_code() == SourceErrorCode::ResourceLimit,
            error.spec_limit() matches Some(context) && context.spec_kind() == kind
                && context.spec_limit() == limit && context.spec_attempted() == attempted,
    {
        Self {
            code: SourceErrorCode::ResourceLimit,
            limit: Some(SourceLimit::new(kind, limit, attempted)),
        }
    }

    /// Returns the exact machine-readable failure code.
    pub fn code(self) -> (code: SourceErrorCode)
        ensures
            code == self.spec_code(),
    {
        self.code
    }

    /// Returns the stable coarse failure category.
    pub fn category(self) -> (category: SourceErrorCategory)
        ensures
            category == source_category_of(self.spec_code()),
    {
        match self.code {
            SourceErrorCode::InvalidRange => SourceErrorCategory::Input,
            SourceErrorCode::InvalidLimits => SourceErrorCategory::Input,
            SourceErrorCode::ResponseLengthMismatch => SourceErrorCategory::Input,
            SourceErrorCode::ResponseOutOfBounds => SourceErrorCategory::Input,
            SourceErrorCode::SourceChanged => SourceErrorCategory::Integrity,
            SourceErrorCode::ConflictingBytes => SourceErrorCategory::Integrity,
            SourceErrorCode::ResourceLimit => SourceErrorCategory::Resource,
            SourceErrorCode::UnknownTicket => SourceErrorCategory::Input,
            SourceErrorCode::TicketAlreadyTerminal => SourceErrorCategory::Lifecycle,
            SourceErrorCode::TicketNotTerminal => SourceErrorCategory::Lifecycle,
            SourceErrorCode::CheckpointConflict => SourceErrorCategory::Lifecycle,
            SourceErrorCode::SubscriptionsNotTaken => SourceErrorCategory::Lifecycle,
            SourceErrorCode::SourceUnavailable => SourceErrorCategory::Availability,
            SourceErrorCode::InternalState => SourceErrorCategory::Internal,
        }
    }

    /// Returns the approved recovery policy.
    pub fn recoverability(self) -> (recoverability: SourceRecoverability)
        ensures
            recoverability == source_recovery_of(self.spec_code()),
    {
        match self.code {
            SourceErrorCode::InvalidRange => SourceRecoverability::CorrectInput,
            SourceErrorCode::InvalidLimits => SourceRecoverability::CorrectInput,
            SourceErrorCode::ResponseLengthMismatch => SourceRecoverability::CorrectInput,
            SourceErrorCode::ResponseOutOfBounds => SourceRecoverability::CorrectInput,
            SourceErrorCode::SourceChanged => SourceRecoverability::ReopenSource,
            SourceErrorCode::ConflictingBytes => SourceRecoverability::ReopenSource,
            SourceErrorCode::ResourceLimit => SourceRecoverability::ReduceWorkload,
            SourceErrorCode::UnknownTicket => SourceRecoverability::CorrectInput,
            SourceErrorCode::TicketAlreadyTerminal => SourceRecoverability::CorrectInput,
            SourceErrorCode::TicketNotTerminal => SourceRecoverability::CorrectInput,
            SourceErrorCode::CheckpointConflict => SourceRecoverability::CorrectInput,
            SourceErrorCode::SubscriptionsNotTaken => SourceRecoverability::CorrectInput,
            SourceErrorCode::SourceUnavailable => SourceRecoverability::RetrySource,
            SourceErrorCode::InternalState => SourceRecoverability::DoNotRetry,
        }
    }

    /// Returns the stable project diagnostic identifier.
    pub fn diagnostic_id(self) -> (id: &'static str)
        ensures
            id@ == source_diagnostic_of(self.spec_code()),
    {
        match self.code {
            SourceErrorCode::InvalidRange => "RPE-BYTES-0001",
            SourceErrorCode::InvalidLimits => "RPE-BYTES-0002",
            SourceErrorCode::ResponseLengthMismatch => "RPE-BYTES-0003",
            SourceErrorCode::ResponseOutOfBounds => "RPE-BYTES-0004",
            SourceErrorCode::SourceChanged => "RPE-BYTES-0005",
            SourceErrorCode::ConflictingBytes => "RPE-BYTES-0006",
            SourceErrorCode::ResourceLimit => "RPE-BYTES-0007",
            SourceErrorCode::UnknownTicket => "RPE-BYTES-0008",
            SourceErrorCode::TicketAlreadyTerminal => "RPE-BYTES-0009",
            SourceErrorCode::TicketNotTerminal => "RPE-BYTES-0010",
            SourceErrorCode::CheckpointConflict => "RPE-BYTES-0011",
            SourceErrorCode::SubscriptionsNotTaken => "RPE-BYTES-0012",
            SourceErrorCode::SourceUnavailable => "RPE-BYTES-0013",
            SourceErrorCode::InternalState => "RPE-BYTES-0014",
        }
    }

    /// Returns structured limit context for deterministic resource failures.
    pub fn limit(self) -> (limit: Option<SourceLimit>)
        ensures
            limit == self.spec_limit(),
            limit is Some ==> self.spec_code() == SourceErrorCode::ResourceLimit,
    {
        proof {
            use_type_invariant(self);
        }
        self.limit
    }
}

/// What the two constructors put into a failure.
pub proof fn source_constructors_expose_their_arguments(
    code: SourceErrorCode,
    kind: SourceLimitKind,
    limit: u64,
    attempted: u64,
)
    ensures
        source_failure(code).spec_code() == code,
        source_failure(code).spec_limit() is None,
        source_resource(kind, limit, attempted).spec_code() == SourceErrorCode::ResourceLimit,
        source_resource(kind, limit, attempted).spec_limit() matches Some(context)
            && context.spec_kind() == kind && context.spec_limit() == limit
            && context.spec_attempted() == attempted,
{
}

/// Diagnostic identifiers are stable names: two codes with the same identifier are the same code.
pub proof fn source_diagnostics_are_distinct(left: SourceErrorCode, right: SourceErrorCode)
    requires
        source_diagnostic_of(left) == source_diagnostic_of(right),
    ensures
        left == right,
{
    reveal_strlit("RPE-BYTES-0001");
    reveal_strlit("RPE-BYTES-0002");
    reveal_strlit("RPE-BYTES-0003");
    reveal_strlit("RPE-BYTES-0004");
    reveal_strlit("RPE-BYTES-0005");
    reveal_strlit("RPE-BYTES-0006");
    reveal_strlit("RPE-BYTES-0007");
    reveal_strlit("RPE-BYTES-0008");
    reveal_strlit("RPE-BYTES-0009");
    reveal_strlit("RPE-BYTES-0010");
    reveal_strlit("RPE-BYTES-0011");
    reveal_strlit("RPE-BYTES-0012");
    reveal_strlit("RPE-BYTES-0013");
    reveal_strlit("RPE-BYTES-0014");
    let l = source_diagnostic_of(left);
    let r = source_diagnostic_of(right);
    assert(l[12] == r[12] && l[13] == r[13]);
}

/// Integrity failures, and only they, ask for the source to be reopened.
pub proof fn integrity_failures_reopen_the_source(code: SourceErrorCode)
    ensures
        source_category_of(code) == SourceErrorCategory::Integrity <==> source_recovery_of(code)
            == SourceRecoverability::ReopenSource,
{
}

} // verus!
