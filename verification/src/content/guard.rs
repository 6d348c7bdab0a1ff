//! Source and cancellation guards around interpretation.

use vstd::prelude::*;

use crate::bytes::model::{ByteSource, SourceSnapshot};
use crate::content::model::ContentOperatorSource;
use crate::content::scanner::{ContentCancellation, NeverCancelled};
use crate::content::vm_error::{
    vm_failure_of, ContentUnsupported, ContentVmError, ContentVmErrorCode, ContentVmFailure,
};

verus! {

/// What a guard finds: a source that left its snapshot, before or after cancellation was probed,
/// comes first.
pub open spec fn guard_of(
    bound: SourceSnapshot,
    before: SourceSnapshot,
    cancelled: bool,
    after: SourceSnapshot,
    operator: Option<ContentOperatorSource>,
) -> Result<(), ContentVmError> {
    if before != bound || after != bound {
        Err(vm_failure_of(ContentVmErrorCode::SourceSnapshotMismatch, operator))
    } else if cancelled {
        Err(vm_failure_of(ContentVmErrorCode::Cancelled, operator))
    } else {
        Ok(())
    }
}

/// Decides what a guard finds.
pub fn guard_verdict(
    bound: SourceSnapshot,
    before: SourceSnapshot,
    cancelled: bool,
    after: SourceSnapshot,
    operator: Option<ContentOperatorSource>,
) -> (verdict: Result<(), ContentVmError>)
    ensures
        verdict == guard_of(bound, before, cancelled, after, operator),
{
    if before != bound || after != bound {
        return Err(ContentVmError::new(ContentVmErrorCode::SourceSnapshotMismatch, operator));
    }
    if cancelled {
        return Err(ContentVmError::new(ContentVmErrorCode::Cancelled, operator));
    }
    Ok(())
}

/// What the source and the cancellation of a guard may answer when they are asked.
pub struct GuardView {
    /// The snapshot that the run is bound to.
    pub snapshot: SourceSnapshot,
    /// The snapshots that the source may report.
    pub snapshots: Set<SourceSnapshot>,
    /// Whether the cancellation may report that it was asked for.
    pub cancelled: bool,
    /// Whether the cancellation may report that it was not asked for.
    pub uncancelled: bool,
}

impl GuardView {
    /// The same source and cancellation, bound to another snapshot.
    pub open spec fn at(self, snapshot: SourceSnapshot) -> GuardView {
        GuardView { snapshot, ..self }
    }

    /// Whether the source may report that it still has its snapshot.
    pub open spec fn fresh(self) -> bool {
        self.snapshots.contains(self.snapshot)
    }

    /// Whether the source may report that it left its snapshot.
    pub open spec fn stale(self) -> bool {
        exists|seen: SourceSnapshot| #[trigger]
            self.snapshots.contains(seen) && seen != self.snapshot
    }

    /// Whether a guard may let a run go on: the source has its snapshot, and nobody cancelled.
    pub open spec fn clear(self) -> bool {
        self.fresh() && self.uncancelled
    }
}

/// What a source and a cancellation may answer.
pub open spec fn guard_view<S: ByteSource, C: ContentCancellation>(
    snapshot: SourceSnapshot,
    source: &S,
    cancellation: &C,
) -> GuardView {
    GuardView {
        snapshot,
        snapshots: Set::new(|seen: SourceSnapshot| call_ensures(S::snapshot, (source,), seen)),
        cancelled: call_ensures(C::is_cancelled, (cancellation,), true),
        uncancelled: call_ensures(C::is_cancelled, (cancellation,), false),
    }
}

/// What a guard may answer that nobody asks: nothing.
pub open spec fn no_guard() -> GuardView {
    GuardView {
        snapshot: arbitrary(),
        snapshots: Set::empty(),
        cancelled: false,
        uncancelled: false,
    }
}

/// Whether an error is one that a guard reports for an operator: its source may have left the
/// snapshot, or its cancellation may have been asked for while the source had it.
pub open spec fn is_guard_failure(
    error: ContentVmError,
    operator: Option<ContentOperatorSource>,
    guard: GuardView,
) -> bool {
    ||| guard.stale() && error == vm_failure_of(
        ContentVmErrorCode::SourceSnapshotMismatch,
        operator,
    )
    ||| guard.cancelled && guard.fresh() && error == vm_failure_of(
        ContentVmErrorCode::Cancelled,
        operator,
    )
}

/// Checks that the source still has its snapshot and that nobody cancelled. What the source and
/// the cancellation answer is theirs to say; both are asked before a run goes on.
pub fn runtime_guard<S: ByteSource, C: ContentCancellation>(
    snapshot: SourceSnapshot,
    source: &S,
    cancellation: &C,
    operator: Option<ContentOperatorSource>,
) -> (result: Result<(), ContentVmError>)
    ensures
        match result {
            Ok(_) => guard_view(snapshot, source, cancellation).clear(),
            Err(error) => is_guard_failure(
                error,
                operator,
                guard_view(snapshot, source, cancellation),
            ),
        },
{
    let ghost view = guard_view(snapshot, source, cancellation);
    let before = source.snapshot();
    assert(view.snapshots.contains(before));
    if before != snapshot {
        return guard_verdict(snapshot, before, false, before, operator);
    }
    let cancelled = cancellation.is_cancelled();
    let after = source.snapshot();
    assert(view.snapshots.contains(after));
    guard_verdict(snapshot, before, cancelled, after, operator)
}

/// Why planning or execution stopped for good.
#[derive(Clone, Copy, Debug, PartialEq, Eq, Structural)]
pub enum RunStop {
    /// Validated feature outside the profile.
    Unsupported(ContentUnsupported),
    /// Terminal failure.
    Failed(ContentVmFailure),
}

/// The stop of an interpreter failure.
pub open spec fn vm_stop(error: ContentVmError) -> RunStop {
    RunStop::Failed(ContentVmFailure::Vm(error))
}

/// Whether a stop is one that a guard reports.
pub open spec fn is_guard_stop(
    stop: RunStop,
    operator: Option<ContentOperatorSource>,
    guard: GuardView,
) -> bool {
    stop matches RunStop::Failed(ContentVmFailure::Vm(error)) && is_guard_failure(
        error,
        operator,
        guard,
    )
}

/// Whether memory decided a stop.
pub open spec fn is_memory_stop(stop: RunStop) -> bool {
    stop matches RunStop::Failed(ContentVmFailure::Vm(error)) && error.is_memory_failure()
}

/// Whether fuel ran out: of a budget of `ceiling` units `fuel` were charged before, and at most
/// `most` more were to be charged.
pub open spec fn is_fuel_stop(stop: RunStop, ceiling: u64, fuel: u64, most: int) -> bool {
    stop matches RunStop::Failed(ContentVmFailure::Vm(error)) && error.is_fuel_failure(
        ceiling,
        fuel,
        most,
    )
}

/// The stop that is reported, given what the guard found: the guard comes before any other.
pub open spec fn prioritized(verdict: Result<(), ContentVmError>, fallback: RunStop) -> RunStop {
    match verdict {
        Ok(_) => fallback,
        Err(error) => vm_stop(error),
    }
}

/// Decides which stop is reported.
pub fn prioritized_stop(verdict: Result<(), ContentVmError>, fallback: RunStop) -> (stop: RunStop)
    ensures
        stop == prioritized(verdict, fallback),
{
    match verdict {
        Ok(_) => fallback,
        Err(error) => RunStop::Failed(ContentVmFailure::Vm(error)),
    }
}

/// The guard of one run: the snapshot that it is bound to, and whom to ask.
pub struct RuntimeGuard<'a, S: ByteSource, C: ContentCancellation> {
    pub snapshot: SourceSnapshot,
    pub source: &'a S,
    pub cancellation: &'a C,
}

impl<'a, S: ByteSource, C: ContentCancellation> View for RuntimeGuard<'a, S, C> {
    type V = GuardView;

    open spec fn view(&self) -> GuardView {
        guard_view(self.snapshot, self.source, self.cancellation)
    }
}

impl<'a, S: ByteSource, C: ContentCancellation> RuntimeGuard<'a, S, C> {
    /// Checks the source and the cancellation.
    pub fn check(&self, operator: Option<ContentOperatorSource>) -> (result: Result<
        (),
        ContentVmError,
    >)
        ensures
            match result {
                Ok(_) => self@.clear(),
                Err(error) => is_guard_failure(error, operator, self@),
            },
    {
        runtime_guard(self.snapshot, self.source, self.cancellation, operator)
    }

    /// Checks the source and the cancellation, and reports a failure as a stop.
    pub fn probe(&self, operator: Option<ContentOperatorSource>) -> (result: Result<(), RunStop>)
        ensures
            match result {
                Ok(_) => self@.clear(),
                Err(stop) => is_guard_stop(stop, operator, self@),
            },
    {
        match self.check(operator) {
            Ok(_) => Ok(()),
            Err(error) => Err(RunStop::Failed(ContentVmFailure::Vm(error))),
        }
    }

    /// Reports a stop, unless the guard fails first.
    pub fn prioritize(&self, operator: Option<ContentOperatorSource>, fallback: RunStop) -> (stop:
        RunStop)
        ensures
            stop == fallback && self@.clear() || is_guard_stop(stop, operator, self@),
    {
        prioritized_stop(self.check(operator), fallback)
    }
}

/// A cancellation that never stops is never what a guard reports.
pub proof fn never_cancelled_never_stops<S: ByteSource>(
    snapshot: SourceSnapshot,
    source: &S,
    cancellation: &NeverCancelled,
    operator: Option<ContentOperatorSource>,
)
    ensures
        !call_ensures(NeverCancelled::is_cancelled, (cancellation,), true),
        !is_guard_failure(
            vm_failure_of(ContentVmErrorCode::Cancelled, operator),
            operator,
            guard_view(snapshot, source, cancellation),
        ),
{
}

/// A source that changed outranks cancellation, and both outrank whatever else stopped the run.
pub proof fn guards_take_precedence(
    bound: SourceSnapshot,
    before: SourceSnapshot,
    cancelled: bool,
    after: SourceSnapshot,
    operator: Option<ContentOperatorSource>,
    fallback: RunStop,
)
    ensures
        before != bound || after != bound ==> prioritized(
            guard_of(bound, before, cancelled, after, operator),
            fallback,
        ) == vm_stop(vm_failure_of(ContentVmErrorCode::SourceSnapshotMismatch, operator)),
        before == bound && after == bound && cancelled ==> prioritized(
            guard_of(bound, before, cancelled, after, operator),
            fallback,
        ) == vm_stop(vm_failure_of(ContentVmErrorCode::Cancelled, operator)),
        before == bound && after == bound && !cancelled ==> prioritized(
            guard_of(bound, before, cancelled, after, operator),
            fallback,
        ) == fallback,
{
}

} // verus!
