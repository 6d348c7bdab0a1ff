//! Planned resources: exact caches of proof-bound fonts and external objects.

use vstd::prelude::*;

use crate::bytes::model::{ByteSource, SourceSnapshot};
use crate::content::accounting::{byte_width, capacity_bytes, retained_sum};
use crate::content::font_limits::{font_preflight, ContentFontLimits};
use crate::content::guard::{guard_view, is_guard_failure, runtime_guard};
use crate::content::image_limits::{image_preflight, ContentImageLimits};
use crate::content::model::{ContentOperatorSource, ObjectRef};
use crate::content::scanner::ContentCancellation;
use crate::content::scene::Matrix;
use crate::content::vm_error::{
    operator_failure, vm_error, vm_failure_of, ContentFontLimit, ContentFontLimitKind,
    ContentImageLimit, ContentImageLimitKind, ContentVmError, ContentVmErrorCode,
};
use crate::memory::{capacity_of, try_reserve_exact};

verus! {

/// Proof of where a resource object comes from. Two uses with one proof share one acquisition.
#[derive(Clone, Copy, Debug, PartialEq, Eq, Hash, Structural)]
pub struct ResourceProof {
    pub snapshot: SourceSnapshot,
    pub target: ObjectRef,
    pub revision_startxref: u64,
}

/// One acquired resource, by the runtime's handle.
#[derive(Clone, Copy, Debug, PartialEq, Eq, Hash, Structural)]
pub enum PlannedResource {
    /// An acquired font.
    Font(u64),
    /// An acquired image.
    Image(u64),
    /// An acquired form.
    Form(u64),
}

/// One use of a resource, in operator order.
#[derive(Clone, Copy, Debug, PartialEq, Eq, Structural)]
pub struct PlannedUse {
    pub source: ContentOperatorSource,
    pub key: ResourceProof,
    pub entry: u32,
    pub transform: Matrix,
}

/// One distinct resource, in order of first use.
#[derive(Clone, Copy, Debug, PartialEq, Eq, Structural)]
pub struct PlannedEntry {
    pub key: ResourceProof,
    pub source: ContentOperatorSource,
    pub resource: Option<PlannedResource>,
}

/// Budgets of one resource class.
#[derive(Clone, Copy, Debug, PartialEq, Eq, Structural)]
pub enum ResourceLimits {
    Font(ContentFontLimits),
    Image(ContentImageLimits),
}

/// Budget dimension that both classes have.
#[derive(Clone, Copy, Debug, PartialEq, Eq, Structural)]
pub enum ResourceBudget {
    Unique,
    CacheProbes,
    PlanRetained,
    PlanAllocation,
    CacheRetained,
    CacheAllocation,
    AcquisitionPolls,
}

/// The font dimension of a budget.
pub open spec fn font_kind_of(budget: ResourceBudget) -> ContentFontLimitKind {
    match budget {
        ResourceBudget::Unique => ContentFontLimitKind::UniqueFonts,
        ResourceBudget::CacheProbes => ContentFontLimitKind::CacheProbes,
        ResourceBudget::PlanRetained => ContentFontLimitKind::PlanRetainedBytes,
        ResourceBudget::PlanAllocation => ContentFontLimitKind::PlanAllocation,
        ResourceBudget::CacheRetained => ContentFontLimitKind::CacheRetainedBytes,
        ResourceBudget::CacheAllocation => ContentFontLimitKind::CacheAllocation,
        ResourceBudget::AcquisitionPolls => ContentFontLimitKind::AcquisitionPolls,
    }
}

/// The image dimension of a budget.
pub open spec fn image_kind_of(budget: ResourceBudget) -> ContentImageLimitKind {
    match budget {
        ResourceBudget::Unique => ContentImageLimitKind::UniqueImages,
        ResourceBudget::CacheProbes => ContentImageLimitKind::CacheProbes,
        ResourceBudget::PlanRetained => ContentImageLimitKind::PlanRetainedBytes,
        ResourceBudget::PlanAllocation => ContentImageLimitKind::PlanAllocation,
        ResourceBudget::CacheRetained => ContentImageLimitKind::CacheRetainedBytes,
        ResourceBudget::CacheAllocation => ContentImageLimitKind::CacheAllocation,
        ResourceBudget::AcquisitionPolls => ContentImageLimitKind::AcquisitionPolls,
    }
}

/// The outcome of holding `attempted` more than `consumed` against a budget.
pub open spec fn resource_preflight(
    limits: ResourceLimits,
    budget: ResourceBudget,
    consumed: u64,
    attempted: u64,
    source: Option<ContentOperatorSource>,
) -> Result<(), ContentVmError> {
    match limits {
        ResourceLimits::Font(limits) => font_preflight(
            limits@,
            font_kind_of(budget),
            consumed,
            attempted,
            source,
        ),
        ResourceLimits::Image(limits) => image_preflight(
            limits@,
            image_kind_of(budget),
            consumed,
            attempted,
            source,
        ),
    }
}

/// The ceiling of a budget.
pub open spec fn ceiling_of(limits: ResourceLimits, budget: ResourceBudget) -> u64 {
    match limits {
        ResourceLimits::Font(limits) => limits@.budget(font_kind_of(budget)),
        ResourceLimits::Image(limits) => limits@.budget(image_kind_of(budget)),
    }
}

impl ResourceLimits {
    /// Holds `attempted` more than `consumed` against a budget.
    pub fn preflight(
        self,
        budget: ResourceBudget,
        consumed: u64,
        attempted: u64,
        source: Option<ContentOperatorSource>,
    ) -> (result: Result<(), ContentVmError>)
        ensures
            result == resource_preflight(self, budget, consumed, attempted, source),
            result is Ok <==> consumed + attempted <= ceiling_of(self, budget),
    {
        match self {
            ResourceLimits::Font(limits) => {
                let kind = match budget {
                    ResourceBudget::Unique => ContentFontLimitKind::UniqueFonts,
                    ResourceBudget::CacheProbes => ContentFontLimitKind::CacheProbes,
                    ResourceBudget::PlanRetained => ContentFontLimitKind::PlanRetainedBytes,
                    ResourceBudget::PlanAllocation => ContentFontLimitKind::PlanAllocation,
                    ResourceBudget::CacheRetained => ContentFontLimitKind::CacheRetainedBytes,
                    ResourceBudget::CacheAllocation => ContentFontLimitKind::CacheAllocation,
                    ResourceBudget::AcquisitionPolls => ContentFontLimitKind::AcquisitionPolls,
                };
                limits.preflight(kind, consumed, attempted, source)
            },
            ResourceLimits::Image(limits) => {
                let kind = match budget {
                    ResourceBudget::Unique => ContentImageLimitKind::UniqueImages,
                    ResourceBudget::CacheProbes => ContentImageLimitKind::CacheProbes,
                    ResourceBudget::PlanRetained => ContentImageLimitKind::PlanRetainedBytes,
                    ResourceBudget::PlanAllocation => ContentImageLimitKind::PlanAllocation,
                    ResourceBudget::CacheRetained => ContentImageLimitKind::CacheRetainedBytes,
                    ResourceBudget::CacheAllocation => ContentImageLimitKind::CacheAllocation,
                    ResourceBudget::AcquisitionPolls => ContentImageLimitKind::AcquisitionPolls,
                };
                limits.preflight(kind, consumed, attempted, source)
            },
        }
    }

    /// The failure of an allocation that the allocator refused.
    fn allocation_error(
        self,
        budget: ResourceBudget,
        consumed: u64,
        attempted: u64,
        source: Option<ContentOperatorSource>,
    ) -> (error: ContentVmError)
        requires
            budget == ResourceBudget::PlanAllocation || budget == ResourceBudget::CacheAllocation,
        ensures
            error.is_memory_failure(),
    {
        match self {
            ResourceLimits::Font(limits) => {
                let (kind, limit): (ContentFontLimitKind, u64) = match budget {
                    ResourceBudget::PlanAllocation => (
                        ContentFontLimitKind::PlanAllocation,
                        limits.max_plan_retained_bytes(),
                    ),
                    _ => (
                        ContentFontLimitKind::CacheAllocation,
                        limits.max_cache_retained_bytes(),
                    ),
                };
                ContentVmError::font_resource(
                    ContentFontLimit::new(kind, limit, consumed, attempted),
                    source,
                )
            },
            ResourceLimits::Image(limits) => {
                let (kind, limit): (ContentImageLimitKind, u64) = match budget {
                    ResourceBudget::PlanAllocation => (
                        ContentImageLimitKind::PlanAllocation,
                        limits.max_plan_retained_bytes(),
                    ),
                    _ => (
                        ContentImageLimitKind::CacheAllocation,
                        limits.max_cache_retained_bytes(),
                    ),
                };
                ContentVmError::image_resource(
                    ContentImageLimit::new(kind, limit, consumed, attempted),
                    source,
                )
            },
        }
    }
}

/// Work charged by one resource plan.
#[derive(Clone, Copy, Debug, PartialEq, Eq, Structural)]
pub struct ResourceStats {
    pub lookups: u64,
    pub cache_probes: u64,
    pub cache_hits: u64,
    pub acquisition_polls: u64,
    pub execution_passes: u64,
    pub plan_retained: u64,
    pub peak_plan_retained: u64,
    pub cache_retained: u64,
    pub peak_cache_retained: u64,
}

/// No work charged.
pub open spec fn no_resource_work() -> ResourceStats {
    ResourceStats {
        lookups: 0,
        cache_probes: 0,
        cache_hits: 0,
        acquisition_polls: 0,
        execution_passes: 0,
        plan_retained: 0,
        peak_plan_retained: 0,
        cache_retained: 0,
        peak_cache_retained: 0,
    }
}

/// Work without the capacity that the allocator reported.
pub open spec fn counted(stats: ResourceStats) -> ResourceStats {
    ResourceStats {
        plan_retained: 0,
        peak_plan_retained: 0,
        cache_retained: 0,
        peak_cache_retained: 0,
        ..stats
    }
}

/// A resource plan.
pub struct ResourceView {
    pub uses: Seq<PlannedUse>,
    pub entries: Seq<PlannedEntry>,
    pub expected_uses: int,
    pub acquisition_cursor: int,
    pub execution_cursor: int,
    pub plan_complete: bool,
    /// What the semantic plan around this one retains, once it is recorded.
    pub recorded_plan: u64,
    pub stats: ResourceStats,
}

/// Whether nothing is planned yet.
pub open spec fn unplanned(view: ResourceView) -> bool {
    &&& !view.plan_complete
    &&& view.recorded_plan == 0
    &&& view.uses.len() == 0
    &&& view.entries.len() == 0
}

/// Whether the retained bytes of statistics cover what a plan holds, and their peaks cover them. How
/// much more the allocator gave is its to say.
pub open spec fn retained_counted(stats: ResourceStats, view: ResourceView) -> bool {
    &&& stats.plan_retained >= view.recorded_plan
    &&& stats.peak_plan_retained >= stats.plan_retained
    &&& stats.peak_plan_retained >= retained_sum(
        (view.uses.len() * vstd::layout::size_of::<PlannedUse>()) as int,
    )
    &&& stats.cache_retained >= retained_sum(
        (view.entries.len() * vstd::layout::size_of::<PlannedEntry>()) as int,
    )
    &&& stats.peak_cache_retained >= stats.cache_retained
}

/// Whether a plan takes further uses.
pub open spec fn accepts_uses(view: ResourceView) -> bool {
    !view.plan_complete && view.uses.len() < view.expected_uses
}

/// The empty plan.
pub open spec fn empty_resources() -> ResourceView {
    ResourceView {
        uses: Seq::empty(),
        entries: Seq::empty(),
        expected_uses: 0,
        acquisition_cursor: 0,
        execution_cursor: 0,
        plan_complete: false,
        recorded_plan: 0,
        stats: no_resource_work(),
    }
}

/// Position of the first entry from `i` on that has a proof.
pub open spec fn entry_index(entries: Seq<PlannedEntry>, key: ResourceProof, i: int) -> int
    decreases entries.len() - i,
{
    if i >= entries.len() || entries[i].key == key {
        i
    } else {
        entry_index(entries, key, i + 1)
    }
}

/// The invariant of a resource plan: entries have distinct proofs, every use refers to the entry of
/// its proof, and what is acquired lies before the cursor.
pub open spec fn resources_ok(view: ResourceView) -> bool {
    &&& forall|i: int, j: int|
        #![trigger view.entries[i], view.entries[j]]
        0 <= i < j < view.entries.len() ==> view.entries[i].key != view.entries[j].key
    &&& forall|k: int|
        0 <= k < view.uses.len() ==> (#[trigger] view.uses[k]).entry < view.entries.len()
            && view.entries[view.uses[k].entry as int].key == view.uses[k].key
    &&& view.uses.len() <= view.expected_uses
    &&& view.plan_complete ==> view.uses.len() == view.expected_uses
    &&& 0 <= view.acquisition_cursor <= view.entries.len()
    &&& forall|i: int|
        0 <= i < view.entries.len() ==> ((#[trigger] view.entries[i]).resource is Some <==> i
            < view.acquisition_cursor)
    &&& 0 <= view.execution_cursor <= view.uses.len()
}

/// The comparisons that a lookup in the cache takes.
pub open spec fn probes_for(entries: Seq<PlannedEntry>, key: ResourceProof) -> int {
    let found = entry_index(entries, key, 0);
    if found < entries.len() {
        found + 1
    } else {
        entries.len() as int
    }
}

/// A plan after one more use was registered, memory aside.
pub open spec fn registered(
    view: ResourceView,
    limits: ResourceLimits,
    key: ResourceProof,
    transform: Matrix,
    source: ContentOperatorSource,
) -> Result<ResourceView, ContentVmError> {
    let found = entry_index(view.entries, key, 0);
    let hit = found < view.entries.len();
    let probes = probes_for(view.entries, key);
    let ceiling = ceiling_of(limits, ResourceBudget::CacheProbes);
    let entries = if hit {
        view.entries
    } else {
        view.entries.push(PlannedEntry { key, source, resource: None })
    };
    if view.plan_complete || view.uses.len() >= view.expected_uses {
        Err(operator_failure(ContentVmErrorCode::InternalState, source))
    } else if view.stats.cache_probes + probes > ceiling {
        Err(
            resource_preflight(
                limits,
                ResourceBudget::CacheProbes,
                ceiling,
                1,
                Some(source),
            )->Err_0,
        )
    } else if hit && view.stats.cache_hits == u64::MAX {
        Err(operator_failure(ContentVmErrorCode::InternalState, source))
    } else if !hit && resource_preflight(
        limits,
        ResourceBudget::Unique,
        view.entries.len() as u64,
        1,
        Some(source),
    ) is Err {
        Err(
            resource_preflight(
                limits,
                ResourceBudget::Unique,
                view.entries.len() as u64,
                1,
                Some(source),
            )->Err_0,
        )
    } else if found > u32::MAX {
        Err(operator_failure(ContentVmErrorCode::InternalState, source))
    } else {
        Ok(
            ResourceView {
                uses: view.uses.push(
                    PlannedUse { source, key, entry: found as u32, transform },
                ),
                entries,
                stats: ResourceStats {
                    cache_probes: (view.stats.cache_probes + probes) as u64,
                    cache_hits: if hit {
                        (view.stats.cache_hits + 1) as u64
                    } else {
                        view.stats.cache_hits
                    },
                    ..view.stats
                },
                ..view
            },
        )
    }
}

/// A plan whose entry at the cursor is acquired.
pub open spec fn with_resource(view: ResourceView, resource: PlannedResource) -> ResourceView {
    let i = view.acquisition_cursor;
    ResourceView {
        entries: view.entries.update(
            i,
            PlannedEntry { resource: Some(resource), ..view.entries[i] },
        ),
        acquisition_cursor: i + 1,
        ..view
    }
}

/// A plan with one more call into an acquisition job.
pub open spec fn with_poll(view: ResourceView) -> ResourceView {
    ResourceView {
        stats: ResourceStats {
            acquisition_polls: (view.stats.acquisition_polls + 1) as u64,
            ..view.stats
        },
        ..view
    }
}

/// The resource that the next executed use resolves to.
pub open spec fn resolution(view: ResourceView, source: ContentOperatorSource) -> Result<
    (PlannedUse, PlannedResource),
    ContentVmError,
> {
    let missing = operator_failure(ContentVmErrorCode::InternalState, source);
    if view.execution_cursor >= view.uses.len() || view.uses[view.execution_cursor].source != source {
        Err(missing)
    } else {
        let usage = view.uses[view.execution_cursor];
        match view.entries[usage.entry as int].resource {
            Some(resource) => Ok((usage, resource)),
            None => Err(missing),
        }
    }
}

/// Exact cache and use plan of one resource class.
pub struct ResourcePlan {
    limits: ResourceLimits,
    uses: Vec<PlannedUse>,
    entries: Vec<PlannedEntry>,
    expected_uses: usize,
    acquisition_cursor: usize,
    execution_cursor: usize,
    external_plan_retained: u64,
    plan_complete: bool,
    stats: ResourceStats,
}

impl View for ResourcePlan {
    type V = ResourceView;

    closed spec fn view(&self) -> ResourceView {
        ResourceView {
            uses: self.uses@,
            entries: self.entries@,
            expected_uses: self.expected_uses as int,
            acquisition_cursor: self.acquisition_cursor as int,
            execution_cursor: self.execution_cursor as int,
            plan_complete: self.plan_complete,
            recorded_plan: self.external_plan_retained,
            stats: counted(self.stats),
        }
    }
}

impl ResourcePlan {
    /// The budgets, as a value.
    pub closed spec fn spec_limits(&self) -> ResourceLimits {
        self.limits
    }

    /// The charged work, as a value.
    pub closed spec fn spec_stats(&self) -> ResourceStats {
        self.stats
    }

    /// Whether what the plan retains is within its budget.
    pub open spec fn plan_within_budget(&self) -> bool {
        self.spec_stats().plan_retained <= ceiling_of(
            self.spec_limits(),
            ResourceBudget::PlanRetained,
        )
    }

    /// The invariant of the plan.
    pub closed spec fn well_formed(&self) -> bool {
        &&& resources_ok(self@)
        &&& self.stats.cache_probes <= ceiling_of(self.limits, ResourceBudget::CacheProbes)
        &&& retained_counted(self.stats, self@)
    }

    /// The invariant, before the last uses are counted.
    spec fn uncounted(&self) -> bool {
        &&& resources_ok(self@)
        &&& self.stats.cache_probes <= ceiling_of(self.limits, ResourceBudget::CacheProbes)
        &&& retained_counted(self.stats, ResourceView { uses: Seq::empty(), ..self@ })
    }

    /// A well-formed plan meets the invariant of its model.
    pub proof fn well_formed_model(&self)
        requires
            self.well_formed(),
        ensures
            resources_ok(self@),
    {
    }

    /// Creates an empty plan.
    pub fn new(limits: ResourceLimits) -> (plan: Self)
        ensures
            plan.well_formed(),
            plan@ == empty_resources(),
            plan.spec_limits() == limits,
    {
        let plan = Self {
            limits,
            uses: Vec::new(),
            entries: Vec::new(),
            expected_uses: 0,
            acquisition_cursor: 0,
            execution_cursor: 0,
            external_plan_retained: 0,
            plan_complete: false,
            stats: ResourceStats {
                        lookups: 0,
                cache_probes: 0,
                cache_hits: 0,
                acquisition_polls: 0,
                execution_passes: 0,
                plan_retained: 0,
                peak_plan_retained: 0,
                cache_retained: 0,
                peak_cache_retained: 0,
            },
        };
        proof {
            assert(plan@.uses =~= Seq::empty());
            assert(plan@.entries =~= Seq::empty());
        }
        plan
    }

    /// Returns the charged work.
    pub fn stats(&self) -> (stats: ResourceStats)
        ensures
            stats == self.spec_stats(),
            counted(stats) == self@.stats,
            self.well_formed() ==> retained_counted(stats, self@),
    {
        self.stats
    }

    /// Reports whether planning is complete.
    pub fn plan_complete(&self) -> (complete: bool)
        ensures
            complete == self@.plan_complete,
    {
        self.plan_complete
    }

    /// Reports whether every distinct resource is acquired.
    pub fn acquisitions_complete(&self) -> (complete: bool)
        ensures
            complete == (self@.plan_complete && self@.acquisition_cursor == self@.entries.len()),
    {
        self.plan_complete && self.acquisition_cursor == self.entries.len()
    }

    /// Counts one name lookup.
    pub fn admit_lookup(&mut self, source: ContentOperatorSource) -> (result: Result<
        (),
        ContentVmError,
    >)
        requires
            old(self).well_formed(),
        ensures
            final(self).well_formed(),
            final(self).spec_limits() == old(self).spec_limits(),
            result == (if old(self)@.stats.lookups < u64::MAX {
                Ok(())
            } else {
                Err(operator_failure(ContentVmErrorCode::InternalState, source))
            }),
            final(self)@ == (if result is Ok {
                ResourceView {
                    stats: ResourceStats {
                        lookups: (old(self)@.stats.lookups + 1) as u64,
                        ..old(self)@.stats
                    },
                    ..old(self)@
                }
            } else {
                old(self)@
            }),
    {
        match self.stats.lookups.checked_add(1) {
            Some(next) => {
                self.stats.lookups = next;
                Ok(())
            },
            None => Err(vm_error(ContentVmErrorCode::InternalState, source)),
        }
    }

    /// Records what the semantic plan retains around this one, once.
    pub fn record_execution_plan_retained(
        &mut self,
        retained: u64,
        source: Option<ContentOperatorSource>,
    ) -> (result: Result<(), ContentVmError>)
        requires
            old(self).well_formed(),
        ensures
            final(self).well_formed(),
            final(self).spec_limits() == old(self).spec_limits(),
            result == (if old(self)@.plan_complete || old(self)@.recorded_plan != 0 {
                Err(vm_failure_of(ContentVmErrorCode::InternalState, source))
            } else {
                resource_preflight(
                    old(self).spec_limits(),
                    ResourceBudget::PlanRetained,
                    0,
                    retained,
                    source,
                )
            }),
            final(self)@ == (if result is Ok {
                ResourceView { recorded_plan: retained, ..old(self)@ }
            } else {
                old(self)@
            }),
    {
        if self.plan_complete || self.external_plan_retained != 0 {
            return Err(ContentVmError::new(ContentVmErrorCode::InternalState, source));
        }
        if self.stats.peak_plan_retained < retained {
            self.stats.peak_plan_retained = retained;
        }
        match self.limits.preflight(ResourceBudget::PlanRetained, 0, retained, source) {
            Ok(_) => {},
            Err(error) => {
                return Err(error);
            },
        }
        self.external_plan_retained = retained;
        self.stats.plan_retained = retained;
        Ok(())
    }

    /// Holds what the plan retains against its budget, and records it.
    fn settle_plan_retained(&mut self, source: Option<ContentOperatorSource>) -> (result: Result<
        (),
        ContentVmError,
    >)
        requires
            old(self).uncounted(),
        ensures
            final(self).well_formed(),
            final(self).spec_limits() == old(self).spec_limits(),
            final(self)@ == old(self)@,
            result matches Err(error) ==> error.is_retained_failure(),
            result is Ok ==> final(self).plan_within_budget(),
            final(self).stats.cache_retained == old(self).stats.cache_retained,
    {
        let held: u64 = capacity_bytes(&self.uses);
        let retained: u64 = held.saturating_add(self.external_plan_retained);
        if self.stats.peak_plan_retained < retained {
            self.stats.peak_plan_retained = retained;
        }
        self.stats.plan_retained = retained;
        self.limits.preflight(ResourceBudget::PlanRetained, 0, retained, source)
    }

    /// Starts planning a fixed number of uses.
    pub fn begin_plan(&mut self, expected_uses: usize, source: Option<ContentOperatorSource>) -> (result:
        Result<(), ContentVmError>)
        requires
            old(self).well_formed(),
        ensures
            final(self).spec_limits() == old(self).spec_limits(),
            ({
                let started = old(self)@.plan_complete || old(self)@.uses.len() > 0 || old(
                    self,
                )@.entries.len() > 0;
                match result {
                    Ok(_) => !started && final(self).well_formed()
                        && final(self).plan_within_budget() && final(self)@ == (ResourceView { expected_uses: expected_uses as int, ..old(self)@ }),
                    Err(error) => if started {
                        error == vm_failure_of(ContentVmErrorCode::InternalState, source)
                    } else {
                        error.is_memory_failure()
                    },
                }
            }),
    {
        if self.plan_complete || self.uses.len() > 0 || self.entries.len() > 0 {
            return Err(ContentVmError::new(ContentVmErrorCode::InternalState, source));
        }
        let target: u64 = byte_width::<PlannedUse>(expected_uses);
        match self.limits.preflight(
            ResourceBudget::PlanRetained,
            self.external_plan_retained,
            target,
            source,
        ) {
            Ok(_) => {},
            Err(error) => {
                return Err(error);
            },
        }
        if !try_reserve_exact(&mut self.uses, expected_uses) {
            return Err(
                self.limits.allocation_error(
                    ResourceBudget::PlanAllocation,
                    self.external_plan_retained,
                    target,
                    source,
                ),
            );
        }
        self.expected_uses = expected_uses;
        self.settle_plan_retained(source)
    }

    /// Makes room for one more distinct resource.
    fn reserve_entry_slot(&mut self, source: ContentOperatorSource) -> (result: Result<
        (),
        ContentVmError,
    >)
        requires
            old(self).well_formed(),
        ensures
            final(self).well_formed(),
            final(self).spec_limits() == old(self).spec_limits(),
            final(self)@ == old(self)@,
            result matches Err(error) ==> error.is_memory_failure(),
            result is Ok ==> final(self).stats.cache_retained <= ceiling_of(
                final(self).limits,
                ResourceBudget::CacheRetained,
            ) && final(self).stats.cache_retained >= retained_sum(
                ((old(self)@.entries.len() + 1) * vstd::layout::size_of::<PlannedEntry>()) as int,
            ),
    {
        let len: usize = self.entries.len();
        if len == capacity_of(&self.entries) {
            let current: u64 = capacity_bytes(&self.entries);
            let desired: usize = len.saturating_add(1);
            let target: u64 = byte_width::<PlannedEntry>(desired);
            let attempted: u64 = target.saturating_sub(current);
            match self.limits.preflight(
                ResourceBudget::CacheRetained,
                current,
                attempted,
                Some(source),
            ) {
                Ok(_) => {},
                Err(error) => {
                    return Err(error);
                },
            }
            if !try_reserve_exact(&mut self.entries, 1) {
                return Err(
                    self.limits.allocation_error(
                        ResourceBudget::CacheAllocation,
                        current,
                        attempted,
                        Some(source),
                    ),
                );
            }
        }
        let granted: u64 = capacity_bytes(&self.entries);
        let needed: u64 = if len < usize::MAX {
            byte_width::<PlannedEntry>(len + 1)
        } else {
            u64::MAX
        };
        let actual: u64 = if granted < needed {
            needed
        } else {
            granted
        };
        self.stats.cache_retained = actual;
        if self.stats.peak_cache_retained < actual {
            self.stats.peak_cache_retained = actual;
        }
        self.limits.preflight(ResourceBudget::CacheRetained, 0, actual, Some(source))
    }

    /// Registers one use of a proof-bound resource. A proof that is already planned shares its
    /// entry; a new one adds an entry.
    pub fn register_proof<S: ByteSource, C: ContentCancellation>(
        &mut self,
        key: ResourceProof,
        transform: Matrix,
        source: ContentOperatorSource,
        byte_source: &S,
        cancellation: &C,
    ) -> (result: Result<(), ContentVmError>)
        requires
            old(self).well_formed(),
        ensures
            final(self).spec_limits() == old(self).spec_limits(),
            ({
                let expected = registered(
                    old(self)@,
                    old(self).spec_limits(),
                    key,
                    transform,
                    source,
                );
                let guard = guard_view(key.snapshot, byte_source, cancellation);
                let asked = accepts_uses(old(self)@) && old(self)@.entries.len() > 0;
                match result {
                    Ok(_) => {
                        &&& expected == Ok::<ResourceView, ContentVmError>(final(self)@)
                        &&& final(self).well_formed()
                        &&& final(self).plan_within_budget()
                        &&& final(self)@.entries.len() > old(self)@.entries.len()
                            ==> final(self).spec_stats().cache_retained <= ceiling_of(
                            final(self).spec_limits(),
                            ResourceBudget::CacheRetained,
                        )
                        &&& asked ==> guard.clear()
                    },
                    Err(error) => {
                        ||| asked && is_guard_failure(error, Some(source), guard)
                        ||| (asked ==> guard.clear()) && match expected {
                            Err(fault) => error == fault,
                            Ok(_) => error.is_memory_failure(),
                        }
                    },
                }
            }),
            !accepts_uses(old(self)@) ==> result == Err::<(), ContentVmError>(
                vm_failure_of(ContentVmErrorCode::InternalState, Some(source)),
            ),
    {
        if self.plan_complete || self.uses.len() >= self.expected_uses {
            return Err(vm_error(ContentVmErrorCode::InternalState, source));
        }
        let ghost before = *self;
        let ghost ceiling = ceiling_of(self.limits, ResourceBudget::CacheProbes);
        let mut found = false;
        let mut i: usize = 0;
        while !found && i < self.entries.len()
            invariant
                i <= self.entries@.len(),
                before == *old(self),
                before.well_formed(),
                self.limits == before.limits,
                self.uses == before.uses,
                self.entries == before.entries,
                self.expected_uses == before.expected_uses,
                self.acquisition_cursor == before.acquisition_cursor,
                self.execution_cursor == before.execution_cursor,
                self.external_plan_retained == before.external_plan_retained,
                self.plan_complete == before.plan_complete,
                !before.plan_complete && before.uses@.len() < before.expected_uses,
                ceiling == ceiling_of(self.limits, ResourceBudget::CacheProbes),
                self.stats == (ResourceStats {
                    cache_probes: self.stats.cache_probes,
                    ..before.stats
                }),
                self.stats.cache_probes == before.stats.cache_probes + i + (if found {
                    1int
                } else {
                    0int
                }),
                self.stats.cache_probes <= ceiling,
                entry_index(before.entries@, key, 0) == entry_index(
                    before.entries@,
                    key,
                    i as int,
                ),
                found ==> i < self.entries@.len() && self.entries@[i as int].key == key,
                found || i > 0 ==> guard_view(key.snapshot, byte_source, cancellation).clear(),
            decreases self.entries@.len() - i + (if found {
                0int
            } else {
                1int
            }),
        {
            proof {
                entry_index_bounds(before.entries@, key, i as int);
            }
            match runtime_guard(key.snapshot, byte_source, cancellation, Some(source)) {
                Ok(_) => {},
                Err(error) => {
                    return Err(error);
                },
            }
            match self.limits.preflight(
                ResourceBudget::CacheProbes,
                self.stats.cache_probes,
                1,
                Some(source),
            ) {
                Ok(_) => {},
                Err(error) => {
                    return Err(error);
                },
            }
            self.stats.cache_probes = self.stats.cache_probes + 1;
            if self.entries[i].key == key {
                found = true;
            } else {
                i = i + 1;
            }
        }
        proof {
            entry_index_bounds(before.entries@, key, i as int);
        }
        if found {
            if i > u32::MAX as usize {
                return Err(vm_error(ContentVmErrorCode::InternalState, source));
            }
            match self.stats.cache_hits.checked_add(1) {
                Some(next) => {
                    self.stats.cache_hits = next;
                },
                None => {
                    return Err(vm_error(ContentVmErrorCode::InternalState, source));
                },
            }
        } else {
            match self.limits.preflight(
                ResourceBudget::Unique,
                self.entries.len() as u64,
                1,
                Some(source),
            ) {
                Ok(_) => {},
                Err(error) => {
                    return Err(error);
                },
            }
            if i > u32::MAX as usize {
                return Err(vm_error(ContentVmErrorCode::InternalState, source));
            }
            match self.reserve_entry_slot(source) {
                Ok(_) => {},
                Err(error) => {
                    return Err(error);
                },
            }
        }
        if !found {
            self.entries.push(PlannedEntry { key, source, resource: None });
        }
        self.uses.push(PlannedUse { source, key, entry: i as u32, transform });
        proof {
            let now = self@;
            assert forall|a: int, b: int|
                #![trigger now.entries[a], now.entries[b]]
                0 <= a < b < now.entries.len() implies now.entries[a].key
                != now.entries[b].key by {
                if b < before.entries@.len() {
                    assert(now.entries[a] == before@.entries[a]);
                    assert(now.entries[b] == before@.entries[b]);
                } else {
                    assert(now.entries[a] == before@.entries[a]);
                    entry_index_meaning(before.entries@, key, 0, a);
                }
            }
            assert forall|k: int| 0 <= k < now.uses.len() implies (#[trigger] now.uses[k]).entry
                < now.entries.len() && now.entries[now.uses[k].entry as int].key
                == now.uses[k].key by {
                if k < before.uses@.len() {
                    assert(now.uses[k] == before@.uses[k]);
                    assert(now.entries[now.uses[k].entry as int]
                        == before@.entries[now.uses[k].entry as int]);
                }
            }
            assert forall|e: int| 0 <= e < now.entries.len() implies ((
            #[trigger] now.entries[e]).resource is Some <==> e < now.acquisition_cursor) by {
                if e < before.entries@.len() {
                    assert(now.entries[e] == before@.entries[e]);
                }
            }
        }
        self.settle_plan_retained(Some(source))
    }

    /// Ends planning once every expected use is registered.
    pub fn finish_plan(&mut self) -> (result: Result<(), ContentVmError>)
        requires
            old(self).well_formed(),
        ensures
            final(self).spec_limits() == old(self).spec_limits(),
            ({
                let ready = !old(self)@.plan_complete && old(self)@.uses.len() == old(
                    self,
                )@.expected_uses;
                match result {
                    Ok(_) => ready && final(self).well_formed()
                        && final(self).plan_within_budget() && final(self)@ == (ResourceView {
                        plan_complete: true,
                        ..old(self)@
                    }),
                    Err(error) => if ready {
                        error.is_retained_failure()
                    } else {
                        error == vm_failure_of(ContentVmErrorCode::InternalState, None)
                    },
                }
            }),
    {
        if self.plan_complete || self.uses.len() != self.expected_uses {
            return Err(ContentVmError::new(ContentVmErrorCode::InternalState, None));
        }
        match self.settle_plan_retained(None) {
            Ok(_) => {},
            Err(error) => {
                return Err(error);
            },
        }
        self.plan_complete = true;
        Ok(())
    }

    /// The entry to acquire next, with the operator that first used it.
    pub fn next_acquisition(&self) -> (entry: Option<PlannedEntry>)
        ensures
            entry == (if self@.acquisition_cursor < self@.entries.len() {
                Some(self@.entries[self@.acquisition_cursor])
            } else {
                None
            }),
    {
        if self.acquisition_cursor < self.entries.len() {
            Some(self.entries[self.acquisition_cursor])
        } else {
            None
        }
    }

    /// Counts one call into a lower acquisition job.
    pub fn admit_acquisition_poll(&mut self, source: ContentOperatorSource) -> (result: Result<
        (),
        ContentVmError,
    >)
        requires
            old(self).well_formed(),
        ensures
            final(self).well_formed(),
            final(self).spec_limits() == old(self).spec_limits(),
            result == resource_preflight(
                old(self).spec_limits(),
                ResourceBudget::AcquisitionPolls,
                old(self)@.stats.acquisition_polls,
                1,
                Some(source),
            ),
            final(self)@ == (if result is Ok {
                with_poll(old(self)@)
            } else {
                old(self)@
            }),
    {
        match self.limits.preflight(
            ResourceBudget::AcquisitionPolls,
            self.stats.acquisition_polls,
            1,
            Some(source),
        ) {
            Ok(_) => {
                self.stats.acquisition_polls = self.stats.acquisition_polls + 1;
                Ok(())
            },
            Err(error) => Err(error),
        }
    }

    /// Installs the resource of the entry at the cursor, and passes it. The acquired proof must be
    /// the planned one.
    pub fn install(&mut self, key: ResourceProof, resource: PlannedResource) -> (installed: bool)
        requires
            old(self).well_formed(),
        ensures
            final(self).well_formed(),
            final(self).spec_limits() == old(self).spec_limits(),
            ({
                let before = old(self)@;
                let i = before.acquisition_cursor;
                let fits = i < before.entries.len() && before.entries[i].key == key;
                &&& installed == fits
                &&& final(self)@ == (if fits {
                    with_resource(before, resource)
                } else {
                    before
                })
            }),
    {
        let i: usize = self.acquisition_cursor;
        if i >= self.entries.len() || self.entries[i].key != key {
            return false;
        }
        let ghost before = self@;
        let entry = self.entries[i];
        self.entries.set(
            i,
            PlannedEntry { key: entry.key, source: entry.source, resource: Some(resource) },
        );
        self.acquisition_cursor = i + 1;
        proof {
            let now = self@;
            assert forall|a: int, b: int|
                #![trigger now.entries[a], now.entries[b]]
                0 <= a < b < now.entries.len() implies now.entries[a].key
                != now.entries[b].key by {
                assert(before.entries[a].key != before.entries[b].key);
            }
            assert forall|k: int| 0 <= k < now.uses.len() implies (#[trigger] now.uses[k]).entry
                < now.entries.len() && now.entries[now.uses[k].entry as int].key
                == now.uses[k].key by {
                assert(now.uses[k] == before.uses[k]);
            }
            assert forall|e: int| 0 <= e < now.entries.len() implies ((
            #[trigger] now.entries[e]).resource is Some <==> e < now.acquisition_cursor) by {
                assert(before.entries[e].resource is Some <==> e < before.acquisition_cursor);
            }
        }
        true
    }

    /// Starts the one execution pass, once everything is acquired.
    pub fn begin_execution(&mut self) -> (result: Result<(), ContentVmError>)
        requires
            old(self).well_formed(),
        ensures
            final(self).well_formed(),
            final(self).spec_limits() == old(self).spec_limits(),
            ({
                let before = old(self)@;
                let ready = before.plan_complete && before.acquisition_cursor
                    == before.entries.len() && before.execution_cursor == 0
                    && before.stats.execution_passes == 0;
                if ready {
                    &&& result is Ok
                    &&& final(self)@ == (ResourceView {
                        stats: ResourceStats { execution_passes: 1, ..before.stats },
                        ..before
                    })
                } else {
                    &&& result == Err::<(), ContentVmError>(
                        vm_failure_of(ContentVmErrorCode::InternalState, None),
                    )
                    &&& final(self)@ == before
                }
            }),
    {
        if !self.acquisitions_complete() || self.execution_cursor != 0
            || self.stats.execution_passes != 0 {
            return Err(ContentVmError::new(ContentVmErrorCode::InternalState, None));
        }
        self.stats.execution_passes = 1;
        Ok(())
    }

    /// Resolves the next executed use.
    pub fn resolve_planned(&self, source: ContentOperatorSource) -> (resolved: Result<
        (PlannedUse, PlannedResource),
        ContentVmError,
    >)
        requires
            self.well_formed(),
        ensures
            resolved == resolution(self@, source),
    {
        if self.execution_cursor >= self.uses.len() {
            return Err(vm_error(ContentVmErrorCode::InternalState, source));
        }
        let usage = self.uses[self.execution_cursor];
        if usage.source != source {
            return Err(vm_error(ContentVmErrorCode::InternalState, source));
        }
        assert(self@.uses[self.execution_cursor as int] == usage);
        match self.entries[usage.entry as usize].resource {
            Some(resource) => Ok((usage, resource)),
            None => Err(vm_error(ContentVmErrorCode::InternalState, source)),
        }
    }

    /// Passes the use that was executed.
    pub fn record_executed_use(&mut self, source: ContentOperatorSource) -> (result: Result<
        (),
        ContentVmError,
    >)
        requires
            old(self).well_formed(),
        ensures
            final(self).well_formed(),
            final(self).spec_limits() == old(self).spec_limits(),
            ({
                let before = old(self)@;
                if before.execution_cursor < before.uses.len()
                    && before.uses[before.execution_cursor].source == source {
                    &&& result is Ok
                    &&& final(self)@ == (ResourceView {
                        execution_cursor: before.execution_cursor + 1,
                        ..before
                    })
                } else {
                    &&& result == Err::<(), ContentVmError>(
                        operator_failure(ContentVmErrorCode::InternalState, source),
                    )
                    &&& final(self)@ == before
                }
            }),
    {
        if self.execution_cursor >= self.uses.len() || self.uses[self.execution_cursor].source
            != source {
            return Err(vm_error(ContentVmErrorCode::InternalState, source));
        }
        self.execution_cursor = self.execution_cursor + 1;
        Ok(())
    }

    /// Checks that every planned use was executed.
    pub fn finish_execution(&self) -> (result: Result<(), ContentVmError>)
        ensures
            result == (if self@.execution_cursor == self@.uses.len() {
                Ok(())
            } else {
                Err(vm_failure_of(ContentVmErrorCode::InternalState, None))
            }),
    {
        if self.execution_cursor != self.uses.len() {
            return Err(ContentVmError::new(ContentVmErrorCode::InternalState, None));
        }
        Ok(())
    }

    /// Returns how many uses are planned.
    pub fn use_count(&self) -> (count: usize)
        ensures
            count == self@.uses.len(),
    {
        self.uses.len()
    }

    /// Returns how many uses are executed.
    pub fn execution_position(&self) -> (position: usize)
        ensures
            position == self@.execution_cursor,
    {
        self.execution_cursor
    }

    /// Returns one planned use.
    pub fn use_at(&self, i: usize) -> (usage: Option<PlannedUse>)
        ensures
            usage == (if i < self@.uses.len() {
                Some(self@.uses[i as int])
            } else {
                None
            }),
    {
        if i < self.uses.len() {
            Some(self.uses[i])
        } else {
            None
        }
    }

    /// Returns one distinct entry.
    pub fn entry_at(&self, i: usize) -> (entry: Option<PlannedEntry>)
        ensures
            entry == (if i < self@.entries.len() {
                Some(self@.entries[i as int])
            } else {
                None
            }),
    {
        if i < self.entries.len() {
            Some(self.entries[i])
        } else {
            None
        }
    }
}

proof fn entry_index_bounds(entries: Seq<PlannedEntry>, key: ResourceProof, i: int)
    requires
        0 <= i <= entries.len(),
    ensures
        i <= entry_index(entries, key, i) <= entries.len(),
    decreases entries.len() - i,
{
    if i < entries.len() && entries[i].key != key {
        entry_index_bounds(entries, key, i + 1);
    }
}

proof fn entry_index_meaning(entries: Seq<PlannedEntry>, key: ResourceProof, i: int, k: int)
    requires
        0 <= i <= k < entry_index(entries, key, i),
        k < entries.len(),
    ensures
        entries[k].key != key,
    decreases entries.len() - i,
{
    if i < k && entries[i].key != key {
        entry_index_meaning(entries, key, i + 1, k);
    }
}

/// Registration plans each distinct proof once: a proof that is already planned adds no entry and
/// refers to the planned one, and a new proof adds exactly one.
pub proof fn each_proof_is_planned_once(
    view: ResourceView,
    limits: ResourceLimits,
    key: ResourceProof,
    transform: Matrix,
    source: ContentOperatorSource,
)
    requires
        resources_ok(view),
        registered(view, limits, key, transform, source) is Ok,
    ensures
        ({
            let after = registered(view, limits, key, transform, source)->Ok_0;
            let known = exists|i: int|
                0 <= i < view.entries.len() && (#[trigger] view.entries[i]).key == key;
            &&& after.uses.len() == view.uses.len() + 1
            &&& after.entries.len() == view.entries.len() + (if known {
                0int
            } else {
                1int
            })
            &&& after.entries[after.uses.last().entry as int].key == key
        }),
{
    let found = entry_index(view.entries, key, 0);
    entry_index_bounds(view.entries, key, 0);
    if found < view.entries.len() {
        entry_is_found(view.entries, key, 0);
        assert(view.entries[found].key == key);
    } else {
        assert forall|i: int| 0 <= i < view.entries.len() implies (
        #[trigger] view.entries[i]).key != key by {
            entry_index_meaning(view.entries, key, 0, i);
        }
    }
}

proof fn entry_is_found(entries: Seq<PlannedEntry>, key: ResourceProof, i: int)
    requires
        0 <= i,
        entry_index(entries, key, i) < entries.len(),
    ensures
        entries[entry_index(entries, key, i)].key == key,
    decreases entries.len() - i,
{
    if i < entries.len() && entries[i].key != key {
        entry_is_found(entries, key, i + 1);
    }
}

} // verus!
