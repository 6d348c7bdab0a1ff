//! Aggregate image budgets of one interpretation.

use vstd::prelude::*;

use crate::content::model::ContentOperatorSource;
use crate::content::vm_error::{
    vm_failure_of, vm_resource, ContentImageLimit, ContentImageLimitKind, ContentVmError,
    ContentVmErrorCode, ContentVmLimitContext,
};

verus! {

pub const HARD_MAX_IMAGE_USES: u64 = 50_000_000;

pub const HARD_MAX_UNIQUE_IMAGES: u64 = 10_000_000;

pub const HARD_MAX_DECODED_BYTES: u64 = 2 * 1024 * 1024 * 1024;

pub const HARD_MAX_PLANNING_OPERATORS: u64 = 100_000_000;

pub const HARD_MAX_CACHE_PROBES: u64 = 100_000_000;

pub const HARD_MAX_PLAN_RETAINED_BYTES: u64 = 2 * 1024 * 1024 * 1024;

pub const HARD_MAX_CACHE_RETAINED_BYTES: u64 = 2 * 1024 * 1024 * 1024;

pub const HARD_MAX_ACQUISITION_POLLS: u64 = 50_000_000;

/// Unvalidated aggregate limits for images used by one content interpretation.
#[derive(Clone, Copy, Debug, PartialEq, Eq, Structural)]
pub struct ContentImageLimitConfig {
    /// Maximum executed `Do` operators retained by the interpreted result.
    pub max_image_uses: u64,
    /// Maximum distinct proof-bound images acquired by the exact cache.
    pub max_unique_images: u64,
    /// Maximum aggregate decoded bytes copied into distinct scene image resources.
    pub max_decoded_bytes: u64,
    /// Maximum operators structurally inspected by the one image-planning pass.
    pub max_planning_operators: u64,
    /// Maximum exact-cache key comparisons during image planning.
    pub max_cache_probes: u64,
    /// Maximum allocator-reported capacity retained by operator/proof planning state.
    pub max_plan_retained_bytes: u64,
    /// Maximum allocator-reported metadata capacity retained by the exact image cache.
    pub max_cache_retained_bytes: u64,
    /// Maximum calls admitted into lower image acquisition jobs.
    pub max_acquisition_polls: u64,
}

impl ContentImageLimitConfig {
    /// Whether every budget is positive and below its ceiling.
    pub open spec fn admissible(self) -> bool {
        &&& 0 < self.max_image_uses <= HARD_MAX_IMAGE_USES
        &&& 0 < self.max_unique_images <= HARD_MAX_UNIQUE_IMAGES
        &&& 0 < self.max_decoded_bytes <= HARD_MAX_DECODED_BYTES
        &&& 0 < self.max_planning_operators <= HARD_MAX_PLANNING_OPERATORS
        &&& 0 < self.max_cache_probes <= HARD_MAX_CACHE_PROBES
        &&& 0 < self.max_plan_retained_bytes <= HARD_MAX_PLAN_RETAINED_BYTES
        &&& 0 < self.max_cache_retained_bytes <= HARD_MAX_CACHE_RETAINED_BYTES
        &&& 0 < self.max_acquisition_polls <= HARD_MAX_ACQUISITION_POLLS
    }

    /// The budget that a kind is held to.
    pub open spec fn budget(self, kind: ContentImageLimitKind) -> u64 {
        match kind {
            ContentImageLimitKind::ImageUses => self.max_image_uses,
            ContentImageLimitKind::UniqueImages => self.max_unique_images,
            ContentImageLimitKind::DecodedBytes => self.max_decoded_bytes,
            ContentImageLimitKind::PlanningOperators => self.max_planning_operators,
            ContentImageLimitKind::CacheProbes => self.max_cache_probes,
            ContentImageLimitKind::PlanRetainedBytes => self.max_plan_retained_bytes,
            ContentImageLimitKind::PlanAllocation => self.max_plan_retained_bytes,
            ContentImageLimitKind::CacheRetainedBytes => self.max_cache_retained_bytes,
            ContentImageLimitKind::CacheAllocation => self.max_cache_retained_bytes,
            ContentImageLimitKind::DecodedAllocation => self.max_decoded_bytes,
            ContentImageLimitKind::AcquisitionPolls => self.max_acquisition_polls,
        }
    }
}

/// The built-in profile.
pub open spec fn default_image_config() -> ContentImageLimitConfig {
    ContentImageLimitConfig {
        max_image_uses: 1000000,
        max_unique_images: 65536,
        max_decoded_bytes: 536870912,
        max_planning_operators: 4000000,
        max_cache_probes: 4000000,
        max_plan_retained_bytes: 67108864,
        max_cache_retained_bytes: 67108864,
        max_acquisition_polls: 1000000,
    }
}

impl Default for ContentImageLimitConfig {
    fn default() -> (config: Self)
        ensures
            config == default_image_config(),
    {
        Self {
            max_image_uses: 1_000_000,
            max_unique_images: 65_536,
            max_decoded_bytes: 512 * 1024 * 1024,
            max_planning_operators: 4_000_000,
            max_cache_probes: 4_000_000,
            max_plan_retained_bytes: 64 * 1024 * 1024,
            max_cache_retained_bytes: 64 * 1024 * 1024,
            max_acquisition_polls: 1_000_000,
        }
    }
}

/// Validated aggregate limits for images used by one content interpretation.
#[derive(Clone, Copy, Debug, PartialEq, Eq, Structural)]
pub struct ContentImageLimits {
    config: ContentImageLimitConfig,
}

impl View for ContentImageLimits {
    type V = ContentImageLimitConfig;

    closed spec fn view(&self) -> ContentImageLimitConfig {
        self.config
    }
}

/// The outcome of holding `attempted` more than `consumed` against a budget.
pub open spec fn image_preflight(
    config: ContentImageLimitConfig,
    kind: ContentImageLimitKind,
    consumed: u64,
    attempted: u64,
    source: Option<ContentOperatorSource>,
) -> Result<(), ContentVmError> {
    if consumed + attempted <= config.budget(kind) {
        Ok(())
    } else {
        Err(
            vm_resource(
                ContentVmLimitContext::Image(
                    ContentImageLimit { kind, limit: config.budget(kind), consumed, attempted },
                ),
                source,
            ),
        )
    }
}

impl ContentImageLimits {
    /// Validated limits are admissible.
    #[verifier::type_invariant]
    pub closed spec fn well_formed(self) -> bool {
        self.config.admissible()
    }

    /// Validates every positive budget against its fixed ceiling.
    pub fn validate(config: ContentImageLimitConfig) -> (limits: Result<Self, ContentVmError>)
        ensures
            limits is Ok <==> config.admissible(),
            limits matches Ok(value) ==> value@ == config,
            limits matches Err(error) ==> error == vm_failure_of(
                ContentVmErrorCode::InvalidLimits,
                None,
            ),
    {
        if config.max_image_uses == 0
            || config.max_image_uses > HARD_MAX_IMAGE_USES
            || config.max_unique_images == 0
            || config.max_unique_images > HARD_MAX_UNIQUE_IMAGES
            || config.max_decoded_bytes == 0
            || config.max_decoded_bytes > HARD_MAX_DECODED_BYTES
            || config.max_planning_operators == 0
            || config.max_planning_operators > HARD_MAX_PLANNING_OPERATORS
            || config.max_cache_probes == 0
            || config.max_cache_probes > HARD_MAX_CACHE_PROBES
            || config.max_plan_retained_bytes == 0
            || config.max_plan_retained_bytes > HARD_MAX_PLAN_RETAINED_BYTES
            || config.max_cache_retained_bytes == 0
            || config.max_cache_retained_bytes > HARD_MAX_CACHE_RETAINED_BYTES
            || config.max_acquisition_polls == 0
            || config.max_acquisition_polls > HARD_MAX_ACQUISITION_POLLS
        {
            return Err(ContentVmError::new(ContentVmErrorCode::InvalidLimits, None));
        }
        Ok(Self { config })
    }

    /// Returns the aggregate executed image-use ceiling.
    pub fn max_image_uses(self) -> (value: u64)
        ensures
            value == self@.max_image_uses,
            self@.admissible(),
    {
        proof {
            use_type_invariant(self);
        }
        self.config.max_image_uses
    }

    /// Returns the distinct acquired image ceiling.
    pub fn max_unique_images(self) -> (value: u64)
        ensures
            value == self@.max_unique_images,
            self@.admissible(),
    {
        proof {
            use_type_invariant(self);
        }
        self.config.max_unique_images
    }

    /// Returns the aggregate distinct decoded-byte ceiling.
    pub fn max_decoded_bytes(self) -> (value: u64)
        ensures
            value == self@.max_decoded_bytes,
            self@.admissible(),
    {
        proof {
            use_type_invariant(self);
        }
        self.config.max_decoded_bytes
    }

    /// Returns the one-pass image-planning operator ceiling.
    pub fn max_planning_operators(self) -> (value: u64)
        ensures
            value == self@.max_planning_operators,
            self@.admissible(),
    {
        proof {
            use_type_invariant(self);
        }
        self.config.max_planning_operators
    }

    /// Returns the aggregate exact-cache comparison ceiling.
    pub fn max_cache_probes(self) -> (value: u64)
        ensures
            value == self@.max_cache_probes,
            self@.admissible(),
    {
        proof {
            use_type_invariant(self);
        }
        self.config.max_cache_probes
    }

    /// Returns the operator/proof planning-capacity ceiling.
    pub fn max_plan_retained_bytes(self) -> (value: u64)
        ensures
            value == self@.max_plan_retained_bytes,
            self@.admissible(),
    {
        proof {
            use_type_invariant(self);
        }
        self.config.max_plan_retained_bytes
    }

    /// Returns the exact-cache metadata-capacity ceiling.
    pub fn max_cache_retained_bytes(self) -> (value: u64)
        ensures
            value == self@.max_cache_retained_bytes,
            self@.admissible(),
    {
        proof {
            use_type_invariant(self);
        }
        self.config.max_cache_retained_bytes
    }

    /// Returns the lower acquisition-poll ceiling.
    pub fn max_acquisition_polls(self) -> (value: u64)
        ensures
            value == self@.max_acquisition_polls,
            self@.admissible(),
    {
        proof {
            use_type_invariant(self);
        }
        self.config.max_acquisition_polls
    }

    /// Holds `attempted` more than `consumed` against the budget of a kind.
    pub fn preflight(
        self,
        kind: ContentImageLimitKind,
        consumed: u64,
        attempted: u64,
        source: Option<ContentOperatorSource>,
    ) -> (result: Result<(), ContentVmError>)
        ensures
            result == image_preflight(self@, kind, consumed, attempted, source),
    {
        let limit: u64 = match kind {
            ContentImageLimitKind::ImageUses => self.config.max_image_uses,
            ContentImageLimitKind::UniqueImages => self.config.max_unique_images,
            ContentImageLimitKind::DecodedBytes => self.config.max_decoded_bytes,
            ContentImageLimitKind::PlanningOperators => self.config.max_planning_operators,
            ContentImageLimitKind::CacheProbes => self.config.max_cache_probes,
            ContentImageLimitKind::PlanRetainedBytes => self.config.max_plan_retained_bytes,
            ContentImageLimitKind::PlanAllocation => self.config.max_plan_retained_bytes,
            ContentImageLimitKind::CacheRetainedBytes => self.config.max_cache_retained_bytes,
            ContentImageLimitKind::CacheAllocation => self.config.max_cache_retained_bytes,
            ContentImageLimitKind::DecodedAllocation => self.config.max_decoded_bytes,
            ContentImageLimitKind::AcquisitionPolls => self.config.max_acquisition_polls,
        };
        let admitted = match consumed.checked_add(attempted) {
            Some(next) => next <= limit,
            None => false,
        };
        if !admitted {
            return Err(
                ContentVmError::image_resource(
                    ContentImageLimit::new(kind, limit, consumed, attempted),
                    source,
                ),
            );
        }
        Ok(())
    }
}

impl Default for ContentImageLimits {
    fn default() -> (limits: Self)
        ensures
            limits@ == default_image_config(),
    {
        let config = ContentImageLimitConfig::default();
        Self { config }
    }
}

/// The built-in profile passes validation.
pub proof fn default_image_config_is_admissible()
    ensures
        default_image_config().admissible(),
{
}

/// Each image budget is checked by itself: one that is exchanged is admitted exactly where it is
/// positive and not above its own ceiling, whatever the others are.
pub proof fn image_budgets_are_checked_one_by_one(
    config: ContentImageLimitConfig,
    other: ContentImageLimitConfig,
)
    requires
        config.admissible(),
    ensures
        (ContentImageLimitConfig {
            max_image_uses: other.max_image_uses,
            ..config
        }).admissible() <==> 0 < other.max_image_uses <= HARD_MAX_IMAGE_USES,
        (ContentImageLimitConfig {
            max_unique_images: other.max_unique_images,
            ..config
        }).admissible() <==> 0 < other.max_unique_images <= HARD_MAX_UNIQUE_IMAGES,
        (ContentImageLimitConfig {
            max_decoded_bytes: other.max_decoded_bytes,
            ..config
        }).admissible() <==> 0 < other.max_decoded_bytes <= HARD_MAX_DECODED_BYTES,
        (ContentImageLimitConfig {
            max_planning_operators: other.max_planning_operators,
            ..config
        }).admissible() <==> 0 < other.max_planning_operators <= HARD_MAX_PLANNING_OPERATORS,
        (ContentImageLimitConfig {
            max_cache_probes: other.max_cache_probes,
            ..config
        }).admissible() <==> 0 < other.max_cache_probes <= HARD_MAX_CACHE_PROBES,
        (ContentImageLimitConfig {
            max_plan_retained_bytes: other.max_plan_retained_bytes,
            ..config
        }).admissible() <==> 0 < other.max_plan_retained_bytes <= HARD_MAX_PLAN_RETAINED_BYTES,
        (ContentImageLimitConfig {
            max_cache_retained_bytes: other.max_cache_retained_bytes,
            ..config
        }).admissible() <==> 0 < other.max_cache_retained_bytes <= HARD_MAX_CACHE_RETAINED_BYTES,
        (ContentImageLimitConfig {
            max_acquisition_polls: other.max_acquisition_polls,
            ..config
        }).admissible() <==> 0 < other.max_acquisition_polls <= HARD_MAX_ACQUISITION_POLLS,
{
}

} // verus!
