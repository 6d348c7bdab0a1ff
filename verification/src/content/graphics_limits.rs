//! Path and dash budgets of one interpretation.

use vstd::prelude::*;

use crate::content::model::ContentOperatorSource;
use crate::content::vm_error::{
    vm_failure_of, vm_resource, ContentGraphicsLimit, ContentGraphicsLimitKind, ContentVmError,
    ContentVmErrorCode, ContentVmLimitContext,
};

verus! {

pub const HARD_MAX_PATH_SEGMENTS: u64 = 50_000_000;

pub const HARD_MAX_PATH_RETAINED_BYTES: u64 = 2 * 1024 * 1024 * 1024;

pub const HARD_MAX_DASH_ENTRIES: u64 = 1_000_000;

pub const HARD_MAX_DASH_RETAINED_BYTES: u64 = 2 * 1024 * 1024 * 1024;

/// Unvalidated path and dash limits of one content interpretation.
#[derive(Clone, Copy, Debug, PartialEq, Eq, Structural)]
pub struct ContentGraphicsLimitConfig {
    /// Maximum segments of the current path.
    pub max_path_segments: u64,
    /// Maximum allocator-reported capacity of the current path.
    pub max_path_retained_bytes: u64,
    /// Maximum entries of one dash array.
    pub max_dash_entries: u64,
    /// Maximum allocator-reported capacity of live dash arrays.
    pub max_dash_retained_bytes: u64,
}

impl ContentGraphicsLimitConfig {
    /// Whether every budget is positive and below its ceiling.
    pub open spec fn admissible(self) -> bool {
        &&& 0 < self.max_path_segments <= HARD_MAX_PATH_SEGMENTS
        &&& 0 < self.max_path_retained_bytes <= HARD_MAX_PATH_RETAINED_BYTES
        &&& 0 < self.max_dash_entries <= HARD_MAX_DASH_ENTRIES
        &&& 0 < self.max_dash_retained_bytes <= HARD_MAX_DASH_RETAINED_BYTES
    }

    /// The budget that a kind is held to.
    pub open spec fn budget(self, kind: ContentGraphicsLimitKind) -> u64 {
        match kind {
            ContentGraphicsLimitKind::PathSegments => self.max_path_segments,
            ContentGraphicsLimitKind::PathRetainedBytes => self.max_path_retained_bytes,
            ContentGraphicsLimitKind::DashEntries => self.max_dash_entries,
            ContentGraphicsLimitKind::DashRetainedBytes => self.max_dash_retained_bytes,
        }
    }
}

/// The built-in profile.
pub open spec fn default_graphics_config() -> ContentGraphicsLimitConfig {
    ContentGraphicsLimitConfig {
        max_path_segments: 4000000,
        max_path_retained_bytes: 268435456,
        max_dash_entries: 65536,
        max_dash_retained_bytes: 67108864,
    }
}

impl Default for ContentGraphicsLimitConfig {
    fn default() -> (config: Self)
        ensures
            config == default_graphics_config(),
    {
        Self {
            max_path_segments: 4_000_000,
            max_path_retained_bytes: 256 * 1024 * 1024,
            max_dash_entries: 65_536,
            max_dash_retained_bytes: 64 * 1024 * 1024,
        }
    }
}

/// Validated path and dash limits of one content interpretation.
#[derive(Clone, Copy, Debug, PartialEq, Eq, Structural)]
pub struct ContentGraphicsLimits {
    config: ContentGraphicsLimitConfig,
}

impl View for ContentGraphicsLimits {
    type V = ContentGraphicsLimitConfig;

    closed spec fn view(&self) -> ContentGraphicsLimitConfig {
        self.config
    }
}

/// The outcome of holding `attempted` more than `consumed` against a budget.
pub open spec fn graphics_preflight(
    config: ContentGraphicsLimitConfig,
    kind: ContentGraphicsLimitKind,
    consumed: u64,
    attempted: u64,
    source: Option<ContentOperatorSource>,
) -> Result<(), ContentVmError> {
    if consumed + attempted <= config.budget(kind) {
        Ok(())
    } else {
        Err(
            vm_resource(
                ContentVmLimitContext::Graphics(
                    ContentGraphicsLimit { kind, limit: config.budget(kind), consumed, attempted },
                ),
                source,
            ),
        )
    }
}

impl ContentGraphicsLimits {
    /// Validated limits are admissible.
    #[verifier::type_invariant]
    pub closed spec fn well_formed(self) -> bool {
        self.config.admissible()
    }

    /// Validates every positive budget against its fixed ceiling.
    pub fn validate(config: ContentGraphicsLimitConfig) -> (limits: Result<Self, ContentVmError>)
        ensures
            limits is Ok <==> config.admissible(),
            limits matches Ok(value) ==> value@ == config,
            limits matches Err(error) ==> error == vm_failure_of(
                ContentVmErrorCode::InvalidLimits,
                None,
            ),
    {
        if config.max_path_segments == 0
            || config.max_path_segments > HARD_MAX_PATH_SEGMENTS
            || config.max_path_retained_bytes == 0
            || config.max_path_retained_bytes > HARD_MAX_PATH_RETAINED_BYTES
            || config.max_dash_entries == 0
            || config.max_dash_entries > HARD_MAX_DASH_ENTRIES
            || config.max_dash_retained_bytes == 0
            || config.max_dash_retained_bytes > HARD_MAX_DASH_RETAINED_BYTES
        {
            return Err(ContentVmError::new(ContentVmErrorCode::InvalidLimits, None));
        }
        Ok(Self { config })
    }

    /// Returns the current path segment ceiling.
    pub fn max_path_segments(self) -> (value: u64)
        ensures
            value == self@.max_path_segments,
            self@.admissible(),
    {
        proof {
            use_type_invariant(self);
        }
        self.config.max_path_segments
    }

    /// Returns the path retained-capacity ceiling.
    pub fn max_path_retained_bytes(self) -> (value: u64)
        ensures
            value == self@.max_path_retained_bytes,
            self@.admissible(),
    {
        proof {
            use_type_invariant(self);
        }
        self.config.max_path_retained_bytes
    }

    /// Returns the dash entry ceiling.
    pub fn max_dash_entries(self) -> (value: u64)
        ensures
            value == self@.max_dash_entries,
            self@.admissible(),
    {
        proof {
            use_type_invariant(self);
        }
        self.config.max_dash_entries
    }

    /// Returns the dash retained-capacity ceiling.
    pub fn max_dash_retained_bytes(self) -> (value: u64)
        ensures
            value == self@.max_dash_retained_bytes,
            self@.admissible(),
    {
        proof {
            use_type_invariant(self);
        }
        self.config.max_dash_retained_bytes
    }

    /// Holds `attempted` more than `consumed` against the budget of a kind.
    pub fn preflight(
        self,
        kind: ContentGraphicsLimitKind,
        consumed: u64,
        attempted: u64,
        source: Option<ContentOperatorSource>,
    ) -> (result: Result<(), ContentVmError>)
        ensures
            result == graphics_preflight(self@, kind, consumed, attempted, source),
            self@.admissible(),
    {
        proof {
            use_type_invariant(self);
        }
        let limit: u64 = match kind {
            ContentGraphicsLimitKind::PathSegments => self.config.max_path_segments,
            ContentGraphicsLimitKind::PathRetainedBytes => self.config.max_path_retained_bytes,
            ContentGraphicsLimitKind::DashEntries => self.config.max_dash_entries,
            ContentGraphicsLimitKind::DashRetainedBytes => self.config.max_dash_retained_bytes,
        };
        let admitted = match consumed.checked_add(attempted) {
            Some(next) => next <= limit,
            None => false,
        };
        if !admitted {
            return Err(
                ContentVmError::graphics_resource(
                    ContentGraphicsLimit::new(kind, limit, consumed, attempted),
                    source,
                ),
            );
        }
        Ok(())
    }
}

impl Default for ContentGraphicsLimits {
    fn default() -> (limits: Self)
        ensures
            limits@ == default_graphics_config(),
    {
        let config = ContentGraphicsLimitConfig::default();
        Self { config }
    }
}

/// The built-in profile passes validation.
pub proof fn default_graphics_config_is_admissible()
    ensures
        default_graphics_config().admissible(),
{
}

/// Each graphics budget is checked by itself: one that is exchanged is admitted exactly where it is
/// positive and not above its own ceiling, whatever the others are.
pub proof fn graphics_budgets_are_checked_one_by_one(
    config: ContentGraphicsLimitConfig,
    other: ContentGraphicsLimitConfig,
)
    requires
        config.admissible(),
    ensures
        (ContentGraphicsLimitConfig {
            max_path_segments: other.max_path_segments,
            ..config
        }).admissible() <==> 0 < other.max_path_segments <= HARD_MAX_PATH_SEGMENTS,
        (ContentGraphicsLimitConfig {
            max_path_retained_bytes: other.max_path_retained_bytes,
            ..config
        }).admissible() <==> 0 < other.max_path_retained_bytes <= HARD_MAX_PATH_RETAINED_BYTES,
        (ContentGraphicsLimitConfig {
            max_dash_entries: other.max_dash_entries,
            ..config
        }).admissible() <==> 0 < other.max_dash_entries <= HARD_MAX_DASH_ENTRIES,
        (ContentGraphicsLimitConfig {
            max_dash_retained_bytes: other.max_dash_retained_bytes,
            ..config
        }).admissible() <==> 0 < other.max_dash_retained_bytes <= HARD_MAX_DASH_RETAINED_BYTES,
{
}

} // verus!
