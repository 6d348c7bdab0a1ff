//! Deterministic range-store budgets.

use vstd::prelude::*;

use crate::bytes::error::{source_failure, SourceError, SourceErrorCode};

verus! {

pub const HARD_MAX_INPUT_BYTES: u64 = 1024 * 1024 * 1024;

pub const HARD_MAX_READ_BYTES: u64 = 16 * 1024 * 1024;

pub const HARD_MAX_CACHED_BYTES: u64 = 64 * 1024 * 1024;

pub const HARD_MAX_RESIDENT_BYTES: u64 = 128 * 1024 * 1024;

pub const HARD_MAX_SEGMENTS: usize = 4096;

pub const HARD_MAX_TICKETS: usize = 4096;

pub const HARD_MAX_SUBSCRIBERS_PER_TICKET: usize = 4096;

pub const HARD_MAX_TOTAL_SUBSCRIPTIONS: usize = 16_384;

pub const HARD_MAX_MISSING_RANGES: usize = 256;

/// Unvalidated range-store resource-limit input.
#[derive(Clone, Copy, Debug, PartialEq, Eq, Structural)]
pub struct RangeStoreLimitConfig {
    /// Maximum immutable source length accepted by this store profile.
    pub max_input_bytes: u64,
    /// Maximum exact request or supplied response range.
    pub max_read_bytes: u64,
    /// Maximum unique source bytes retained after an operation.
    pub max_cached_bytes: u64,
    /// Maximum retained plus in-flight/coalescing bytes during an operation.
    pub max_resident_bytes: u64,
    /// Maximum disjoint cached backing segments.
    pub max_segments: usize,
    /// Maximum retained pending and terminal tickets.
    pub max_tickets: usize,
    /// Maximum job/checkpoint subscribers on one ticket.
    pub max_subscribers_per_ticket: usize,
    /// Maximum subscriptions retained across all tickets.
    pub max_total_subscriptions: usize,
    /// Maximum disjoint missing ranges emitted for one ticket.
    pub max_missing_ranges: usize,
}

impl RangeStoreLimitConfig {
    /// Whether every budget is positive, below its ceiling, and consistent with the others.
    pub open spec fn admissible(self) -> bool {
        &&& 0 < self.max_read_bytes <= self.max_input_bytes <= HARD_MAX_INPUT_BYTES
        &&& self.max_read_bytes <= HARD_MAX_READ_BYTES
        &&& self.max_read_bytes <= self.max_cached_bytes <= HARD_MAX_CACHED_BYTES
        &&& self.max_cached_bytes <= self.max_resident_bytes <= HARD_MAX_RESIDENT_BYTES
        &&& 0 < self.max_segments <= HARD_MAX_SEGMENTS
        &&& 0 < self.max_tickets <= HARD_MAX_TICKETS
        &&& 0 < self.max_subscribers_per_ticket <= HARD_MAX_SUBSCRIBERS_PER_TICKET
        &&& 0 < self.max_total_subscriptions <= HARD_MAX_TOTAL_SUBSCRIPTIONS
        &&& 0 < self.max_missing_ranges <= HARD_MAX_MISSING_RANGES
    }
}

/// The built-in budget profile.
pub open spec fn default_range_store_config() -> RangeStoreLimitConfig {
    RangeStoreLimitConfig {
        max_input_bytes: 268_435_456,
        max_read_bytes: 1_048_576,
        max_cached_bytes: 16_777_216,
        max_resident_bytes: 50_331_648,
        max_segments: 256,
        max_tickets: 256,
        max_subscribers_per_ticket: 256,
        max_total_subscriptions: 1024,
        max_missing_ranges: 64,
    }
}

impl Default for RangeStoreLimitConfig {
    fn default() -> (config: Self)
        ensures
            config == default_range_store_config(),
    {
        Self {
            max_input_bytes: 256 * 1024 * 1024,
            max_read_bytes: 1024 * 1024,
            max_cached_bytes: 16 * 1024 * 1024,
            max_resident_bytes: 48 * 1024 * 1024,
            max_segments: 256,
            max_tickets: 256,
            max_subscribers_per_ticket: 256,
            max_total_subscriptions: 1024,
            max_missing_ranges: 64,
        }
    }
}

/// Validated deterministic per-store limits below fixed implementation ceilings.
#[derive(Clone, Copy, Debug, PartialEq, Eq, Structural)]
pub struct RangeStoreLimits {
    config: RangeStoreLimitConfig,
}

impl View for RangeStoreLimits {
    type V = RangeStoreLimitConfig;

    closed spec fn view(&self) -> RangeStoreLimitConfig {
        self.config
    }
}

impl RangeStoreLimits {
    /// Validated limits are admissible.
    #[verifier::type_invariant]
    pub closed spec fn well_formed(self) -> bool {
        self.config.admissible()
    }

    /// Validates a complete range-store budget profile.
    pub fn validate(config: RangeStoreLimitConfig) -> (limits: Result<Self, SourceError>)
        ensures
            limits is Ok <==> config.admissible(),
            limits matches Ok(value) ==> value@ == config,
            limits matches Err(error) ==> error == source_failure(SourceErrorCode::InvalidLimits),
    {
        if config.max_input_bytes == 0 || config.max_input_bytes > HARD_MAX_INPUT_BYTES
            || config.max_read_bytes == 0 || config.max_read_bytes > HARD_MAX_READ_BYTES
            || config.max_read_bytes > config.max_input_bytes || config.max_cached_bytes
            < config.max_read_bytes || config.max_cached_bytes > HARD_MAX_CACHED_BYTES
            || config.max_resident_bytes < config.max_cached_bytes || config.max_resident_bytes
            > HARD_MAX_RESIDENT_BYTES || config.max_segments == 0 || config.max_segments
            > HARD_MAX_SEGMENTS || config.max_tickets == 0 || config.max_tickets > HARD_MAX_TICKETS
            || config.max_subscribers_per_ticket == 0 || config.max_subscribers_per_ticket
            > HARD_MAX_SUBSCRIBERS_PER_TICKET || config.max_total_subscriptions == 0
            || config.max_total_subscriptions > HARD_MAX_TOTAL_SUBSCRIPTIONS
            || config.max_missing_ranges == 0 || config.max_missing_ranges
            > HARD_MAX_MISSING_RANGES {
            return Err(SourceError::for_code(SourceErrorCode::InvalidLimits));
        }
        Ok(Self { config })
    }

    /// Returns the maximum immutable source length.
    pub fn max_input_bytes(self) -> (value: u64)
        ensures
            value == self@.max_input_bytes,
            self@.admissible(),
    {
        proof {
            use_type_invariant(self);
        }
        self.config.max_input_bytes
    }

    /// Returns the maximum exact read request size.
    pub fn max_read_bytes(self) -> (value: u64)
        ensures
            value == self@.max_read_bytes,
    {
        self.config.max_read_bytes
    }

    /// Returns the maximum total cached source bytes.
    pub fn max_cached_bytes(self) -> (value: u64)
        ensures
            value == self@.max_cached_bytes,
    {
        self.config.max_cached_bytes
    }

    /// Returns the maximum retained plus in-flight/coalescing bytes.
    pub fn max_resident_bytes(self) -> (value: u64)
        ensures
            value == self@.max_resident_bytes,
    {
        self.config.max_resident_bytes
    }

    /// Returns the maximum number of disjoint cached segments.
    pub fn max_segments(self) -> (value: usize)
        ensures
            value == self@.max_segments,
    {
        self.config.max_segments
    }

    /// Returns the maximum number of retained pending and terminal tickets.
    pub fn max_tickets(self) -> (value: usize)
        ensures
            value == self@.max_tickets,
    {
        self.config.max_tickets
    }

    /// Returns the maximum number of job/checkpoint subscribers per ticket.
    pub fn max_subscribers_per_ticket(self) -> (value: usize)
        ensures
            value == self@.max_subscribers_per_ticket,
    {
        self.config.max_subscribers_per_ticket
    }

    /// Returns the maximum number of subscriptions retained across all tickets.
    pub fn max_total_subscriptions(self) -> (value: usize)
        ensures
            value == self@.max_total_subscriptions,
    {
        self.config.max_total_subscriptions
    }

    /// Returns the maximum number of disjoint ranges in one pending result.
    pub fn max_missing_ranges(self) -> (value: usize)
        ensures
            value == self@.max_missing_ranges,
    {
        self.config.max_missing_ranges
    }
}

impl Default for RangeStoreLimits {
    fn default() -> (limits: Self)
        ensures
            limits@ == default_range_store_config(),
    {
        let config = RangeStoreLimitConfig::default();
        Self { config }
    }
}

/// The built-in profile passes validation.
pub proof fn default_range_store_config_is_admissible()
    ensures
        default_range_store_config().admissible(),
{
}

/// Each count is checked by itself, and the byte budgets are checked against each other: a read
/// fits the source and the cache, and the cache fits what is resident.
pub proof fn store_budgets_are_checked_one_by_one(
    config: RangeStoreLimitConfig,
    other: RangeStoreLimitConfig,
)
    requires
        config.admissible(),
    ensures
        (RangeStoreLimitConfig {
            max_segments: other.max_segments,
            ..config
        }).admissible() <==> 0 < other.max_segments <= HARD_MAX_SEGMENTS,
        (RangeStoreLimitConfig {
            max_tickets: other.max_tickets,
            ..config
        }).admissible() <==> 0 < other.max_tickets <= HARD_MAX_TICKETS,
        (RangeStoreLimitConfig {
            max_subscribers_per_ticket: other.max_subscribers_per_ticket,
            ..config
        }).admissible() <==> 0 < other.max_subscribers_per_ticket <= HARD_MAX_SUBSCRIBERS_PER_TICKET,
        (RangeStoreLimitConfig {
            max_total_subscriptions: other.max_total_subscriptions,
            ..config
        }).admissible() <==> 0 < other.max_total_subscriptions <= HARD_MAX_TOTAL_SUBSCRIPTIONS,
        (RangeStoreLimitConfig {
            max_missing_ranges: other.max_missing_ranges,
            ..config
        }).admissible() <==> 0 < other.max_missing_ranges <= HARD_MAX_MISSING_RANGES,
        (RangeStoreLimitConfig {
            max_input_bytes: other.max_input_bytes,
            ..config
        }).admissible() <==> config.max_read_bytes <= other.max_input_bytes <= HARD_MAX_INPUT_BYTES,
        (RangeStoreLimitConfig {
            max_read_bytes: other.max_read_bytes,
            ..config
        }).admissible() <==> 0 < other.max_read_bytes <= HARD_MAX_READ_BYTES && other.max_read_bytes
            <= config.max_input_bytes && other.max_read_bytes <= config.max_cached_bytes,
        (RangeStoreLimitConfig {
            max_cached_bytes: other.max_cached_bytes,
            ..config
        }).admissible() <==> config.max_read_bytes <= other.max_cached_bytes <= config.max_resident_bytes
            && other.max_cached_bytes <= HARD_MAX_CACHED_BYTES,
        (RangeStoreLimitConfig {
            max_resident_bytes: other.max_resident_bytes,
            ..config
        }).admissible() <==> config.max_cached_bytes <= other.max_resident_bytes <= HARD_MAX_RESIDENT_BYTES,
{
}

} // verus!
