//! Deterministic scanner budgets.

use vstd::prelude::*;

use crate::content::error::{content_failure, ContentError, ContentErrorCode};

verus! {

pub const HARD_MAX_STREAMS: u32 = 65_536;

pub const HARD_MAX_TOTAL_DECODED_BYTES: u64 = 1024 * 1024 * 1024;

pub const HARD_MAX_TOKENS: u64 = 100_000_000;

pub const HARD_MAX_TOKEN_BYTES: u64 = 64 * 1024 * 1024;

pub const HARD_MAX_OPERANDS_PER_OPERATOR: u32 = 1_000_000;

pub const HARD_MAX_NESTING_DEPTH: u16 = 256;

pub const HARD_MAX_OPERATORS: u64 = 50_000_000;

pub const HARD_MAX_FUEL: u64 = 4 * 1024 * 1024 * 1024;

pub const HARD_MAX_RETAINED_BYTES: u64 = 2 * 1024 * 1024 * 1024;

/// Unvalidated scanner budgets.
#[derive(Clone, Copy, Debug, PartialEq, Eq, Structural)]
pub struct ContentLimitConfig {
    /// Maximum ordered decoded streams.
    pub max_streams: u32,
    /// Maximum aggregate decoded bytes.
    pub max_total_decoded_bytes: u64,
    /// Maximum lexical tokens.
    pub max_tokens: u64,
    /// Maximum raw bytes in one lexical token.
    pub max_token_bytes: u64,
    /// Maximum top-level operands preceding one operator.
    pub max_operands_per_operator: u32,
    /// Maximum array/dictionary nesting.
    pub max_nesting_depth: u16,
    /// Maximum published operators.
    pub max_operators: u64,
    /// Maximum deterministic work units.
    pub max_fuel: u64,
    /// Maximum allocator-reported owned capacity.
    pub max_retained_bytes: u64,
}

impl ContentLimitConfig {
    /// Whether every budget is positive and below its ceiling.
    pub open spec fn admissible(self) -> bool {
        &&& 0 < self.max_streams <= HARD_MAX_STREAMS
        &&& 0 < self.max_total_decoded_bytes <= HARD_MAX_TOTAL_DECODED_BYTES
        &&& 0 < self.max_tokens <= HARD_MAX_TOKENS
        &&& 0 < self.max_token_bytes <= HARD_MAX_TOKEN_BYTES
        &&& 0 < self.max_operands_per_operator <= HARD_MAX_OPERANDS_PER_OPERATOR
        &&& 0 < self.max_nesting_depth <= HARD_MAX_NESTING_DEPTH
        &&& 0 < self.max_operators <= HARD_MAX_OPERATORS
        &&& 0 < self.max_fuel <= HARD_MAX_FUEL
        &&& 0 < self.max_retained_bytes <= HARD_MAX_RETAINED_BYTES
    }
}

/// The built-in scanner profile.
pub open spec fn default_content_config() -> ContentLimitConfig {
    ContentLimitConfig {
        max_streams: 4096,
        max_total_decoded_bytes: 268_435_456,
        max_tokens: 16_000_000,
        max_token_bytes: 16_777_216,
        max_operands_per_operator: 65_536,
        max_nesting_depth: 64,
        max_operators: 4_000_000,
        max_fuel: 1_073_741_824,
        max_retained_bytes: 536_870_912,
    }
}

impl Default for ContentLimitConfig {
    fn default() -> (config: Self)
        ensures
            config == default_content_config(),
    {
        Self {
            max_streams: 4096,
            max_total_decoded_bytes: 256 * 1024 * 1024,
            max_tokens: 16_000_000,
            max_token_bytes: 16 * 1024 * 1024,
            max_operands_per_operator: 65_536,
            max_nesting_depth: 64,
            max_operators: 4_000_000,
            max_fuel: 1024 * 1024 * 1024,
            max_retained_bytes: 512 * 1024 * 1024,
        }
    }
}

/// Validated scanner budgets.
#[derive(Clone, Copy, Debug, PartialEq, Eq, Structural)]
pub struct ContentLimits {
    config: ContentLimitConfig,
}

impl View for ContentLimits {
    type V = ContentLimitConfig;

    closed spec fn view(&self) -> ContentLimitConfig {
        self.config
    }
}

impl ContentLimits {
    /// Validated limits are admissible.
    #[verifier::type_invariant]
    pub closed spec fn well_formed(self) -> bool {
        self.config.admissible()
    }

    /// Validates every budget against its fixed ceiling.
    pub fn validate(config: ContentLimitConfig) -> (limits: Result<Self, ContentError>)
        ensures
            limits is Ok <==> config.admissible(),
            limits matches Ok(value) ==> value@ == config,
            limits matches Err(error) ==> error == content_failure(
                ContentErrorCode::InvalidLimits,
                None,
            ),
    {
        if config.max_streams == 0 || config.max_streams > HARD_MAX_STREAMS
            || config.max_total_decoded_bytes == 0 || config.max_total_decoded_bytes
            > HARD_MAX_TOTAL_DECODED_BYTES || config.max_tokens == 0 || config.max_tokens
            > HARD_MAX_TOKENS || config.max_token_bytes == 0 || config.max_token_bytes
            > HARD_MAX_TOKEN_BYTES || config.max_operands_per_operator == 0
            || config.max_operands_per_operator > HARD_MAX_OPERANDS_PER_OPERATOR
            || config.max_nesting_depth == 0 || config.max_nesting_depth > HARD_MAX_NESTING_DEPTH
            || config.max_operators == 0 || config.max_operators > HARD_MAX_OPERATORS
            || config.max_fuel == 0 || config.max_fuel > HARD_MAX_FUEL
            || config.max_retained_bytes == 0 || config.max_retained_bytes
            > HARD_MAX_RETAINED_BYTES {
            return Err(ContentError::for_code(ContentErrorCode::InvalidLimits, None));
        }
        Ok(Self { config })
    }

    /// Returns the ordered stream ceiling.
    pub fn max_streams(self) -> (value: u32)
        ensures
            value == self@.max_streams,
            self@.admissible(),
    {
        proof {
            use_type_invariant(self);
        }
        self.config.max_streams
    }

    /// Returns the aggregate decoded byte ceiling.
    pub fn max_total_decoded_bytes(self) -> (value: u64)
        ensures
            value == self@.max_total_decoded_bytes,
            self@.admissible(),
    {
        proof {
            use_type_invariant(self);
        }
        self.config.max_total_decoded_bytes
    }

    /// Returns the lexical token ceiling.
    pub fn max_tokens(self) -> (value: u64)
        ensures
            value == self@.max_tokens,
            self@.admissible(),
    {
        proof {
            use_type_invariant(self);
        }
        self.config.max_tokens
    }

    /// Returns the raw token byte ceiling.
    pub fn max_token_bytes(self) -> (value: u64)
        ensures
            value == self@.max_token_bytes,
            self@.admissible(),
    {
        proof {
            use_type_invariant(self);
        }
        self.config.max_token_bytes
    }

    /// Returns the operand-group ceiling.
    pub fn max_operands_per_operator(self) -> (value: u32)
        ensures
            value == self@.max_operands_per_operator,
            self@.admissible(),
    {
        proof {
            use_type_invariant(self);
        }
        self.config.max_operands_per_operator
    }

    /// Returns the nesting ceiling.
    pub fn max_nesting_depth(self) -> (value: u16)
        ensures
            value == self@.max_nesting_depth,
            self@.admissible(),
    {
        proof {
            use_type_invariant(self);
        }
        self.config.max_nesting_depth
    }

    /// Returns the published operator ceiling.
    pub fn max_operators(self) -> (value: u64)
        ensures
            value == self@.max_operators,
            self@.admissible(),
    {
        proof {
            use_type_invariant(self);
        }
        self.config.max_operators
    }

    /// Returns the work unit ceiling.
    pub fn max_fuel(self) -> (value: u64)
        ensures
            value == self@.max_fuel,
            self@.admissible(),
    {
        proof {
            use_type_invariant(self);
        }
        self.config.max_fuel
    }

    /// Returns the retained capacity ceiling.
    pub fn max_retained_bytes(self) -> (value: u64)
        ensures
            value == self@.max_retained_bytes,
            self@.admissible(),
    {
        proof {
            use_type_invariant(self);
        }
        self.config.max_retained_bytes
    }
}

impl Default for ContentLimits {
    fn default() -> (limits: Self)
        ensures
            limits@ == default_content_config(),
    {
        let config = ContentLimitConfig::default();
        Self { config }
    }
}

/// The built-in scanner profile passes validation.
pub proof fn default_content_config_is_admissible()
    ensures
        default_content_config().admissible(),
{
}

/// Each scan budget is checked by itself: one that is exchanged is admitted exactly where it is
/// positive and not above its own ceiling, whatever the others are.
pub proof fn scan_budgets_are_checked_one_by_one(
    config: ContentLimitConfig,
    other: ContentLimitConfig,
)
    requires
        config.admissible(),
    ensures
        (ContentLimitConfig {
            max_streams: other.max_streams,
            ..config
        }).admissible() <==> 0 < other.max_streams <= HARD_MAX_STREAMS,
        (ContentLimitConfig {
            max_total_decoded_bytes: other.max_total_decoded_bytes,
            ..config
        }).admissible() <==> 0 < other.max_total_decoded_bytes <= HARD_MAX_TOTAL_DECODED_BYTES,
        (ContentLimitConfig {
            max_tokens: other.max_tokens,
            ..config
        }).admissible() <==> 0 < other.max_tokens <= HARD_MAX_TOKENS,
        (ContentLimitConfig {
            max_token_bytes: other.max_token_bytes,
            ..config
        }).admissible() <==> 0 < other.max_token_bytes <= HARD_MAX_TOKEN_BYTES,
        (ContentLimitConfig {
            max_operands_per_operator: other.max_operands_per_operator,
            ..config
        }).admissible() <==> 0 < other.max_operands_per_operator <= HARD_MAX_OPERANDS_PER_OPERATOR,
        (ContentLimitConfig {
            max_nesting_depth: other.max_nesting_depth,
            ..config
        }).admissible() <==> 0 < other.max_nesting_depth <= HARD_MAX_NESTING_DEPTH,
        (ContentLimitConfig {
            max_operators: other.max_operators,
            ..config
        }).admissible() <==> 0 < other.max_operators <= HARD_MAX_OPERATORS,
        (ContentLimitConfig {
            max_fuel: other.max_fuel,
            ..config
        }).admissible() <==> 0 < other.max_fuel <= HARD_MAX_FUEL,
        (ContentLimitConfig {
            max_retained_bytes: other.max_retained_bytes,
            ..config
        }).admissible() <==> 0 < other.max_retained_bytes <= HARD_MAX_RETAINED_BYTES,
{
}

} // verus!
