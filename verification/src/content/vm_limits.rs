//! Interpreter budgets of one interpretation.

use vstd::prelude::*;

use crate::content::model::ContentOperatorSource;
use crate::content::vm_error::{
    vm_failure_of, vm_resource, ContentVmError, ContentVmErrorCode, ContentVmLimit,
    ContentVmLimitContext, ContentVmLimitKind,
};

verus! {

pub const HARD_MAX_OPERATORS: u64 = 50_000_000;

pub const HARD_MAX_FUEL: u64 = 4 * 1024 * 1024 * 1024;

pub const HARD_MAX_GRAPHICS_STATE_DEPTH: u64 = 65_536;

pub const HARD_MAX_COMPATIBILITY_DEPTH: u64 = 65_536;

pub const HARD_MAX_MARKED_CONTENT_DEPTH: u64 = 65_536;

pub const HARD_MAX_PROPERTY_USES: u64 = 50_000_000;

pub const HARD_MAX_RETAINED_BYTES: u64 = 4 * 1024 * 1024 * 1024;

/// Unvalidated interpreter limits of one content interpretation.
#[derive(Clone, Copy, Debug, PartialEq, Eq, Structural)]
pub struct ContentVmLimitConfig {
    /// Maximum executed operators.
    pub max_operators: u64,
    /// Maximum deterministic work units.
    pub max_fuel: u64,
    /// Maximum saved graphics states.
    pub max_graphics_state_depth: u64,
    /// Maximum nested compatibility sections.
    pub max_compatibility_depth: u64,
    /// Maximum nested marked-content sequences.
    pub max_marked_content_depth: u64,
    /// Maximum resolved marked-content properties.
    pub max_property_uses: u64,
    /// Maximum allocator-reported live capacity.
    pub max_retained_bytes: u64,
}

impl ContentVmLimitConfig {
    /// Whether every budget is positive and below its ceiling.
    pub open spec fn admissible(self) -> bool {
        &&& 0 < self.max_operators <= HARD_MAX_OPERATORS
        &&& 0 < self.max_fuel <= HARD_MAX_FUEL
        &&& 0 < self.max_graphics_state_depth <= HARD_MAX_GRAPHICS_STATE_DEPTH
        &&& 0 < self.max_compatibility_depth <= HARD_MAX_COMPATIBILITY_DEPTH
        &&& 0 < self.max_marked_content_depth <= HARD_MAX_MARKED_CONTENT_DEPTH
        &&& 0 < self.max_property_uses <= HARD_MAX_PROPERTY_USES
        &&& 0 < self.max_retained_bytes <= HARD_MAX_RETAINED_BYTES
    }

    /// The budget that a kind is held to.
    pub open spec fn budget(self, kind: ContentVmLimitKind) -> u64 {
        match kind {
            ContentVmLimitKind::Operators => self.max_operators,
            ContentVmLimitKind::Fuel => self.max_fuel,
            ContentVmLimitKind::GraphicsStateDepth => self.max_graphics_state_depth,
            ContentVmLimitKind::CompatibilityDepth => self.max_compatibility_depth,
            ContentVmLimitKind::MarkedContentDepth => self.max_marked_content_depth,
            ContentVmLimitKind::PropertyUses => self.max_property_uses,
            ContentVmLimitKind::RetainedBytes => self.max_retained_bytes,
            ContentVmLimitKind::Allocation => self.max_retained_bytes,
        }
    }
}

/// The built-in profile.
pub open spec fn default_vm_config() -> ContentVmLimitConfig {
    ContentVmLimitConfig {
        max_operators: 4000000,
        max_fuel: 1073741824,
        max_graphics_state_depth: 1024,
        max_compatibility_depth: 1024,
        max_marked_content_depth: 1024,
        max_property_uses: 1000000,
        max_retained_bytes: 1073741824,
    }
}

impl Default for ContentVmLimitConfig {
    fn default() -> (config: Self)
        ensures
            config == default_vm_config(),
    {
        Self {
            max_operators: 4_000_000,
            max_fuel: 1024 * 1024 * 1024,
            max_graphics_state_depth: 1024,
            max_compatibility_depth: 1024,
            max_marked_content_depth: 1024,
            max_property_uses: 1_000_000,
            max_retained_bytes: 1024 * 1024 * 1024,
        }
    }
}

/// Validated interpreter limits of one content interpretation.
#[derive(Clone, Copy, Debug, PartialEq, Eq, Structural)]
pub struct ContentVmLimits {
    config: ContentVmLimitConfig,
}

impl View for ContentVmLimits {
    type V = ContentVmLimitConfig;

    closed spec fn view(&self) -> ContentVmLimitConfig {
        self.config
    }
}

/// The outcome of holding `attempted` more than `consumed` against a budget.
pub open spec fn vm_preflight(
    config: ContentVmLimitConfig,
    kind: ContentVmLimitKind,
    consumed: u64,
    attempted: u64,
    source: Option<ContentOperatorSource>,
) -> Result<(), ContentVmError> {
    if consumed + attempted <= config.budget(kind) {
        Ok(())
    } else {
        Err(
            vm_resource(
                ContentVmLimitContext::Vm(
                    ContentVmLimit { kind, limit: config.budget(kind), consumed, attempted },
                ),
                source,
            ),
        )
    }
}

impl ContentVmLimits {
    /// Validated limits are admissible.
    #[verifier::type_invariant]
    pub closed spec fn well_formed(self) -> bool {
        self.config.admissible()
    }

    /// Validates every positive budget against its fixed ceiling.
    pub fn validate(config: ContentVmLimitConfig) -> (limits: Result<Self, ContentVmError>)
        ensures
            limits is Ok <==> config.admissible(),
            limits matches Ok(value) ==> value@ == config,
            limits matches Err(error) ==> error == vm_failure_of(
                ContentVmErrorCode::InvalidLimits,
                None,
            ),
    {
        if config.max_operators == 0
            || config.max_operators > HARD_MAX_OPERATORS
            || config.max_fuel == 0
            || config.max_fuel > HARD_MAX_FUEL
            || config.max_graphics_state_depth == 0
            || config.max_graphics_state_depth > HARD_MAX_GRAPHICS_STATE_DEPTH
            || config.max_compatibility_depth == 0
            || config.max_compatibility_depth > HARD_MAX_COMPATIBILITY_DEPTH
            || config.max_marked_content_depth == 0
            || config.max_marked_content_depth > HARD_MAX_MARKED_CONTENT_DEPTH
            || config.max_property_uses == 0
            || config.max_property_uses > HARD_MAX_PROPERTY_USES
            || config.max_retained_bytes == 0
            || config.max_retained_bytes > HARD_MAX_RETAINED_BYTES
        {
            return Err(ContentVmError::new(ContentVmErrorCode::InvalidLimits, None));
        }
        Ok(Self { config })
    }

    /// Returns the executed operator ceiling.
    pub fn max_operators(self) -> (value: u64)
        ensures
            value == self@.max_operators,
            self@.admissible(),
    {
        proof {
            use_type_invariant(self);
        }
        self.config.max_operators
    }

    /// Returns the work unit ceiling.
    pub fn max_fuel(self) -> (value: u64)
        ensures
            value == self@.max_fuel,
            self@.admissible(),
    {
        proof {
            use_type_invariant(self);
        }
        self.config.max_fuel
    }

    /// Returns the saved graphics-state ceiling.
    pub fn max_graphics_state_depth(self) -> (value: u64)
        ensures
            value == self@.max_graphics_state_depth,
            self@.admissible(),
    {
        proof {
            use_type_invariant(self);
        }
        self.config.max_graphics_state_depth
    }

    /// Returns the compatibility nesting ceiling.
    pub fn max_compatibility_depth(self) -> (value: u64)
        ensures
            value == self@.max_compatibility_depth,
            self@.admissible(),
    {
        proof {
            use_type_invariant(self);
        }
        self.config.max_compatibility_depth
    }

    /// Returns the marked-content nesting ceiling.
    pub fn max_marked_content_depth(self) -> (value: u64)
        ensures
            value == self@.max_marked_content_depth,
            self@.admissible(),
    {
        proof {
            use_type_invariant(self);
        }
        self.config.max_marked_content_depth
    }

    /// Returns the property-use ceiling.
    pub fn max_property_uses(self) -> (value: u64)
        ensures
            value == self@.max_property_uses,
            self@.admissible(),
    {
        proof {
            use_type_invariant(self);
        }
        self.config.max_property_uses
    }

    /// Returns the live retained-capacity ceiling.
    pub fn max_retained_bytes(self) -> (value: u64)
        ensures
            value == self@.max_retained_bytes,
            self@.admissible(),
    {
        proof {
            use_type_invariant(self);
        }
        self.config.max_retained_bytes
    }

    /// Holds `attempted` more than `consumed` against the budget of a kind.
    pub fn preflight(
        self,
        kind: ContentVmLimitKind,
        consumed: u64,
        attempted: u64,
        source: Option<ContentOperatorSource>,
    ) -> (result: Result<(), ContentVmError>)
        ensures
            result == vm_preflight(self@, kind, consumed, attempted, source),
            self@.admissible(),
    {
        proof {
            use_type_invariant(self);
        }
        let limit: u64 = match kind {
            ContentVmLimitKind::Operators => self.config.max_operators,
            ContentVmLimitKind::Fuel => self.config.max_fuel,
            ContentVmLimitKind::GraphicsStateDepth => self.config.max_graphics_state_depth,
            ContentVmLimitKind::CompatibilityDepth => self.config.max_compatibility_depth,
            ContentVmLimitKind::MarkedContentDepth => self.config.max_marked_content_depth,
            ContentVmLimitKind::PropertyUses => self.config.max_property_uses,
            ContentVmLimitKind::RetainedBytes => self.config.max_retained_bytes,
            ContentVmLimitKind::Allocation => self.config.max_retained_bytes,
        };
        let admitted = match consumed.checked_add(attempted) {
            Some(next) => next <= limit,
            None => false,
        };
        if !admitted {
            return Err(
                ContentVmError::resource(
                    ContentVmLimit::new(kind, limit, consumed, attempted),
                    source,
                ),
            );
        }
        Ok(())
    }
}

impl Default for ContentVmLimits {
    fn default() -> (limits: Self)
        ensures
            limits@ == default_vm_config(),
    {
        let config = ContentVmLimitConfig::default();
        Self { config }
    }
}

/// The built-in profile passes validation.
pub proof fn default_vm_config_is_admissible()
    ensures
        default_vm_config().admissible(),
{
}

/// Each interpretation budget is checked by itself: one that is exchanged is admitted exactly where
/// it is positive and not above its own ceiling, whatever the others are.
pub proof fn interpretation_budgets_are_checked_one_by_one(
    config: ContentVmLimitConfig,
    other: ContentVmLimitConfig,
)
    requires
        config.admissible(),
    ensures
        (ContentVmLimitConfig {
            max_operators: other.max_operators,
            ..config
        }).admissible() <==> 0 < other.max_operators <= HARD_MAX_OPERATORS,
        (ContentVmLimitConfig {
            max_fuel: other.max_fuel,
            ..config
        }).admissible() <==> 0 < other.max_fuel <= HARD_MAX_FUEL,
        (ContentVmLimitConfig {
            max_graphics_state_depth: other.max_graphics_state_depth,
            ..config
        }).admissible() <==> 0 < other.max_graphics_state_depth <= HARD_MAX_GRAPHICS_STATE_DEPTH,
        (ContentVmLimitConfig {
            max_compatibility_depth: other.max_compatibility_depth,
            ..config
        }).admissible() <==> 0 < other.max_compatibility_depth <= HARD_MAX_COMPATIBILITY_DEPTH,
        (ContentVmLimitConfig {
            max_marked_content_depth: other.max_marked_content_depth,
            ..config
        }).admissible() <==> 0 < other.max_marked_content_depth <= HARD_MAX_MARKED_CONTENT_DEPTH,
        (ContentVmLimitConfig {
            max_property_uses: other.max_property_uses,
            ..config
        }).admissible() <==> 0 < other.max_property_uses <= HARD_MAX_PROPERTY_USES,
        (ContentVmLimitConfig {
            max_retained_bytes: other.max_retained_bytes,
            ..config
        }).admissible() <==> 0 < other.max_retained_bytes <= HARD_MAX_RETAINED_BYTES,
{
}

} // verus!
