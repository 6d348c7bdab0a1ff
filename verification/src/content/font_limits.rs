//! Aggregate font and text budgets of one interpretation.

use vstd::prelude::*;

use crate::content::model::ContentOperatorSource;
use crate::content::vm_error::{
    vm_failure_of, vm_resource, ContentFontLimit, ContentFontLimitKind, ContentVmError,
    ContentVmErrorCode, ContentVmLimitContext,
};

verus! {

pub const HARD_MAX_FONT_USES: u64 = 50_000_000;

pub const HARD_MAX_UNIQUE_FONTS: u64 = 1_000_000;

pub const HARD_MAX_RESOURCE_RETAINED_BYTES: u64 = 4 * 1024 * 1024 * 1024;

pub const HARD_MAX_GLYPHS: u64 = 100_000_000;

pub const HARD_MAX_OUTLINE_SEGMENTS: u64 = 500_000_000;

pub const HARD_MAX_GLYPH_RETAINED_BYTES: u64 = 2 * 1024 * 1024 * 1024;

pub const HARD_MAX_TEXT_BYTES: u64 = 2 * 1024 * 1024 * 1024;

pub const HARD_MAX_TEXT_ADJUSTMENTS: u64 = 100_000_000;

pub const HARD_MAX_PLANNING_OPERATORS: u64 = 100_000_000;

pub const HARD_MAX_CACHE_PROBES: u64 = 100_000_000;

pub const HARD_MAX_PLAN_RETAINED_BYTES: u64 = 2 * 1024 * 1024 * 1024;

pub const HARD_MAX_CACHE_RETAINED_BYTES: u64 = 2 * 1024 * 1024 * 1024;

pub const HARD_MAX_ACQUISITION_POLLS: u64 = 50_000_000;

/// Unvalidated aggregate limits for embedded fonts and text used by one content interpretation.
#[derive(Clone, Copy, Debug, PartialEq, Eq, Structural)]
pub struct ContentFontLimitConfig {
    /// Maximum executed `Tf` font selections.
    pub max_font_uses: u64,
    /// Maximum distinct proof-bound embedded fonts.
    pub max_unique_fonts: u64,
    /// Maximum aggregate retained bytes across acquired proof-bound fonts.
    pub max_resource_retained_bytes: u64,
    /// Maximum printable character codes expanded into positioned glyphs.
    pub max_glyphs: u64,
    /// Maximum aggregate outline segments copied into scene glyph resources.
    pub max_outline_segments: u64,
    /// Maximum allocator-reported glyphs and outlines live before one scene handoff.
    pub max_glyph_retained_bytes: u64,
    /// Maximum decoded printable string bytes retained by the semantic plan.
    pub max_text_bytes: u64,
    /// Maximum numeric `TJ` adjustments retained by the semantic plan.
    pub max_text_adjustments: u64,
    /// Maximum operators inspected by the one text-planning pass.
    pub max_planning_operators: u64,
    /// Maximum exact-font-cache key comparisons.
    pub max_cache_probes: u64,
    /// Maximum allocator-reported text/operator/proof planning capacity.
    pub max_plan_retained_bytes: u64,
    /// Maximum allocator-reported exact-font-cache metadata capacity.
    pub max_cache_retained_bytes: u64,
    /// Maximum calls admitted into lower font acquisition jobs.
    pub max_acquisition_polls: u64,
}

impl ContentFontLimitConfig {
    /// Whether every budget is positive and below its ceiling.
    pub open spec fn admissible(self) -> bool {
        &&& 0 < self.max_font_uses <= HARD_MAX_FONT_USES
        &&& 0 < self.max_unique_fonts <= HARD_MAX_UNIQUE_FONTS
        &&& 0 < self.max_resource_retained_bytes <= HARD_MAX_RESOURCE_RETAINED_BYTES
        &&& 0 < self.max_glyphs <= HARD_MAX_GLYPHS
        &&& 0 < self.max_outline_segments <= HARD_MAX_OUTLINE_SEGMENTS
        &&& 0 < self.max_glyph_retained_bytes <= HARD_MAX_GLYPH_RETAINED_BYTES
        &&& 0 < self.max_text_bytes <= HARD_MAX_TEXT_BYTES
        &&& 0 < self.max_text_adjustments <= HARD_MAX_TEXT_ADJUSTMENTS
        &&& 0 < self.max_planning_operators <= HARD_MAX_PLANNING_OPERATORS
        &&& 0 < self.max_cache_probes <= HARD_MAX_CACHE_PROBES
        &&& 0 < self.max_plan_retained_bytes <= HARD_MAX_PLAN_RETAINED_BYTES
        &&& 0 < self.max_cache_retained_bytes <= HARD_MAX_CACHE_RETAINED_BYTES
        &&& 0 < self.max_acquisition_polls <= HARD_MAX_ACQUISITION_POLLS
    }

    /// The budget that a kind is held to.
    pub open spec fn budget(self, kind: ContentFontLimitKind) -> u64 {
        match kind {
            ContentFontLimitKind::FontUses => self.max_font_uses,
            ContentFontLimitKind::UniqueFonts => self.max_unique_fonts,
            ContentFontLimitKind::ResourceRetainedBytes => self.max_resource_retained_bytes,
            ContentFontLimitKind::Glyphs => self.max_glyphs,
            ContentFontLimitKind::OutlineSegments => self.max_outline_segments,
            ContentFontLimitKind::GlyphRetainedBytes => self.max_glyph_retained_bytes,
            ContentFontLimitKind::GlyphAllocation => self.max_glyph_retained_bytes,
            ContentFontLimitKind::TextBytes => self.max_text_bytes,
            ContentFontLimitKind::TextAdjustments => self.max_text_adjustments,
            ContentFontLimitKind::PlanningOperators => self.max_planning_operators,
            ContentFontLimitKind::CacheProbes => self.max_cache_probes,
            ContentFontLimitKind::PlanRetainedBytes => self.max_plan_retained_bytes,
            ContentFontLimitKind::PlanAllocation => self.max_plan_retained_bytes,
            ContentFontLimitKind::CacheRetainedBytes => self.max_cache_retained_bytes,
            ContentFontLimitKind::CacheAllocation => self.max_cache_retained_bytes,
            ContentFontLimitKind::AcquisitionPolls => self.max_acquisition_polls,
        }
    }
}

/// The built-in profile.
pub open spec fn default_font_config() -> ContentFontLimitConfig {
    ContentFontLimitConfig {
        max_font_uses: 1000000,
        max_unique_fonts: 65536,
        max_resource_retained_bytes: 1073741824,
        max_glyphs: 4000000,
        max_outline_segments: 16000000,
        max_glyph_retained_bytes: 536870912,
        max_text_bytes: 268435456,
        max_text_adjustments: 4000000,
        max_planning_operators: 4000000,
        max_cache_probes: 4000000,
        max_plan_retained_bytes: 268435456,
        max_cache_retained_bytes: 268435456,
        max_acquisition_polls: 1000000,
    }
}

impl Default for ContentFontLimitConfig {
    fn default() -> (config: Self)
        ensures
            config == default_font_config(),
    {
        Self {
            max_font_uses: 1_000_000,
            max_unique_fonts: 65_536,
            max_resource_retained_bytes: 1024 * 1024 * 1024,
            max_glyphs: 4_000_000,
            max_outline_segments: 16_000_000,
            max_glyph_retained_bytes: 512 * 1024 * 1024,
            max_text_bytes: 256 * 1024 * 1024,
            max_text_adjustments: 4_000_000,
            max_planning_operators: 4_000_000,
            max_cache_probes: 4_000_000,
            max_plan_retained_bytes: 256 * 1024 * 1024,
            max_cache_retained_bytes: 256 * 1024 * 1024,
            max_acquisition_polls: 1_000_000,
        }
    }
}

/// Validated aggregate limits for embedded fonts and text used by one content interpretation.
#[derive(Clone, Copy, Debug, PartialEq, Eq, Structural)]
pub struct ContentFontLimits {
    config: ContentFontLimitConfig,
}

impl View for ContentFontLimits {
    type V = ContentFontLimitConfig;

    closed spec fn view(&self) -> ContentFontLimitConfig {
        self.config
    }
}

/// The outcome of holding `attempted` more than `consumed` against a budget.
pub open spec fn font_preflight(
    config: ContentFontLimitConfig,
    kind: ContentFontLimitKind,
    consumed: u64,
    attempted: u64,
    source: Option<ContentOperatorSource>,
) -> Result<(), ContentVmError> {
    if consumed + attempted <= config.budget(kind) {
        Ok(())
    } else {
        Err(
            vm_resource(
                ContentVmLimitContext::Font(
                    ContentFontLimit { kind, limit: config.budget(kind), consumed, attempted },
                ),
                source,
            ),
        )
    }
}

impl ContentFontLimits {
    /// Validated limits are admissible.
    #[verifier::type_invariant]
    pub closed spec fn well_formed(self) -> bool {
        self.config.admissible()
    }

    /// Validates every positive budget against its fixed ceiling.
    pub fn validate(config: ContentFontLimitConfig) -> (limits: Result<Self, ContentVmError>)
        ensures
            limits is Ok <==> config.admissible(),
            limits matches Ok(value) ==> value@ == config,
            limits matches Err(error) ==> error == vm_failure_of(
                ContentVmErrorCode::InvalidLimits,
                None,
            ),
    {
        if config.max_font_uses == 0
            || config.max_font_uses > HARD_MAX_FONT_USES
            || config.max_unique_fonts == 0
            || config.max_unique_fonts > HARD_MAX_UNIQUE_FONTS
            || config.max_resource_retained_bytes == 0
            || config.max_resource_retained_bytes > HARD_MAX_RESOURCE_RETAINED_BYTES
            || config.max_glyphs == 0
            || config.max_glyphs > HARD_MAX_GLYPHS
            || config.max_outline_segments == 0
            || config.max_outline_segments > HARD_MAX_OUTLINE_SEGMENTS
            || config.max_glyph_retained_bytes == 0
            || config.max_glyph_retained_bytes > HARD_MAX_GLYPH_RETAINED_BYTES
            || config.max_text_bytes == 0
            || config.max_text_bytes > HARD_MAX_TEXT_BYTES
            || config.max_text_adjustments == 0
            || config.max_text_adjustments > HARD_MAX_TEXT_ADJUSTMENTS
            || config.max_planning_operators == 0
            || config.max_planning_operators > HARD_MAX_PLANNING_OPERATORS
            || config.max_cache_probes == 0
            || config.max_cache_probes > HARD_MAX_CACHE_PROBES
            || config.max_plan_retained_bytes == 0
            || config.max_plan_retained_bytes > HARD_MAX_PLAN_RETAINED_BYTES
            || config.max_cache_retained_bytes == 0
            || config.max_cache_retained_bytes > HARD_MAX_CACHE_RETAINED_BYTES
            || config.max_acquisition_polls == 0
            || config.max_acquisition_polls > HARD_MAX_ACQUISITION_POLLS
        {
            return Err(ContentVmError::new(ContentVmErrorCode::InvalidLimits, None));
        }
        Ok(Self { config })
    }

    /// Returns the executed `Tf` ceiling.
    pub fn max_font_uses(self) -> (value: u64)
        ensures
            value == self@.max_font_uses,
            self@.admissible(),
    {
        proof {
            use_type_invariant(self);
        }
        self.config.max_font_uses
    }

    /// Returns the distinct embedded-font ceiling.
    pub fn max_unique_fonts(self) -> (value: u64)
        ensures
            value == self@.max_unique_fonts,
            self@.admissible(),
    {
        proof {
            use_type_invariant(self);
        }
        self.config.max_unique_fonts
    }

    /// Returns the aggregate acquired font retention ceiling.
    pub fn max_resource_retained_bytes(self) -> (value: u64)
        ensures
            value == self@.max_resource_retained_bytes,
            self@.admissible(),
    {
        proof {
            use_type_invariant(self);
        }
        self.config.max_resource_retained_bytes
    }

    /// Returns the positioned-glyph ceiling.
    pub fn max_glyphs(self) -> (value: u64)
        ensures
            value == self@.max_glyphs,
            self@.admissible(),
    {
        proof {
            use_type_invariant(self);
        }
        self.config.max_glyphs
    }

    /// Returns the aggregate copied outline-segment ceiling.
    pub fn max_outline_segments(self) -> (value: u64)
        ensures
            value == self@.max_outline_segments,
            self@.admissible(),
    {
        proof {
            use_type_invariant(self);
        }
        self.config.max_outline_segments
    }

    /// Returns the allocator-reported live glyph candidate ceiling.
    pub fn max_glyph_retained_bytes(self) -> (value: u64)
        ensures
            value == self@.max_glyph_retained_bytes,
            self@.admissible(),
    {
        proof {
            use_type_invariant(self);
        }
        self.config.max_glyph_retained_bytes
    }

    /// Returns the decoded printable text-byte ceiling.
    pub fn max_text_bytes(self) -> (value: u64)
        ensures
            value == self@.max_text_bytes,
            self@.admissible(),
    {
        proof {
            use_type_invariant(self);
        }
        self.config.max_text_bytes
    }

    /// Returns the retained `TJ` numeric-adjustment ceiling.
    pub fn max_text_adjustments(self) -> (value: u64)
        ensures
            value == self@.max_text_adjustments,
            self@.admissible(),
    {
        proof {
            use_type_invariant(self);
        }
        self.config.max_text_adjustments
    }

    /// Returns the one-pass text-planning operator ceiling.
    pub fn max_planning_operators(self) -> (value: u64)
        ensures
            value == self@.max_planning_operators,
            self@.admissible(),
    {
        proof {
            use_type_invariant(self);
        }
        self.config.max_planning_operators
    }

    /// Returns the exact-cache comparison ceiling.
    pub fn max_cache_probes(self) -> (value: u64)
        ensures
            value == self@.max_cache_probes,
            self@.admissible(),
    {
        proof {
            use_type_invariant(self);
        }
        self.config.max_cache_probes
    }

    /// Returns the semantic-plan retained-capacity ceiling.
    pub fn max_plan_retained_bytes(self) -> (value: u64)
        ensures
            value == self@.max_plan_retained_bytes,
            self@.admissible(),
    {
        proof {
            use_type_invariant(self);
        }
        self.config.max_plan_retained_bytes
    }

    /// Returns the exact-font-cache retained-capacity ceiling.
    pub fn max_cache_retained_bytes(self) -> (value: u64)
        ensures
            value == self@.max_cache_retained_bytes,
            self@.admissible(),
    {
        proof {
            use_type_invariant(self);
        }
        self.config.max_cache_retained_bytes
    }

    /// Returns the lower acquisition-poll ceiling.
    pub fn max_acquisition_polls(self) -> (value: u64)
        ensures
            value == self@.max_acquisition_polls,
            self@.admissible(),
    {
        proof {
            use_type_invariant(self);
        }
        self.config.max_acquisition_polls
    }

    /// Holds `attempted` more than `consumed` against the budget of a kind.
    pub fn preflight(
        self,
        kind: ContentFontLimitKind,
        consumed: u64,
        attempted: u64,
        source: Option<ContentOperatorSource>,
    ) -> (result: Result<(), ContentVmError>)
        ensures
            result == font_preflight(self@, kind, consumed, attempted, source),
    {
        let limit: u64 = match kind {
            ContentFontLimitKind::FontUses => self.config.max_font_uses,
            ContentFontLimitKind::UniqueFonts => self.config.max_unique_fonts,
            ContentFontLimitKind::ResourceRetainedBytes => self.config.max_resource_retained_bytes,
            ContentFontLimitKind::Glyphs => self.config.max_glyphs,
            ContentFontLimitKind::OutlineSegments => self.config.max_outline_segments,
            ContentFontLimitKind::GlyphRetainedBytes => self.config.max_glyph_retained_bytes,
            ContentFontLimitKind::GlyphAllocation => self.config.max_glyph_retained_bytes,
            ContentFontLimitKind::TextBytes => self.config.max_text_bytes,
            ContentFontLimitKind::TextAdjustments => self.config.max_text_adjustments,
            ContentFontLimitKind::PlanningOperators => self.config.max_planning_operators,
            ContentFontLimitKind::CacheProbes => self.config.max_cache_probes,
            ContentFontLimitKind::PlanRetainedBytes => self.config.max_plan_retained_bytes,
            ContentFontLimitKind::PlanAllocation => self.config.max_plan_retained_bytes,
            ContentFontLimitKind::CacheRetainedBytes => self.config.max_cache_retained_bytes,
            ContentFontLimitKind::CacheAllocation => self.config.max_cache_retained_bytes,
            ContentFontLimitKind::AcquisitionPolls => self.config.max_acquisition_polls,
        };
        let admitted = match consumed.checked_add(attempted) {
            Some(next) => next <= limit,
            None => false,
        };
        if !admitted {
            return Err(
                ContentVmError::font_resource(
                    ContentFontLimit::new(kind, limit, consumed, attempted),
                    source,
                ),
            );
        }
        Ok(())
    }
}

impl Default for ContentFontLimits {
    fn default() -> (limits: Self)
        ensures
            limits@ == default_font_config(),
    {
        let config = ContentFontLimitConfig::default();
        Self { config }
    }
}

/// The built-in profile passes validation.
pub proof fn default_font_config_is_admissible()
    ensures
        default_font_config().admissible(),
{
}

/// Each font budget is checked by itself: one that is exchanged is admitted exactly where it is
/// positive and not above its own ceiling, whatever the others are.
pub proof fn font_budgets_are_checked_one_by_one(
    config: ContentFontLimitConfig,
    other: ContentFontLimitConfig,
)
    requires
        config.admissible(),
    ensures
        (ContentFontLimitConfig {
            max_font_uses: other.max_font_uses,
            ..config
        }).admissible() <==> 0 < other.max_font_uses <= HARD_MAX_FONT_USES,
        (ContentFontLimitConfig {
            max_unique_fonts: other.max_unique_fonts,
            ..config
        }).admissible() <==> 0 < other.max_unique_fonts <= HARD_MAX_UNIQUE_FONTS,
        (ContentFontLimitConfig {
            max_resource_retained_bytes: other.max_resource_retained_bytes,
            ..config
        }).admissible() <==> 0 < other.max_resource_retained_bytes <= HARD_MAX_RESOURCE_RETAINED_BYTES,
        (ContentFontLimitConfig {
            max_glyphs: other.max_glyphs,
            ..config
        }).admissible() <==> 0 < other.max_glyphs <= HARD_MAX_GLYPHS,
        (ContentFontLimitConfig {
            max_outline_segments: other.max_outline_segments,
            ..config
        }).admissible() <==> 0 < other.max_outline_segments <= HARD_MAX_OUTLINE_SEGMENTS,
        (ContentFontLimitConfig {
            max_glyph_retained_bytes: other.max_glyph_retained_bytes,
            ..config
        }).admissible() <==> 0 < other.max_glyph_retained_bytes <= HARD_MAX_GLYPH_RETAINED_BYTES,
        (ContentFontLimitConfig {
            max_text_bytes: other.max_text_bytes,
            ..config
        }).admissible() <==> 0 < other.max_text_bytes <= HARD_MAX_TEXT_BYTES,
        (ContentFontLimitConfig {
            max_text_adjustments: other.max_text_adjustments,
            ..config
        }).admissible() <==> 0 < other.max_text_adjustments <= HARD_MAX_TEXT_ADJUSTMENTS,
        (ContentFontLimitConfig {
            max_planning_operators: other.max_planning_operators,
            ..config
        }).admissible() <==> 0 < other.max_planning_operators <= HARD_MAX_PLANNING_OPERATORS,
        (ContentFontLimitConfig {
            max_cache_probes: other.max_cache_probes,
            ..config
        }).admissible() <==> 0 < other.max_cache_probes <= HARD_MAX_CACHE_PROBES,
        (ContentFontLimitConfig {
            max_plan_retained_bytes: other.max_plan_retained_bytes,
            ..config
        }).admissible() <==> 0 < other.max_plan_retained_bytes <= HARD_MAX_PLAN_RETAINED_BYTES,
        (ContentFontLimitConfig {
            max_cache_retained_bytes: other.max_cache_retained_bytes,
            ..config
        }).admissible() <==> 0 < other.max_cache_retained_bytes <= HARD_MAX_CACHE_RETAINED_BYTES,
        (ContentFontLimitConfig {
            max_acquisition_polls: other.max_acquisition_polls,
            ..config
        }).admissible() <==> 0 < other.max_acquisition_polls <= HARD_MAX_ACQUISITION_POLLS,
{
}

} // verus!
