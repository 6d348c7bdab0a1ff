//! What budgets admit, and what a failure says of its recovery.

use vstd::prelude::*;

use crate::bytes::error::{
    source_category_of, source_recovery_of, SourceErrorCategory, SourceErrorCode,
    SourceRecoverability,
};
use crate::content::accounting::{operator_admission, Accounting};
use crate::content::error::{
    content_category_of, content_recovery_of, ContentErrorCategory, ContentErrorCode,
    ContentRecoverability,
};
use crate::content::font_limits::{font_preflight, ContentFontLimitConfig, ContentFontLimits};
use crate::content::graphics_limits::{graphics_preflight, ContentGraphicsLimitConfig};
use crate::content::image_limits::{image_preflight, ContentImageLimitConfig, ContentImageLimits};
use crate::content::model::ContentOperatorSource;
use crate::content::resources::{resource_preflight, ResourceBudget, ResourceLimits};
use crate::content::vm_error::{
    vm_category_of, vm_recovery_of, ContentFontLimitKind, ContentGraphicsLimitKind,
    ContentImageLimitKind, ContentVmErrorCategory, ContentVmErrorCode, ContentVmLimitContext,
    ContentVmLimitKind, ContentVmRecoverability,
};
use crate::content::vm_limits::{vm_preflight, ContentVmLimitConfig};

verus! {

/// Every budget of interpretation is its own: what is consumed and attempted together is admitted
/// exactly up to the ceiling of its kind, whatever the other ceilings are. A refusal names the
/// kind, the ceiling and both amounts.
pub proof fn vm_budgets_are_their_own(
    config: ContentVmLimitConfig,
    kind: ContentVmLimitKind,
    consumed: u64,
    attempted: u64,
    source: Option<ContentOperatorSource>,
    ceiling: u64,
)
    ensures
        vm_preflight(config, kind, consumed, attempted, source) matches Err(error) ==> {
            &&& error.code == ContentVmErrorCode::ResourceLimit
            &&& error.source == source
            &&& error.context matches ContentVmLimitContext::Vm(limit) && {
                &&& limit.kind == kind
                &&& limit.consumed == consumed
                &&& limit.attempted == attempted
                &&& limit.limit < consumed + attempted
            }
        },
        vm_preflight(
            ContentVmLimitConfig { max_operators: ceiling, ..config },
            kind,
            consumed,
            attempted,
            source,
        ) is Ok <==> (if kind == ContentVmLimitKind::Operators {
            consumed + attempted <= ceiling
        } else {
            vm_preflight(config, kind, consumed, attempted, source) is Ok
        }),
        vm_preflight(
            ContentVmLimitConfig { max_fuel: ceiling, ..config },
            kind,
            consumed,
            attempted,
            source,
        ) is Ok <==> (if kind == ContentVmLimitKind::Fuel {
            consumed + attempted <= ceiling
        } else {
            vm_preflight(config, kind, consumed, attempted, source) is Ok
        }),
        vm_preflight(
            ContentVmLimitConfig { max_graphics_state_depth: ceiling, ..config },
            kind,
            consumed,
            attempted,
            source,
        ) is Ok <==> (if kind == ContentVmLimitKind::GraphicsStateDepth {
            consumed + attempted <= ceiling
        } else {
            vm_preflight(config, kind, consumed, attempted, source) is Ok
        }),
        vm_preflight(
            ContentVmLimitConfig { max_compatibility_depth: ceiling, ..config },
            kind,
            consumed,
            attempted,
            source,
        ) is Ok <==> (if kind == ContentVmLimitKind::CompatibilityDepth {
            consumed + attempted <= ceiling
        } else {
            vm_preflight(config, kind, consumed, attempted, source) is Ok
        }),
        vm_preflight(
            ContentVmLimitConfig { max_marked_content_depth: ceiling, ..config },
            kind,
            consumed,
            attempted,
            source,
        ) is Ok <==> (if kind == ContentVmLimitKind::MarkedContentDepth {
            consumed + attempted <= ceiling
        } else {
            vm_preflight(config, kind, consumed, attempted, source) is Ok
        }),
        vm_preflight(
            ContentVmLimitConfig { max_property_uses: ceiling, ..config },
            kind,
            consumed,
            attempted,
            source,
        ) is Ok <==> (if kind == ContentVmLimitKind::PropertyUses {
            consumed + attempted <= ceiling
        } else {
            vm_preflight(config, kind, consumed, attempted, source) is Ok
        }),
        vm_preflight(
            ContentVmLimitConfig { max_retained_bytes: ceiling, ..config },
            kind,
            consumed,
            attempted,
            source,
        ) is Ok <==> (if kind == ContentVmLimitKind::RetainedBytes
            || kind == ContentVmLimitKind::Allocation {
            consumed + attempted <= ceiling
        } else {
            vm_preflight(config, kind, consumed, attempted, source) is Ok
        }),
{
}

/// Every budget of paths and dashes is its own: what is consumed and attempted together is admitted
/// exactly up to the ceiling of its kind, whatever the other ceilings are. A refusal names the
/// kind, the ceiling and both amounts.
pub proof fn graphics_budgets_are_their_own(
    config: ContentGraphicsLimitConfig,
    kind: ContentGraphicsLimitKind,
    consumed: u64,
    attempted: u64,
    source: Option<ContentOperatorSource>,
    ceiling: u64,
)
    ensures
        graphics_preflight(config, kind, consumed, attempted, source) matches Err(error) ==> {
            &&& error.code == ContentVmErrorCode::ResourceLimit
            &&& error.source == source
            &&& error.context matches ContentVmLimitContext::Graphics(limit) && {
                &&& limit.kind == kind
                &&& limit.consumed == consumed
                &&& limit.attempted == attempted
                &&& limit.limit < consumed + attempted
            }
        },
        graphics_preflight(
            ContentGraphicsLimitConfig { max_path_segments: ceiling, ..config },
            kind,
            consumed,
            attempted,
            source,
        ) is Ok <==> (if kind == ContentGraphicsLimitKind::PathSegments {
            consumed + attempted <= ceiling
        } else {
            graphics_preflight(config, kind, consumed, attempted, source) is Ok
        }),
        graphics_preflight(
            ContentGraphicsLimitConfig { max_path_retained_bytes: ceiling, ..config },
            kind,
            consumed,
            attempted,
            source,
        ) is Ok <==> (if kind == ContentGraphicsLimitKind::PathRetainedBytes {
            consumed + attempted <= ceiling
        } else {
            graphics_preflight(config, kind, consumed, attempted, source) is Ok
        }),
        graphics_preflight(
            ContentGraphicsLimitConfig { max_dash_entries: ceiling, ..config },
            kind,
            consumed,
            attempted,
            source,
        ) is Ok <==> (if kind == ContentGraphicsLimitKind::DashEntries {
            consumed + attempted <= ceiling
        } else {
            graphics_preflight(config, kind, consumed, attempted, source) is Ok
        }),
        graphics_preflight(
            ContentGraphicsLimitConfig { max_dash_retained_bytes: ceiling, ..config },
            kind,
            consumed,
            attempted,
            source,
        ) is Ok <==> (if kind == ContentGraphicsLimitKind::DashRetainedBytes {
            consumed + attempted <= ceiling
        } else {
            graphics_preflight(config, kind, consumed, attempted, source) is Ok
        }),
{
}

/// Every budget of external objects is its own: what is consumed and attempted together is admitted
/// exactly up to the ceiling of its kind, whatever the other ceilings are. A refusal names the
/// kind, the ceiling and both amounts.
pub proof fn image_budgets_are_their_own(
    config: ContentImageLimitConfig,
    kind: ContentImageLimitKind,
    consumed: u64,
    attempted: u64,
    source: Option<ContentOperatorSource>,
    ceiling: u64,
)
    ensures
        image_preflight(config, kind, consumed, attempted, source) matches Err(error) ==> {
            &&& error.code == ContentVmErrorCode::ResourceLimit
            &&& error.source == source
            &&& error.context matches ContentVmLimitContext::Image(limit) && {
                &&& limit.kind == kind
                &&& limit.consumed == consumed
                &&& limit.attempted == attempted
                &&& limit.limit < consumed + attempted
            }
        },
        image_preflight(
            ContentImageLimitConfig { max_image_uses: ceiling, ..config },
            kind,
            consumed,
            attempted,
            source,
        ) is Ok <==> (if kind == ContentImageLimitKind::ImageUses {
            consumed + attempted <= ceiling
        } else {
            image_preflight(config, kind, consumed, attempted, source) is Ok
        }),
        image_preflight(
            ContentImageLimitConfig { max_unique_images: ceiling, ..config },
            kind,
            consumed,
            attempted,
            source,
        ) is Ok <==> (if kind == ContentImageLimitKind::UniqueImages {
            consumed + attempted <= ceiling
        } else {
            image_preflight(config, kind, consumed, attempted, source) is Ok
        }),
        image_preflight(
            ContentImageLimitConfig { max_decoded_bytes: ceiling, ..config },
            kind,
            consumed,
            attempted,
            source,
        ) is Ok <==> (if kind == ContentImageLimitKind::DecodedBytes
            || kind == ContentImageLimitKind::DecodedAllocation {
            consumed + attempted <= ceiling
        } else {
            image_preflight(config, kind, consumed, attempted, source) is Ok
        }),
        image_preflight(
            ContentImageLimitConfig { max_planning_operators: ceiling, ..config },
            kind,
            consumed,
            attempted,
            source,
        ) is Ok <==> (if kind == ContentImageLimitKind::PlanningOperators {
            consumed + attempted <= ceiling
        } else {
            image_preflight(config, kind, consumed, attempted, source) is Ok
        }),
        image_preflight(
            ContentImageLimitConfig { max_cache_probes: ceiling, ..config },
            kind,
            consumed,
            attempted,
            source,
        ) is Ok <==> (if kind == ContentImageLimitKind::CacheProbes {
            consumed + attempted <= ceiling
        } else {
            image_preflight(config, kind, consumed, attempted, source) is Ok
        }),
        image_preflight(
            ContentImageLimitConfig { max_plan_retained_bytes: ceiling, ..config },
            kind,
            consumed,
            attempted,
            source,
        ) is Ok <==> (if kind == ContentImageLimitKind::PlanRetainedBytes
            || kind == ContentImageLimitKind::PlanAllocation {
            consumed + attempted <= ceiling
        } else {
            image_preflight(config, kind, consumed, attempted, source) is Ok
        }),
        image_preflight(
            ContentImageLimitConfig { max_cache_retained_bytes: ceiling, ..config },
            kind,
            consumed,
            attempted,
            source,
        ) is Ok <==> (if kind == ContentImageLimitKind::CacheRetainedBytes
            || kind == ContentImageLimitKind::CacheAllocation {
            consumed + attempted <= ceiling
        } else {
            image_preflight(config, kind, consumed, attempted, source) is Ok
        }),
        image_preflight(
            ContentImageLimitConfig { max_acquisition_polls: ceiling, ..config },
            kind,
            consumed,
            attempted,
            source,
        ) is Ok <==> (if kind == ContentImageLimitKind::AcquisitionPolls {
            consumed + attempted <= ceiling
        } else {
            image_preflight(config, kind, consumed, attempted, source) is Ok
        }),
{
}

/// Every budget of fonts and text is its own: what is consumed and attempted together is admitted
/// exactly up to the ceiling of its kind, whatever the other ceilings are. A refusal names the
/// kind, the ceiling and both amounts.
pub proof fn font_budgets_are_their_own(
    config: ContentFontLimitConfig,
    kind: ContentFontLimitKind,
    consumed: u64,
    attempted: u64,
    source: Option<ContentOperatorSource>,
    ceiling: u64,
)
    ensures
        font_preflight(config, kind, consumed, attempted, source) matches Err(error) ==> {
            &&& error.code == ContentVmErrorCode::ResourceLimit
            &&& error.source == source
            &&& error.context matches ContentVmLimitContext::Font(limit) && {
                &&& limit.kind == kind
                &&& limit.consumed == consumed
                &&& limit.attempted == attempted
                &&& limit.limit < consumed + attempted
            }
        },
        font_preflight(
            ContentFontLimitConfig { max_font_uses: ceiling, ..config },
            kind,
            consumed,
            attempted,
            source,
        ) is Ok <==> (if kind == ContentFontLimitKind::FontUses {
            consumed + attempted <= ceiling
        } else {
            font_preflight(config, kind, consumed, attempted, source) is Ok
        }),
        font_preflight(
            ContentFontLimitConfig { max_unique_fonts: ceiling, ..config },
            kind,
            consumed,
            attempted,
            source,
        ) is Ok <==> (if kind == ContentFontLimitKind::UniqueFonts {
            consumed + attempted <= ceiling
        } else {
            font_preflight(config, kind, consumed, attempted, source) is Ok
        }),
        font_preflight(
            ContentFontLimitConfig { max_resource_retained_bytes: ceiling, ..config },
            kind,
            consumed,
            attempted,
            source,
        ) is Ok <==> (if kind == ContentFontLimitKind::ResourceRetainedBytes {
            consumed + attempted <= ceiling
        } else {
            font_preflight(config, kind, consumed, attempted, source) is Ok
        }),
        font_preflight(
            ContentFontLimitConfig { max_glyphs: ceiling, ..config },
            kind,
            consumed,
            attempted,
            source,
        ) is Ok <==> (if kind == ContentFontLimitKind::Glyphs {
            consumed + attempted <= ceiling
        } else {
            font_preflight(config, kind, consumed, attempted, source) is Ok
        }),
        font_preflight(
            ContentFontLimitConfig { max_outline_segments: ceiling, ..config },
            kind,
            consumed,
            attempted,
            source,
        ) is Ok <==> (if kind == ContentFontLimitKind::OutlineSegments {
            consumed + attempted <= ceiling
        } else {
            font_preflight(config, kind, consumed, attempted, source) is Ok
        }),
        font_preflight(
            ContentFontLimitConfig { max_glyph_retained_bytes: ceiling, ..config },
            kind,
            consumed,
            attempted,
            source,
        ) is Ok <==> (if kind == ContentFontLimitKind::GlyphRetainedBytes
            || kind == ContentFontLimitKind::GlyphAllocation {
            consumed + attempted <= ceiling
        } else {
            font_preflight(config, kind, consumed, attempted, source) is Ok
        }),
        font_preflight(
            ContentFontLimitConfig { max_text_bytes: ceiling, ..config },
            kind,
            consumed,
            attempted,
            source,
        ) is Ok <==> (if kind == ContentFontLimitKind::TextBytes {
            consumed + attempted <= ceiling
        } else {
            font_preflight(config, kind, consumed, attempted, source) is Ok
        }),
        font_preflight(
            ContentFontLimitConfig { max_text_adjustments: ceiling, ..config },
            kind,
            consumed,
            attempted,
            source,
        ) is Ok <==> (if kind == ContentFontLimitKind::TextAdjustments {
            consumed + attempted <= ceiling
        } else {
            font_preflight(config, kind, consumed, attempted, source) is Ok
        }),
        font_preflight(
            ContentFontLimitConfig { max_planning_operators: ceiling, ..config },
            kind,
            consumed,
            attempted,
            source,
        ) is Ok <==> (if kind == ContentFontLimitKind::PlanningOperators {
            consumed + attempted <= ceiling
        } else {
            font_preflight(config, kind, consumed, attempted, source) is Ok
        }),
        font_preflight(
            ContentFontLimitConfig { max_cache_probes: ceiling, ..config },
            kind,
            consumed,
            attempted,
            source,
        ) is Ok <==> (if kind == ContentFontLimitKind::CacheProbes {
            consumed + attempted <= ceiling
        } else {
            font_preflight(config, kind, consumed, attempted, source) is Ok
        }),
        font_preflight(
            ContentFontLimitConfig { max_plan_retained_bytes: ceiling, ..config },
            kind,
            consumed,
            attempted,
            source,
        ) is Ok <==> (if kind == ContentFontLimitKind::PlanRetainedBytes
            || kind == ContentFontLimitKind::PlanAllocation {
            consumed + attempted <= ceiling
        } else {
            font_preflight(config, kind, consumed, attempted, source) is Ok
        }),
        font_preflight(
            ContentFontLimitConfig { max_cache_retained_bytes: ceiling, ..config },
            kind,
            consumed,
            attempted,
            source,
        ) is Ok <==> (if kind == ContentFontLimitKind::CacheRetainedBytes
            || kind == ContentFontLimitKind::CacheAllocation {
            consumed + attempted <= ceiling
        } else {
            font_preflight(config, kind, consumed, attempted, source) is Ok
        }),
        font_preflight(
            ContentFontLimitConfig { max_acquisition_polls: ceiling, ..config },
            kind,
            consumed,
            attempted,
            source,
        ) is Ok <==> (if kind == ContentFontLimitKind::AcquisitionPolls {
            consumed + attempted <= ceiling
        } else {
            font_preflight(config, kind, consumed, attempted, source) is Ok
        }),
{
}

/// An admitted operator is counted once, with its fuel, and nothing else is counted. It is admitted
/// exactly where one more operator and its fuel both stay within their ceilings.
pub proof fn admitted_operators_are_counted(
    limits: ContentVmLimitConfig,
    accounting: Accounting,
    fuel: u64,
    source: ContentOperatorSource,
)
    ensures
        operator_admission(limits, accounting, fuel, source) is Ok <==> accounting.operators
            < limits.max_operators && accounting.fuel + fuel <= limits.max_fuel,
        operator_admission(limits, accounting, fuel, source) matches Ok(next) ==> {
            &&& next.operators == accounting.operators + 1
            &&& next.fuel == accounting.fuel + fuel
            &&& next == (Accounting { operators: next.operators, fuel: next.fuel, ..accounting })
        },
        operator_admission(limits, accounting, fuel, source) matches Err(error) ==> {
            &&& error.source == Some(source)
            &&& error.context matches ContentVmLimitContext::Vm(limit) && (limit.kind
                == ContentVmLimitKind::Operators <==> accounting.operators >= limits.max_operators)
        },
{
}

/// What a failure of a scan asks for: the configuration where its limits were refused, the current
/// generation where it was cancelled, less work where a budget ran out, nothing where the scanner
/// itself failed, and otherwise better input. Only input that is out of order is no malformed
/// content.
pub proof fn scan_failures_tell_their_recovery(code: ContentErrorCode)
    ensures
        ({
            let recovery = content_recovery_of(content_category_of(code));
            &&& recovery == ContentRecoverability::CorrectConfiguration <==> code
                == ContentErrorCode::InvalidLimits
            &&& recovery == ContentRecoverability::RetryCurrentGeneration <==> code
                == ContentErrorCode::Cancelled
            &&& recovery == ContentRecoverability::ReduceWorkload <==> code
                == ContentErrorCode::ResourceLimit
            &&& recovery == ContentRecoverability::DoNotRetry <==> code
                == ContentErrorCode::InternalState
            &&& recovery == ContentRecoverability::CorrectInput <==> content_category_of(code)
                == ContentErrorCategory::Malformed || code == ContentErrorCode::InvalidStreamOrder
            &&& content_category_of(code) == ContentErrorCategory::Input <==> code
                == ContentErrorCode::InvalidStreamOrder
        }),
{
}

/// What a failure of an interpretation asks for: the configuration where its limits were refused,
/// another source where the source changed, the current generation where it was cancelled, less
/// work where a budget ran out, nothing where the interpreter itself failed, and otherwise better
/// content.
pub proof fn interpretation_failures_tell_their_recovery(code: ContentVmErrorCode)
    ensures
        ({
            let recovery = vm_recovery_of(vm_category_of(code));
            &&& recovery == ContentVmRecoverability::CorrectConfiguration <==> code
                == ContentVmErrorCode::InvalidLimits
            &&& recovery == ContentVmRecoverability::ReopenSource <==> code
                == ContentVmErrorCode::SourceSnapshotMismatch
            &&& recovery == ContentVmRecoverability::RetryCurrentGeneration <==> code
                == ContentVmErrorCode::Cancelled
            &&& recovery == ContentVmRecoverability::ReduceWorkload <==> code
                == ContentVmErrorCode::ResourceLimit
            &&& recovery == ContentVmRecoverability::DoNotRetry <==> code
                == ContentVmErrorCode::InternalState
            &&& recovery == ContentVmRecoverability::CorrectInput <==> vm_category_of(code)
                == ContentVmErrorCategory::Malformed
        }),
{
}

/// What a failure of the byte layer asks for follows from its category.
pub proof fn source_failures_tell_their_recovery(code: SourceErrorCode)
    ensures
        ({
            let category = source_category_of(code);
            let recovery = source_recovery_of(code);
            &&& recovery == SourceRecoverability::ReopenSource <==> category
                == SourceErrorCategory::Integrity
            &&& recovery == SourceRecoverability::ReduceWorkload <==> category
                == SourceErrorCategory::Resource
            &&& recovery == SourceRecoverability::RetrySource <==> category
                == SourceErrorCategory::Availability
            &&& recovery == SourceRecoverability::DoNotRetry <==> category
                == SourceErrorCategory::Internal
            &&& recovery == SourceRecoverability::CorrectInput <==> category
                == SourceErrorCategory::Input || category == SourceErrorCategory::Lifecycle
        }),
{
}

/// The budgets of a resource class are those of its own limits: of fonts where it plans fonts, and of
/// external objects where it plans those.
pub proof fn resource_budgets_are_those_of_their_class(
    fonts: ContentFontLimits,
    images: ContentImageLimits,
    budget: ResourceBudget,
    consumed: u64,
    attempted: u64,
    source: Option<ContentOperatorSource>,
)
    ensures
        ({
            let total = consumed + attempted;
            let for_fonts = resource_preflight(
                ResourceLimits::Font(fonts),
                budget,
                consumed,
                attempted,
                source,
            );
            let for_images = resource_preflight(
                ResourceLimits::Image(images),
                budget,
                consumed,
                attempted,
                source,
            );
            &&& for_fonts matches Err(error) ==> error.context is Font
            &&& for_images matches Err(error) ==> error.context is Image
            &&& match budget {
                ResourceBudget::Unique => (for_fonts is Ok <==> total <= fonts@.max_unique_fonts)
                    && (for_images is Ok <==> total <= images@.max_unique_images),
                ResourceBudget::CacheProbes => (for_fonts is Ok <==> total
                    <= fonts@.max_cache_probes) && (for_images is Ok <==> total
                    <= images@.max_cache_probes),
                ResourceBudget::PlanRetained | ResourceBudget::PlanAllocation => (
                for_fonts is Ok <==> total <= fonts@.max_plan_retained_bytes) && (
                for_images is Ok <==> total <= images@.max_plan_retained_bytes),
                ResourceBudget::CacheRetained | ResourceBudget::CacheAllocation => (
                for_fonts is Ok <==> total <= fonts@.max_cache_retained_bytes) && (
                for_images is Ok <==> total <= images@.max_cache_retained_bytes),
                ResourceBudget::AcquisitionPolls => (for_fonts is Ok <==> total
                    <= fonts@.max_acquisition_polls) && (for_images is Ok <==> total
                    <= images@.max_acquisition_polls),
            }
        }),
{
}

} // verus!
