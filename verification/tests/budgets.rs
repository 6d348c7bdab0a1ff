use pdf_content::{
    ContentFontLimitConfig, ContentFontLimitKind, ContentFontLimits, ContentGraphicsLimitConfig,
    ContentGraphicsLimitKind, ContentGraphicsLimits, ContentImageLimitConfig,
    ContentImageLimitKind, ContentImageLimits, ContentLimitConfig, ContentLimits,
    ContentVmErrorCategory, ContentVmErrorCode, ContentVmLimitConfig, ContentVmLimitKind,
    ContentVmLimits, ContentVmRecoverability, RangeStoreLimitConfig, RangeStoreLimits,
    SourceErrorCode,
};

#[test]
fn font_limits_validate_and_report_independent_dimensions() {
    let minimum = ContentFontLimits::validate(ContentFontLimitConfig {
        max_font_uses: 1,
        max_unique_fonts: 1,
        max_resource_retained_bytes: 1,
        max_glyphs: 1,
        max_outline_segments: 1,
        max_glyph_retained_bytes: 1,
        max_text_bytes: 1,
        max_text_adjustments: 1,
        max_planning_operators: 1,
        max_cache_probes: 1,
        max_plan_retained_bytes: 1,
        max_cache_retained_bytes: 1,
        max_acquisition_polls: 1,
    })
    .unwrap();
    assert_eq!(minimum.max_glyphs(), 1);

    let error = ContentFontLimits::default()
        .preflight(
            ContentFontLimitKind::Glyphs,
            ContentFontLimits::default().max_glyphs(),
            1,
            None,
        )
        .unwrap_err();
    assert_eq!(error.code(), ContentVmErrorCode::ResourceLimit);
    assert_eq!(error.font_limit().unwrap().kind(), ContentFontLimitKind::Glyphs);
}

#[test]
fn defaults_and_minimums_are_valid() {
    let defaults = ContentImageLimits::default();
    assert_eq!(defaults.max_unique_images(), 65_536);
    assert_eq!(defaults.max_decoded_bytes(), 512 * 1024 * 1024);

    let minimum = ContentImageLimits::validate(ContentImageLimitConfig {
        max_image_uses: 1,
        max_unique_images: 1,
        max_decoded_bytes: 1,
        max_planning_operators: 1,
        max_cache_probes: 1,
        max_plan_retained_bytes: 1,
        max_cache_retained_bytes: 1,
        max_acquisition_polls: 1,
    })
    .expect("positive independent image budgets validate");
    assert_eq!(minimum.max_image_uses(), 1);
    assert_eq!(minimum.max_acquisition_polls(), 1);
}

#[test]
fn invalid_profiles_and_resource_context_are_structured() {
    let error = ContentImageLimits::validate(ContentImageLimitConfig {
        max_unique_images: 0,
        ..ContentImageLimitConfig::default()
    })
    .expect_err("zero image budget must fail");
    assert_eq!(error.code(), ContentVmErrorCode::InvalidLimits);

    let limits = ContentImageLimits::default();
    let error = limits
        .preflight(ContentImageLimitKind::ImageUses, limits.max_image_uses(), 1, None)
        .expect_err("one use above the limit must fail");
    assert_eq!(error.code(), ContentVmErrorCode::ResourceLimit);
    assert_eq!(error.category(), ContentVmErrorCategory::Resource);
    assert_eq!(error.recoverability(), ContentVmRecoverability::ReduceWorkload);
    assert_eq!(
        error.image_limit().expect("image limit").kind(),
        ContentImageLimitKind::ImageUses
    );
}

#[test]
fn interpreter_budgets_reject_zero_and_excess() {
    let config = ContentVmLimitConfig::default();
    assert!(ContentVmLimits::validate(config).is_ok());
    let zero = ContentVmLimitConfig { max_fuel: 0, ..config };
    assert_eq!(
        ContentVmLimits::validate(zero).unwrap_err().code(),
        ContentVmErrorCode::InvalidLimits
    );
    let excess = ContentVmLimitConfig { max_operators: u64::MAX, ..config };
    assert!(ContentVmLimits::validate(excess).is_err());
    let limits = ContentVmLimits::default();
    assert!(limits
        .preflight(ContentVmLimitKind::Fuel, limits.max_fuel() - 1, 1, None)
        .is_ok());
    let error = limits
        .preflight(ContentVmLimitKind::Fuel, limits.max_fuel(), 1, None)
        .unwrap_err();
    let limit = error.vm_limit().unwrap();
    assert_eq!(limit.kind(), ContentVmLimitKind::Fuel);
    assert_eq!(error.graphics_limit(), None);
}

#[test]
fn budgets_do_not_wrap() {
    let limits = ContentVmLimits::default();
    assert!(limits
        .preflight(ContentVmLimitKind::RetainedBytes, u64::MAX, u64::MAX, None)
        .is_err());
}

#[test]
fn graphics_budgets_report_their_dimension() {
    let config = ContentGraphicsLimitConfig { max_dash_entries: 2, ..Default::default() };
    let limits = ContentGraphicsLimits::validate(config).unwrap();
    assert!(limits.preflight(ContentGraphicsLimitKind::DashEntries, 0, 2, None).is_ok());
    let error =
        limits.preflight(ContentGraphicsLimitKind::DashEntries, 0, 3, None).unwrap_err();
    assert_eq!(error.graphics_limit().unwrap().kind(), ContentGraphicsLimitKind::DashEntries);
    let invalid = ContentGraphicsLimitConfig { max_path_segments: 0, ..Default::default() };
    assert!(ContentGraphicsLimits::validate(invalid).is_err());
}

#[test]
fn scanner_and_store_budgets_validate() {
    assert!(ContentLimits::validate(ContentLimitConfig::default()).is_ok());
    let invalid = ContentLimitConfig { max_nesting_depth: 0, ..ContentLimitConfig::default() };
    assert!(ContentLimits::validate(invalid).is_err());
    let config = RangeStoreLimitConfig::default();
    assert!(RangeStoreLimits::validate(config).is_ok());
    let inconsistent =
        RangeStoreLimitConfig { max_cached_bytes: config.max_read_bytes - 1, ..config };
    assert_eq!(
        RangeStoreLimits::validate(inconsistent).unwrap_err().code(),
        SourceErrorCode::InvalidLimits
    );
}
