use pdf_content::{
    ContentFontLimits, ContentFontProfile, ContentFormProfile, ContentGraphicsLimits,
    ContentImageLimits, ContentImageProfile, ContentLimits, ContentVmError, ContentVmErrorCode,
    ContentVmLimits, RevisionAuthority, SourceIdentity, SourceSnapshot, SourceValidator,
};

fn authority(startxref: u64) -> RevisionAuthority {
    RevisionAuthority {
        snapshot: SourceSnapshot::new(
            SourceIdentity { value: 1 },
            None,
            SourceValidator { value: 1 },
        ),
        revision_id: 1,
        startxref,
    }
}

fn profile(depth: u16, font_startxref: u64) -> Result<ContentFormProfile, ContentVmError> {
    ContentFormProfile::new(
        authority(5),
        7,
        depth,
        ContentLimits::default(),
        ContentVmLimits::default(),
        ContentGraphicsLimits::default(),
        ContentImageProfile::new(authority(5), 1, ContentImageLimits::default()),
        ContentFontProfile::new(authority(font_startxref), 1, ContentFontLimits::default()),
    )
}

#[test]
fn forms_nest_as_deep_as_their_profile_says() {
    let mut current = profile(64, 5).unwrap();
    let mut levels = 1;
    while let Some(child) = current.child() {
        assert_eq!(child.remaining_depth + 1, current.remaining_depth);
        current = child;
        levels += 1;
    }
    assert_eq!(levels, 64);
    assert!(profile(1, 5).unwrap().child().is_none());
}

#[test]
fn inadmissible_form_profiles_are_refused() {
    for refused in [profile(0, 5), profile(65, 5), profile(3, 6)] {
        assert_eq!(refused.unwrap_err().code(), ContentVmErrorCode::InvalidLimits);
    }
}

#[test]
fn profiles_expose_their_parts() {
    let image = ContentImageProfile::new(authority(5), 3, ContentImageLimits::default());
    assert_eq!(image.authority(), authority(5));
    assert_eq!(image.context(), 3);
    assert_eq!(image.content_limits(), ContentImageLimits::default());
}
