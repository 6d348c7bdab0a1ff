//! Execution profiles: whose proofs are trusted, under which limits, and how deep forms nest.

use vstd::prelude::*;

use crate::bytes::model::SourceSnapshot;
use crate::content::font_limits::ContentFontLimits;
use crate::content::graphics_limits::ContentGraphicsLimits;
use crate::content::image_limits::ContentImageLimits;
use crate::content::limits::ContentLimits;
use crate::content::vm_error::{vm_failure_of, ContentVmError, ContentVmErrorCode};
use crate::content::vm_limits::ContentVmLimits;

verus! {

/// How deep forms may nest at most.
pub const MAX_FORM_RECURSION_DEPTH: u16 = 64;

/// The revision that proofs are attested for.
#[derive(Clone, Copy, Debug, PartialEq, Eq, Structural)]
pub struct RevisionAuthority {
    pub snapshot: SourceSnapshot,
    pub revision_id: u64,
    pub startxref: u64,
}

/// Proof authority, runtime context and limits of external images.
#[derive(Clone, Copy, Debug, PartialEq, Eq, Structural)]
pub struct ContentImageProfile {
    pub authority: RevisionAuthority,
    pub context: u64,
    pub content_limits: ContentImageLimits,
}

impl ContentImageProfile {
    /// Creates an image profile.
    pub fn new(authority: RevisionAuthority, context: u64, content_limits: ContentImageLimits) -> (profile:
        Self)
        ensures
            profile == (ContentImageProfile { authority, context, content_limits }),
    {
        Self { authority, context, content_limits }
    }

    /// Returns the proof authority.
    pub fn authority(&self) -> (authority: RevisionAuthority)
        ensures
            authority == self.authority,
    {
        self.authority
    }

    /// Returns the runtime context of acquisition jobs.
    pub fn context(&self) -> (context: u64)
        ensures
            context == self.context,
    {
        self.context
    }

    /// Returns the image budgets.
    pub fn content_limits(&self) -> (limits: ContentImageLimits)
        ensures
            limits == self.content_limits,
    {
        self.content_limits
    }
}

/// Proof authority, runtime context and limits of embedded fonts.
#[derive(Clone, Copy, Debug, PartialEq, Eq, Structural)]
pub struct ContentFontProfile {
    pub authority: RevisionAuthority,
    pub context: u64,
    pub content_limits: ContentFontLimits,
}

impl ContentFontProfile {
    /// Creates a font profile.
    pub fn new(authority: RevisionAuthority, context: u64, content_limits: ContentFontLimits) -> (profile:
        Self)
        ensures
            profile == (ContentFontProfile { authority, context, content_limits }),
    {
        Self { authority, context, content_limits }
    }

    /// Returns the proof authority.
    pub fn authority(&self) -> (authority: RevisionAuthority)
        ensures
            authority == self.authority,
    {
        self.authority
    }

    /// Returns the runtime context of acquisition jobs.
    pub fn context(&self) -> (context: u64)
        ensures
            context == self.context,
    {
        self.context
    }

    /// Returns the font budgets.
    pub fn content_limits(&self) -> (limits: ContentFontLimits)
        ensures
            limits == self.content_limits,
    {
        self.content_limits
    }
}

/// Proof authority, limits and remaining depth of forms.
#[derive(Clone, Copy, Debug, PartialEq, Eq, Structural)]
pub struct ContentFormProfile {
    pub authority: RevisionAuthority,
    pub context: u64,
    pub remaining_depth: u16,
    pub scan_limits: ContentLimits,
    pub vm_limits: ContentVmLimits,
    pub graphics_limits: ContentGraphicsLimits,
    pub image_profile: ContentImageProfile,
    pub font_profile: ContentFontProfile,
}

/// Whether a form profile is admissible: it nests at least once and at most so deep, and its images
/// and fonts are of one revision with it.
pub open spec fn form_profile_ok(profile: ContentFormProfile) -> bool {
    &&& 0 < profile.remaining_depth <= MAX_FORM_RECURSION_DEPTH
    &&& profile.image_profile.authority == profile.authority
    &&& profile.font_profile.authority == profile.authority
}

impl ContentFormProfile {
    /// Creates a form profile that nests `max_depth` deep.
    pub fn new(
        authority: RevisionAuthority,
        context: u64,
        max_depth: u16,
        scan_limits: ContentLimits,
        vm_limits: ContentVmLimits,
        graphics_limits: ContentGraphicsLimits,
        image_profile: ContentImageProfile,
        font_profile: ContentFontProfile,
    ) -> (profile: Result<Self, ContentVmError>)
        ensures
            ({
                let wanted = ContentFormProfile {
                    authority,
                    context,
                    remaining_depth: max_depth,
                    scan_limits,
                    vm_limits,
                    graphics_limits,
                    image_profile,
                    font_profile,
                };
                profile == (if form_profile_ok(wanted) {
                    Ok(wanted)
                } else {
                    Err(vm_failure_of(ContentVmErrorCode::InvalidLimits, None))
                })
            }),
    {
        if max_depth == 0 || max_depth > MAX_FORM_RECURSION_DEPTH || image_profile.authority
            != authority || font_profile.authority != authority {
            return Err(ContentVmError::new(ContentVmErrorCode::InvalidLimits, None));
        }
        Ok(
            Self {
                authority,
                context,
                remaining_depth: max_depth,
                scan_limits,
                vm_limits,
                graphics_limits,
                image_profile,
                font_profile,
            },
        )
    }

    /// The profile of forms inside this form, where they may nest further.
    pub open spec fn spec_child(self) -> Option<Self> {
        if self.remaining_depth <= 1 {
            None
        } else {
            Some(
                ContentFormProfile {
                    remaining_depth: (self.remaining_depth - 1) as u16,
                    ..self
                },
            )
        }
    }

    /// Returns the profile of forms inside this form, where they may nest further.
    pub fn child(&self) -> (child: Option<Self>)
        ensures
            child == self.spec_child(),
    {
        if self.remaining_depth <= 1 {
            return None;
        }
        Some(
            Self {
                authority: self.authority,
                context: self.context,
                remaining_depth: self.remaining_depth - 1,
                scan_limits: self.scan_limits,
                vm_limits: self.vm_limits,
                graphics_limits: self.graphics_limits,
                image_profile: self.image_profile,
                font_profile: self.font_profile,
            },
        )
    }
}

/// Forms nest exactly as deep as their profile says: each level lowers the remaining depth by one,
/// keeps everything else admissible, and the last level has no child.
pub proof fn forms_nest_boundedly(profile: ContentFormProfile)
    requires
        form_profile_ok(profile),
    ensures
        profile.spec_child() is None <==> profile.remaining_depth == 1,
        profile.spec_child() matches Some(child) ==> {
            &&& form_profile_ok(child)
            &&& child.remaining_depth + 1 == profile.remaining_depth
        },
{
}

} // verus!
