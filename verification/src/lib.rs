//! Bounded byte-range storage and sealed interpretation of PDF page content.

pub mod bytes;
pub mod content;
mod memory;

pub use bytes::error::{
    SourceError, SourceErrorCategory, SourceErrorCode, SourceLimit, SourceLimitKind,
    SourceRecoverability,
};
pub use bytes::limits::{RangeStoreLimitConfig, RangeStoreLimits};
pub use bytes::model::{
    ByteRange, ByteSlice, ByteSource, DataTicket, JobId, RangeResponse, ReadPoll, ReadRequest,
    ResumeCheckpoint, ResumeSubscription, SmallRanges, SourceIdentity, SourceSnapshot,
    SourceValidator,
};
pub use bytes::store::{RangeStore, SupplyOutcome, TicketStatus};
pub use content::accounting::{Accounting, ContentVmStats};
pub use content::error::{
    ContentError, ContentErrorCategory, ContentErrorCode, ContentLimit, ContentLimitKind,
    ContentRecoverability,
};
pub use content::ext_gstate::{
    AttestedObject, AttestedValue, ContentExtGStateError, ContentExtGStateErrorKind,
    ContentExtGStateProfile, ContentExtGStateResource, ExtGStateSelection, SyntaxEntry,
    SyntaxObject,
};
pub use content::font_limits::{ContentFontLimitConfig, ContentFontLimits};
pub use content::font_runtime::{
    AcquisitionProgress, ContentFontStats, FontPoll, FontRuntime, FontStep, PendingRead,
};
pub use content::form_plan::{ExecutionPlan, FormBox, FormEnvelope};
pub use content::graphics_limits::{ContentGraphicsLimitConfig, ContentGraphicsLimits};
pub use content::guard::{RunStop, RuntimeGuard};
pub use content::image_limits::{ContentImageLimitConfig, ContentImageLimits};
pub use content::image_runtime::{
    ContentImageStats, FormInterpretation, FormPoll, ImagePoll, ImageProgress, ImageRuntime,
    ImageStep, ResolvedXObject, SceneImage,
};
pub use content::image_samples::{AcquiredImage, ImageColorSpace, ImageXObjectColorSpace};
pub use content::interpret::{ContentInput, FormFrame, OwnedStream};
pub use content::job::{nested_form_job, InterpretFormJob, InterpretPageJob, JobRequest};
pub use content::limits::{ContentLimitConfig, ContentLimits};
pub use content::materialize::{
    Execution, MaterialStep, Materializer, ResolvedFontUse, ResolvedFormUse, SceneReply,
};
pub use content::model::{
    ContentDictionaryEntry, ContentExtent, ContentName, ContentOperand, ContentOperator,
    ContentOperatorSource, ContentPosition, ContentProgram, ContentReal, ContentScanStats,
    ContentString, ContentStringKind, DecodedContentStream, DecodedSpan, LocatedOperand, ObjectRef,
    ScannedOperator,
};
pub use content::number::ContentNumber;
pub use content::operator::{
    OperatorContext, OperatorFailurePolicy, OperatorKind, OperatorOperandShape, OperatorSpec,
};
pub use content::plan::{ExecutionAction, LineStyle, TextAction, TextShowItem};
pub use content::plan_builder::PlanBuilder;
pub use content::planner::{Answer, Planner, Requirement};
pub use content::planner_model::{PlannedImageInvocation, ResolvedImageUse, ResolvedPropertyUse};
pub use content::profile::{
    ContentFontProfile, ContentFormProfile, ContentImageProfile, RevisionAuthority,
};
pub use content::resources::{PlannedResource, ResourceProof, ResourceStats};
pub use content::run::{
    ContentVmPhase, FontLookup, ImageLookup, Interpretation, RunLimits, RunStage, RunState,
    RunTotals,
};
pub use content::scanner::{
    scan_content_streams, ContentCancellation, ContentScanJob, ContentScanPhase, ContentScanPoll,
    NeverCancelled,
};
pub use content::scene::{
    BlendMode, CommandSource, DeviceColor, FillRule, GraphicsResourceSource, LineCap, LineJoin,
    Matrix, Paint, PathSegment, SceneBounds, ScenePoint, SceneScalar, SceneUnit,
};
pub use content::text::{FontFace, FontOutline, RunOutline};
pub use content::text_math::FontPoint;
pub use content::text_model::{GlyphSegment, GlyphUse, OutlineSegment, TextReply};
pub use content::vm_error::{
    ContentFontLimit, ContentFontLimitKind, ContentGraphicsLimit, ContentGraphicsLimitKind,
    ContentImageLimit, ContentImageLimitKind, ContentUnsupported, ContentUnsupportedKind,
    ContentVmError, ContentVmErrorCategory, ContentVmErrorCode, ContentVmFailure, ContentVmLimit,
    ContentVmLimitContext, ContentVmLimitKind, ContentVmRecoverability, DocumentError,
    ImageUnsupported, SceneError,
};
pub use content::vm_limits::{ContentVmLimitConfig, ContentVmLimits};
