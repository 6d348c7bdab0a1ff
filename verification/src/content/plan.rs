//! Semantic actions of one execution plan.

use vstd::prelude::*;

use crate::content::model::{ContentOperatorSource, ObjectRef};
use crate::content::number::ContentNumber;
use crate::content::scene::{
    operator_source_of, BlendMode, CommandSource, FillRule, LineCap, LineJoin, Matrix, Paint,
    SceneBounds, SceneScalar, SceneUnit,
};

verus! {

/// Stroke parameters captured when a path is painted. The dash is a place in the plan's registry.
#[derive(Clone, Copy, Debug, PartialEq, Eq, Structural)]
pub struct LineStyle {
    pub width: SceneScalar,
    pub cap: LineCap,
    pub join: LineJoin,
    pub miter_limit: SceneScalar,
    pub dash: usize,
    pub ctm: Matrix,
}

/// One item of shown text: bytes by their place in the plan's registry, or an adjustment.
#[derive(Clone, Copy, PartialEq, Eq, Structural)]
pub enum TextShowItem {
    Bytes(usize),
    Adjustment(ContentNumber),
}

/// One text action. Names and items are places in the plan's registries.
#[allow(inconsistent_fields)]
#[derive(Clone, Copy, PartialEq, Eq, Structural)]
pub enum TextAction {
    Begin { source: ContentOperatorSource },
    End { source: ContentOperatorSource },
    SetCharacterSpacing { value: ContentNumber, source: ContentOperatorSource },
    SetWordSpacing { value: ContentNumber, source: ContentOperatorSource },
    SetHorizontalScaling { value: ContentNumber, source: ContentOperatorSource },
    SetLeading { value: ContentNumber, source: ContentOperatorSource },
    SetFont { name: usize, size: ContentNumber, source: ContentOperatorSource },
    SetRenderMode { value: i64, source: ContentOperatorSource },
    SetRise { value: ContentNumber, source: ContentOperatorSource },
    MovePosition {
        tx: ContentNumber,
        ty: ContentNumber,
        set_leading: bool,
        source: ContentOperatorSource,
    },
    SetMatrix { matrix: Matrix, source: ContentOperatorSource },
    NextLine { source: ContentOperatorSource },
    Show {
        items: usize,
        character_spacing: Option<ContentNumber>,
        word_spacing: Option<ContentNumber>,
        next_line: bool,
        paint: Paint,
        ctm: Matrix,
        command_source: CommandSource,
        source: ContentOperatorSource,
    },
}

impl TextAction {
    /// The operator of an action, as a value.
    pub open spec fn spec_source(self) -> ContentOperatorSource {
        match self {
            TextAction::Begin { source } => source,
            TextAction::End { source } => source,
            TextAction::SetCharacterSpacing { source, .. } => source,
            TextAction::SetWordSpacing { source, .. } => source,
            TextAction::SetHorizontalScaling { source, .. } => source,
            TextAction::SetLeading { source, .. } => source,
            TextAction::SetFont { source, .. } => source,
            TextAction::SetRenderMode { source, .. } => source,
            TextAction::SetRise { source, .. } => source,
            TextAction::MovePosition { source, .. } => source,
            TextAction::SetMatrix { source, .. } => source,
            TextAction::NextLine { source } => source,
            TextAction::Show { source, .. } => source,
        }
    }

    /// Returns the operator of an action.
    pub fn source(&self) -> (source: ContentOperatorSource)
        ensures
            source == self.spec_source(),
    {
        match self {
            TextAction::Begin { source } => *source,
            TextAction::End { source } => *source,
            TextAction::SetCharacterSpacing { source, .. } => *source,
            TextAction::SetWordSpacing { source, .. } => *source,
            TextAction::SetHorizontalScaling { source, .. } => *source,
            TextAction::SetLeading { source, .. } => *source,
            TextAction::SetFont { source, .. } => *source,
            TextAction::SetRenderMode { source, .. } => *source,
            TextAction::SetRise { source, .. } => *source,
            TextAction::MovePosition { source, .. } => *source,
            TextAction::SetMatrix { source, .. } => *source,
            TextAction::NextLine { source } => *source,
            TextAction::Show { source, .. } => *source,
        }
    }
}

/// One action of an execution plan. Paths, tags and text are places in the plan's registries.
#[allow(inconsistent_fields)]
#[derive(Clone, Copy, PartialEq, Eq, Structural)]
pub enum ExecutionAction {
    BeginMarkedContent { tag: usize, properties: Option<ObjectRef>, source: CommandSource },
    EndMarkedContent { source: CommandSource },
    Save { bounds: SceneBounds, source: CommandSource },
    Restore { bounds: SceneBounds, source: CommandSource },
    BeginGroup {
        alpha: SceneUnit,
        blend_mode: BlendMode,
        bounds: SceneBounds,
        source: CommandSource,
    },
    EndGroup { bounds: SceneBounds, source: CommandSource },
    Clip {
        path: usize,
        rule: FillRule,
        transform: Matrix,
        bounds: SceneBounds,
        source: CommandSource,
    },
    Fill {
        path: usize,
        rule: FillRule,
        paint: Paint,
        transform: Matrix,
        bounds: SceneBounds,
        source: CommandSource,
    },
    Stroke {
        path: usize,
        paint: Paint,
        style: LineStyle,
        transform: Matrix,
        bounds: SceneBounds,
        source: CommandSource,
    },
    FillStroke {
        path: usize,
        rule: FillRule,
        fill: Paint,
        stroke: Paint,
        style: LineStyle,
        transform: Matrix,
        bounds: SceneBounds,
        source: CommandSource,
    },
    DrawImage {
        source: ContentOperatorSource,
        command_source: CommandSource,
        transform: Matrix,
        alpha: SceneUnit,
        blend_mode: BlendMode,
        bounds: SceneBounds,
    },
    Text(TextAction),
}

/// The operator that an action came from.
pub open spec fn action_source(action: ExecutionAction) -> ContentOperatorSource {
    match action {
        ExecutionAction::BeginMarkedContent { source, .. } => operator_source_of(source),
        ExecutionAction::EndMarkedContent { source } => operator_source_of(source),
        ExecutionAction::Save { source, .. } => operator_source_of(source),
        ExecutionAction::Restore { source, .. } => operator_source_of(source),
        ExecutionAction::BeginGroup { source, .. } => operator_source_of(source),
        ExecutionAction::EndGroup { source, .. } => operator_source_of(source),
        ExecutionAction::Clip { source, .. } => operator_source_of(source),
        ExecutionAction::Fill { source, .. } => operator_source_of(source),
        ExecutionAction::Stroke { source, .. } => operator_source_of(source),
        ExecutionAction::FillStroke { source, .. } => operator_source_of(source),
        ExecutionAction::DrawImage { source, .. } => source,
        ExecutionAction::Text(action) => action.spec_source(),
    }
}

/// Returns the operator that an action came from.
pub fn action_operator_source(action: &ExecutionAction) -> (source: ContentOperatorSource)
    ensures
        source == action_source(*action),
{
    let command = match action {
        ExecutionAction::BeginMarkedContent { source, .. } => *source,
        ExecutionAction::EndMarkedContent { source } => *source,
        ExecutionAction::Save { source, .. } => *source,
        ExecutionAction::Restore { source, .. } => *source,
        ExecutionAction::BeginGroup { source, .. } => *source,
        ExecutionAction::EndGroup { source, .. } => *source,
        ExecutionAction::Clip { source, .. } => *source,
        ExecutionAction::Fill { source, .. } => *source,
        ExecutionAction::Stroke { source, .. } => *source,
        ExecutionAction::FillStroke { source, .. } => *source,
        ExecutionAction::DrawImage { source, .. } => {
            return *source;
        },
        ExecutionAction::Text(action) => {
            return action.source();
        },
    };
    ContentOperatorSource::new(command.span, command.operator_index as u64)
}

} // verus!
