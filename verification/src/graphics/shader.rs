//! Shader programs and the blend-mode-keyed pipeline cache.
//!
//! A [`PipelineObjectSet`] maps each of the four blend modes to at most one
//! compiled pipeline handle; a binding, once made, is never replaced.  A
//! [`ShaderProgram`] pairs such a set with the currently active blend mode
//! and is the point where "which blend mode is requested" meets "which
//! compiled pipeline gets bound".  Building a pipeline needs a device and
//! belongs to the device layer; the core works with opaque handles.

use vstd::prelude::*;

use crate::graphics::BlendMode;
use crate::graphics::DrawCommand;
use crate::graphics::GraphicsError;
use crate::graphics::PipelineData;
use crate::scalar::Scalar;
use crate::scalar::SCALAR_ONE;

verus! {

/// How the vertices of a pipeline's input are assembled into primitives.
#[derive(Clone, Copy, Debug, PartialEq, Eq, Structural)]
pub enum VertexTopology {
    PointList,
    TriangleFan,
    TriangleList,
    TriangleStrip,
}

/// The stage a shader entry point belongs to.
#[derive(Clone, Copy, Debug, PartialEq, Eq, Structural)]
pub enum ShaderType {
    Vertex,
    Fragment,
    TessellationControl,
    TessellationEval,
    Geometry,
    Default,
}

/// A shader program's identifier: its position in the registration order
/// of the owning context.
pub type ShaderId = usize;

/// The operation combining the source and destination components.
#[derive(Clone, Copy, Debug, PartialEq, Eq, Structural)]
pub enum BlendOp {
    Add,
    Subtract,
}

/// The factor a component is scaled by before the blend operation.
#[derive(Clone, Copy, Debug, PartialEq, Eq, Structural)]
pub enum BlendFactor {
    One,
    SrcAlpha,
    OneMinusSrcAlpha,
}

/// A framebuffer logic operation, applied in place of blending.
#[derive(Clone, Copy, Debug, PartialEq, Eq, Structural)]
pub enum BlendLogicOp {
    Invert,
}

/// The per-attachment blend rule: operation and factors for the color
/// components, and the same for the alpha component.
#[derive(Clone, Copy, Debug, PartialEq, Eq, Structural)]
pub struct AttachmentBlend {
    pub color_op: BlendOp,
    pub color_source: BlendFactor,
    pub color_destination: BlendFactor,
    pub alpha_op: BlendOp,
    pub alpha_source: BlendFactor,
    pub alpha_destination: BlendFactor,
}

/// The fixed-function color-blend state a pipeline is built with: an
/// optional logic operation, an optional attachment blend rule, and the
/// four blend constants.
#[derive(Clone, Copy, Debug, PartialEq)]
pub struct ColorBlendDescription {
    pub logic_op: Option<BlendLogicOp>,
    pub blend: Option<AttachmentBlend>,
    pub blend_constants: [Scalar; 4],
}

/// The color-blend state each blend mode maps to.  Add and Subtract
/// combine source and destination at full weight with the matching
/// operation; Alpha is the standard alpha blend (source scaled by source
/// alpha, destination by one minus source alpha); Invert is the invert
/// logic operation with blending off.
pub open spec fn spec_blend_description(mode: BlendMode) -> ColorBlendDescription {
    let constants = [SCALAR_ONE, SCALAR_ONE, SCALAR_ONE, SCALAR_ONE];
    match mode {
        BlendMode::Add => ColorBlendDescription {
            logic_op: None,
            blend: Some(
                AttachmentBlend {
                    color_op: BlendOp::Add,
                    color_source: BlendFactor::One,
                    color_destination: BlendFactor::One,
                    alpha_op: BlendOp::Add,
                    alpha_source: BlendFactor::One,
                    alpha_destination: BlendFactor::One,
                },
            ),
            blend_constants: constants,
        },
        BlendMode::Subtract => ColorBlendDescription {
            logic_op: None,
            blend: Some(
                AttachmentBlend {
                    color_op: BlendOp::Subtract,
                    color_source: BlendFactor::One,
                    color_destination: BlendFactor::One,
                    alpha_op: BlendOp::Subtract,
                    alpha_source: BlendFactor::One,
                    alpha_destination: BlendFactor::One,
                },
            ),
            blend_constants: constants,
        },
        BlendMode::Alpha => ColorBlendDescription {
            logic_op: None,
            blend: Some(
                AttachmentBlend {
                    color_op: BlendOp::Add,
                    color_source: BlendFactor::SrcAlpha,
                    color_destination: BlendFactor::OneMinusSrcAlpha,
                    alpha_op: BlendOp::Add,
                    alpha_source: BlendFactor::SrcAlpha,
                    alpha_destination: BlendFactor::OneMinusSrcAlpha,
                },
            ),
            blend_constants: constants,
        },
        BlendMode::Invert => ColorBlendDescription {
            logic_op: Some(BlendLogicOp::Invert),
            blend: None,
            blend_constants: constants,
        },
    }
}

impl From<BlendMode> for ColorBlendDescription {
    /// The fixed-function state for one blend mode, exactly as
    /// [`spec_blend_description`] states it.
    fn from(mode: BlendMode) -> (d: ColorBlendDescription) {
        let mut logic_op: Option<BlendLogicOp> = None;
        let mut blend: Option<AttachmentBlend> = None;
        let blend_constants: [Scalar; 4] = [SCALAR_ONE, SCALAR_ONE, SCALAR_ONE, SCALAR_ONE];
        match mode {
            BlendMode::Add => {
                blend = Some(
                    AttachmentBlend {
                        color_op: BlendOp::Add,
                        color_source: BlendFactor::One,
                        color_destination: BlendFactor::One,
                        alpha_op: BlendOp::Add,
                        alpha_source: BlendFactor::One,
                        alpha_destination: BlendFactor::One,
                    },
                );
            },
            BlendMode::Subtract => {
                blend = Some(
                    AttachmentBlend {
                        color_op: BlendOp::Subtract,
                        color_source: BlendFactor::One,
                        color_destination: BlendFactor::One,
                        alpha_op: BlendOp::Subtract,
                        alpha_source: BlendFactor::One,
                        alpha_destination: BlendFactor::One,
                    },
                );
            },
            BlendMode::Alpha => {
                blend = Some(
                    AttachmentBlend {
                        color_op: BlendOp::Add,
                        color_source: BlendFactor::SrcAlpha,
                        color_destination: BlendFactor::OneMinusSrcAlpha,
                        alpha_op: BlendOp::Add,
                        alpha_source: BlendFactor::SrcAlpha,
                        alpha_destination: BlendFactor::OneMinusSrcAlpha,
                    },
                );
            },
            BlendMode::Invert => {
                logic_op = Some(BlendLogicOp::Invert);
            },
        }
        let d = ColorBlendDescription { logic_op, blend, blend_constants };
        proof {
            assert(d.blend_constants =~= spec_blend_description(mode).blend_constants);
        }
        d
    }
}

impl vstd::std_specs::convert::FromSpecImpl<BlendMode> for ColorBlendDescription {
    open spec fn obeys_from_spec() -> bool {
        true
    }

    open spec fn from_spec(mode: BlendMode) -> ColorBlendDescription {
        spec_blend_description(mode)
    }
}

/// The pipeline cache: at most one compiled pipeline handle per blend
/// mode.  A miss means "not yet built", not an error; a binding, once
/// made, is never replaced.
pub struct PipelineObjectSet<H> {
    pub add: Option<H>,
    pub subtract: Option<H>,
    pub alpha: Option<H>,
    pub invert: Option<H>,
}

impl<H> PipelineObjectSet<H> {
    /// The pipeline registered for a mode, if any.
    pub open spec fn spec_lookup(&self, mode: BlendMode) -> Option<H> {
        match mode {
            BlendMode::Add => self.add,
            BlendMode::Subtract => self.subtract,
            BlendMode::Alpha => self.alpha,
            BlendMode::Invert => self.invert,
        }
    }

    /// An empty cache.
    pub fn new() -> (s: PipelineObjectSet<H>)
        ensures
            forall|m: BlendMode| s.spec_lookup(m) is None,
    {
        PipelineObjectSet { add: None, subtract: None, alpha: None, invert: None }
    }

    /// Register the pipeline for a mode.  Each mode is registered at most
    /// once for the lifetime of the set; there is no replacement path.
    pub fn insert(&mut self, blend_mode: BlendMode, pipeline: H)
        requires
            old(self).spec_lookup(blend_mode) is None,
        ensures
            final(self).spec_lookup(blend_mode) == Some(pipeline),
            forall|m: BlendMode|
                m != blend_mode ==> final(self).spec_lookup(m) == old(self).spec_lookup(m),
    {
        match blend_mode {
            BlendMode::Add => self.add = Some(pipeline),
            BlendMode::Subtract => self.subtract = Some(pipeline),
            BlendMode::Alpha => self.alpha = Some(pipeline),
            BlendMode::Invert => self.invert = Some(pipeline),
        }
    }

    /// Look up the pipeline registered for a mode.
    pub fn get(&self, blend_mode: &BlendMode) -> (r: Option<&H>)
        ensures
            r is Some <==> self.spec_lookup(*blend_mode) is Some,
            r matches Some(p) ==> self.spec_lookup(*blend_mode) == Some(*p),
    {
        match blend_mode {
            BlendMode::Add => self.add.as_ref(),
            BlendMode::Subtract => self.subtract.as_ref(),
            BlendMode::Alpha => self.alpha.as_ref(),
            BlendMode::Invert => self.invert.as_ref(),
        }
    }
}

/// A shader program: its pipeline cache and the currently active blend
/// mode.
pub struct ShaderProgram<H> {
    pub pipelines: PipelineObjectSet<H>,
    pub current_mode: BlendMode,
}

impl<H> ShaderProgram<H> {
    /// A program around one already-built pipeline, with that pipeline's
    /// blend mode active.
    pub fn from_pipeline(mode: BlendMode, pipeline: H) -> (s: ShaderProgram<H>)
        ensures
            s.current_mode == mode,
            s.pipelines.spec_lookup(mode) == Some(pipeline),
            forall|m: BlendMode| m != mode ==> s.pipelines.spec_lookup(m) is None,
    {
        let mut pipeline_os = PipelineObjectSet::new();
        pipeline_os.insert(mode, pipeline);
        ShaderProgram { pipelines: pipeline_os, current_mode: mode }
    }

    /// The active blend mode.
    pub fn blend_mode(&self) -> (m: BlendMode)
        ensures
            m == self.current_mode,
    {
        self.current_mode
    }

    /// Switch the active blend mode.  Selection has no side effect on the
    /// pipeline set; it builds nothing.
    pub fn set_current_mode(&mut self, mode: BlendMode)
        ensures
            final(self).current_mode == mode,
            final(self).pipelines == old(self).pipelines,
    {
        self.current_mode = mode;
    }

    /// Resolve the pipeline for the active blend mode.  Selecting a mode
    /// no pipeline was registered for is a violated precondition of the
    /// draw path and is reported as such.
    pub fn pipeline(&self) -> (r: Result<&H, GraphicsError>)
        ensures
            r matches Ok(p) ==> self.pipelines.spec_lookup(self.current_mode) == Some(*p),
            r is Err <==> self.pipelines.spec_lookup(self.current_mode) is None,
            r matches Err(e) ==> e == (GraphicsError::MissingPipeline { mode: self.current_mode }),
    {
        match self.pipelines.get(&self.current_mode) {
            Some(p) => Ok(p),
            None => Err(GraphicsError::MissingPipeline { mode: self.current_mode }),
        }
    }

    /// Resolve the pipeline whose layout the descriptor sets are written
    /// against: the one registered for the active blend mode.
    pub fn layout(&self) -> (r: Result<&H, GraphicsError>)
        ensures
            r matches Ok(p) ==> self.pipelines.spec_lookup(self.current_mode) == Some(*p),
            r is Err <==> self.pipelines.spec_lookup(self.current_mode) is None,
            r matches Err(e) ==> e == (GraphicsError::MissingPipeline { mode: self.current_mode }),
    {
        match self.pipelines.get(&self.current_mode) {
            Some(p) => Ok(p),
            None => Err(GraphicsError::MissingPipeline { mode: self.current_mode }),
        }
    }

    /// Record one batched draw: bind the pipeline of the active blend
    /// mode, bind the resource-descriptor set, bind the vertex and
    /// instance buffers, and issue exactly one instanced draw with the
    /// payload's counts.  Fails, recording nothing, exactly when no
    /// pipeline was registered for the active mode.
    pub fn draw(&self, commands: &mut Vec<DrawCommand>, data: &PipelineData) -> (r: Result<
        (),
        GraphicsError,
    >)
        ensures
            r is Ok <==> self.pipelines.spec_lookup(self.current_mode) is Some,
            r is Ok ==> final(commands)@ == old(commands)@ + seq![
                DrawCommand::BindPipeline { mode: self.current_mode },
                DrawCommand::BindDescriptorSets { slot: 1 },
                DrawCommand::BindVertexBuffers { slot: 0 },
                DrawCommand::Draw {
                    vertex_count: data.vertex_count,
                    instance_count: data.instance_count,
                },
            ],
            r is Err ==> final(commands)@ == old(commands)@,
            r matches Err(e) ==> e == (GraphicsError::MissingPipeline { mode: self.current_mode }),
    {
        match self.pipelines.get(&self.current_mode) {
            None => Err(GraphicsError::MissingPipeline { mode: self.current_mode }),
            Some(_) => {
                commands.push(DrawCommand::BindPipeline { mode: self.current_mode });
                commands.push(DrawCommand::BindDescriptorSets { slot: 1 });
                commands.push(DrawCommand::BindVertexBuffers { slot: 0 });
                commands.push(
                    DrawCommand::Draw {
                        vertex_count: data.vertex_count,
                        instance_count: data.instance_count,
                    },
                );
                proof {
                    assert(commands@ =~= old(commands)@ + seq![
                        DrawCommand::BindPipeline { mode: self.current_mode },
                        DrawCommand::BindDescriptorSets { slot: 1 },
                        DrawCommand::BindVertexBuffers { slot: 0 },
                        DrawCommand::Draw {
                            vertex_count: data.vertex_count,
                            instance_count: data.instance_count,
                        },
                    ]);
                }
                Ok(())
            },
        }
    }
}

/// Once a pipeline is registered for the active mode, resolving it twice
/// yields the same pipeline identity: resolution reads the set, and
/// nothing on the draw path writes it.
pub fn repeated_lookups_agree<H>(program: &ShaderProgram<H>) -> (r: (
    Result<&H, GraphicsError>,
    Result<&H, GraphicsError>,
))
    ensures
        r.0 matches Ok(a) ==> r.1 matches Ok(b) && *a == *b,
        r.0 is Err ==> r.1 is Err,
{
    (program.pipeline(), program.pipeline())
}

} // verus!
