//! The renderer core: draw attributes, instance packing, the per-frame
//! command stream, and frame orchestration.
//!
//! Submitting work to a device and presenting a swapchain image belong to
//! the surrounding program; this module models the frame as the sequence of
//! commands it records, so that what is bound and drawn, and in which
//! order, is stated and proved.

pub mod color;
pub mod shader;
pub mod sprite;
pub mod transform;

use vstd::prelude::*;

use crate::graphics::color::Color;
use crate::graphics::color::Rect;
use crate::graphics::transform::Angle;
use crate::graphics::transform::Mat4;
use crate::graphics::transform::Transform;
use crate::graphics::transform::Vec2;
use crate::graphics::transform::Vec3;
use crate::graphics::transform::spec_dest;
use crate::graphics::transform::spec_identity_transform;
use crate::graphics::transform::spec_rotated;
use crate::graphics::transform::spec_rotation_set;
use crate::graphics::transform::spec_scaled;
use crate::graphics::transform::spec_transform_mat;
use crate::graphics::transform::spec_translated;
use crate::scalar::Scalar;
use crate::scalar::SCALAR_ONE;
use crate::scalar::SCALAR_ZERO;

verus! {

/// The fixed-function blend rule a pipeline is built for.
#[derive(Clone, Copy, Debug, PartialEq, Eq, Hash, Structural)]
pub enum BlendMode {
    Add,
    Subtract,
    Alpha,
    Invert,
}

/// One quad corner: position, texture coordinates, and a corner tint.
#[derive(Clone, Copy, Debug, PartialEq)]
pub struct Vertex {
    pub pos: Vec3,
    pub uv: Vec2,
    pub vert_color: Color,
}

/// The shared quad geometry: the four unit-square corners, fully lit, with
/// texture coordinates matching their positions.
pub open spec fn spec_quad_vertices() -> Seq<Vertex> {
    seq![
        Vertex {
            pos: Vec3 { x: SCALAR_ZERO, y: SCALAR_ZERO, z: SCALAR_ZERO },
            uv: Vec2 { x: SCALAR_ZERO, y: SCALAR_ZERO },
            vert_color: Color([SCALAR_ONE, SCALAR_ONE, SCALAR_ONE, SCALAR_ONE]),
        },
        Vertex {
            pos: Vec3 { x: SCALAR_ZERO, y: SCALAR_ONE, z: SCALAR_ZERO },
            uv: Vec2 { x: SCALAR_ZERO, y: SCALAR_ONE },
            vert_color: Color([SCALAR_ONE, SCALAR_ONE, SCALAR_ONE, SCALAR_ONE]),
        },
        Vertex {
            pos: Vec3 { x: SCALAR_ONE, y: SCALAR_ZERO, z: SCALAR_ZERO },
            uv: Vec2 { x: SCALAR_ONE, y: SCALAR_ZERO },
            vert_color: Color([SCALAR_ONE, SCALAR_ONE, SCALAR_ONE, SCALAR_ONE]),
        },
        Vertex {
            pos: Vec3 { x: SCALAR_ONE, y: SCALAR_ONE, z: SCALAR_ZERO },
            uv: Vec2 { x: SCALAR_ONE, y: SCALAR_ONE },
            vert_color: Color([SCALAR_ONE, SCALAR_ONE, SCALAR_ONE, SCALAR_ONE]),
        },
    ]
}

/// Build the shared quad geometry.
pub fn quad_vertices() -> (r: Vec<Vertex>)
    ensures
        r@ == spec_quad_vertices(),
{
    let mut v: Vec<Vertex> = Vec::new();
    v.push(
        Vertex {
            pos: Vec3 { x: SCALAR_ZERO, y: SCALAR_ZERO, z: SCALAR_ZERO },
            uv: Vec2 { x: SCALAR_ZERO, y: SCALAR_ZERO },
            vert_color: Color([SCALAR_ONE, SCALAR_ONE, SCALAR_ONE, SCALAR_ONE]),
        },
    );
    v.push(
        Vertex {
            pos: Vec3 { x: SCALAR_ZERO, y: SCALAR_ONE, z: SCALAR_ZERO },
            uv: Vec2 { x: SCALAR_ZERO, y: SCALAR_ONE },
            vert_color: Color([SCALAR_ONE, SCALAR_ONE, SCALAR_ONE, SCALAR_ONE]),
        },
    );
    v.push(
        Vertex {
            pos: Vec3 { x: SCALAR_ONE, y: SCALAR_ZERO, z: SCALAR_ZERO },
            uv: Vec2 { x: SCALAR_ONE, y: SCALAR_ZERO },
            vert_color: Color([SCALAR_ONE, SCALAR_ONE, SCALAR_ONE, SCALAR_ONE]),
        },
    );
    v.push(
        Vertex {
            pos: Vec3 { x: SCALAR_ONE, y: SCALAR_ONE, z: SCALAR_ZERO },
            uv: Vec2 { x: SCALAR_ONE, y: SCALAR_ONE },
            vert_color: Color([SCALAR_ONE, SCALAR_ONE, SCALAR_ONE, SCALAR_ONE]),
        },
    );
    proof {
        assert(v@ =~= spec_quad_vertices());
    }
    v
}

/// One sprite instance's draw attributes: its texture region, tint, and
/// pose.
#[derive(Clone, Copy, Debug, PartialEq)]
pub struct DrawInfo {
    pub tex_rect: Rect,
    pub color: Color,
    pub transform: Transform,
}

/// The default draw attributes: full texture region, opaque white tint,
/// identity pose.
pub open spec fn spec_default_draw_info() -> DrawInfo {
    DrawInfo {
        tex_rect: Rect { x: SCALAR_ZERO, y: SCALAR_ZERO, w: SCALAR_ONE, h: SCALAR_ONE },
        color: Color([SCALAR_ONE, SCALAR_ONE, SCALAR_ONE, SCALAR_ONE]),
        transform: spec_identity_transform(),
    }
}

impl DrawInfo {
    /// The default draw attributes.
    pub fn new() -> (r: DrawInfo)
        ensures
            r == spec_default_draw_info(),
    {
        DrawInfo {
            tex_rect: Rect::default(),
            color: Color::white(),
            transform: Transform::identity(),
        }
    }

    /// Restore the default draw attributes.
    pub fn reset(&mut self)
        ensures
            *final(self) == spec_default_draw_info(),
    {
        self.tex_rect = Rect::default();
        self.color = Color::white();
        self.transform = Transform::identity();
    }

    /// Default attributes with the given texture region.
    pub fn with_rect(rect: Rect) -> (r: DrawInfo)
        ensures
            r == (DrawInfo { tex_rect: rect, ..spec_default_draw_info() }),
    {
        DrawInfo { tex_rect: rect, color: Color::white(), transform: Transform::identity() }
    }

    /// Default attributes with the given pose.
    pub fn with_transform(transform: Transform) -> (r: DrawInfo)
        ensures
            r == (DrawInfo { transform, ..spec_default_draw_info() }),
    {
        DrawInfo { tex_rect: Rect::default(), color: Color::white(), transform }
    }

    /// Default attributes with the given tint.
    pub fn with_color(color: Color) -> (r: DrawInfo)
        ensures
            r == (DrawInfo { color, ..spec_default_draw_info() }),
    {
        DrawInfo { tex_rect: Rect::default(), color, transform: Transform::identity() }
    }

    /// Accumulate a translation on the pose.
    pub fn translate(&mut self, x: Scalar, y: Scalar, z: Scalar)
        ensures
            *final(self) == (DrawInfo {
                transform: spec_translated(old(self).transform, x, y, z),
                ..*old(self)
            }),
    {
        self.transform.translate(x, y, z);
    }

    /// Rotate the pose by per-axis angles.
    pub fn rotate(&mut self, x: Angle, y: Angle, z: Angle)
        ensures
            *final(self) == (DrawInfo {
                transform: spec_rotated(old(self).transform, x, y, z),
                ..*old(self)
            }),
    {
        self.transform.rotate(x, y, z);
    }

    /// Overwrite the pose's rotation.
    pub fn rotate_value(&mut self, r: Angle)
        ensures
            *final(self) == (DrawInfo {
                transform: spec_rotation_set(old(self).transform, r),
                ..*old(self)
            }),
    {
        self.transform.rotate_value(r);
    }

    /// Overwrite the pose's scale per axis.
    pub fn nonuniform_scale(&mut self, x: Scalar, y: Scalar, z: Scalar)
        ensures
            *final(self) == (DrawInfo {
                transform: spec_scaled(old(self).transform, x, y, z),
                ..*old(self)
            }),
    {
        self.transform.nonuniform_scale(x, y, z);
    }

    /// Overwrite the pose's scale uniformly.
    pub fn scale(&mut self, s: Scalar)
        ensures
            *final(self) == (DrawInfo {
                transform: spec_scaled(old(self).transform, s, s, s),
                ..*old(self)
            }),
    {
        self.transform.nonuniform_scale(s, s, s);
    }

    /// Overwrite the pose's destination.
    pub fn dest(&mut self, x: Scalar, y: Scalar, z: Scalar)
        ensures
            *final(self) == (DrawInfo {
                transform: spec_dest(old(self).transform, x, y, z),
                ..*old(self)
            }),
    {
        self.transform.dest(x, y, z);
    }
}

impl Default for DrawInfo {
    /// The default draw attributes.
    fn default() -> (r: DrawInfo)
        ensures
            r == spec_default_draw_info(),
    {
        DrawInfo::new()
    }
}

/// One instance record as the instance buffer carries it: the texture
/// region, the tint, and the pose's render matrix.
#[derive(Clone, Copy, Debug, PartialEq)]
pub struct InstanceData {
    pub src: Rect,
    pub color: Color,
    pub transform: Mat4,
}

/// The instance record of one sprite's draw attributes.  This is the one
/// place a pose is turned into a matrix.
pub open spec fn spec_instance_of(info: DrawInfo) -> InstanceData {
    InstanceData {
        src: info.tex_rect,
        color: info.color,
        transform: spec_transform_mat(info.transform),
    }
}

impl From<DrawInfo> for InstanceData {
    fn from(info: DrawInfo) -> (r: InstanceData) {
        InstanceData {
            src: info.tex_rect,
            color: info.color,
            transform: info.transform.as_mat4(),
        }
    }
}

impl vstd::std_specs::convert::FromSpecImpl<DrawInfo> for InstanceData {
    open spec fn obeys_from_spec() -> bool {
        true
    }

    open spec fn from_spec(info: DrawInfo) -> InstanceData {
        spec_instance_of(info)
    }
}

/// One write into the resource-descriptor set, identified by its binding
/// slot.  The bound object itself (a buffer, or an image view with its
/// sampler) lives with the device layer; the record here fixes which slot
/// is written with which kind of resource.
#[derive(Clone, Copy, Debug, PartialEq, Eq, Structural)]
pub enum DescriptorWrite {
    Buffer { binding: u32 },
    SampledImage { binding: u32 },
}

/// The payload of one batched draw call: the vertex and instance counts and
/// the descriptor writes backing it.
#[derive(Clone, Debug, PartialEq)]
pub struct PipelineData {
    pub vertex_count: u32,
    pub instance_count: u32,
    pub descriptors: Option<Vec<DescriptorWrite>>,
}

/// The descriptor writes a payload carries; none recorded counts as empty.
pub open spec fn spec_descriptor_writes(d: PipelineData) -> Seq<DescriptorWrite> {
    match d.descriptors {
        None => Seq::empty(),
        Some(v) => v@,
    }
}

impl PipelineData {
    /// Record a buffer write at the given binding slot.
    pub fn buffer(&mut self, binding: u32)
        ensures
            final(self).vertex_count == old(self).vertex_count,
            final(self).instance_count == old(self).instance_count,
            spec_descriptor_writes(*final(self)) == spec_descriptor_writes(*old(self)).push(
                DescriptorWrite::Buffer { binding },
            ),
    {
        let mut v: Vec<DescriptorWrite> = match self.descriptors.take() {
            Some(v) => v,
            None => Vec::new(),
        };
        v.push(DescriptorWrite::Buffer { binding });
        proof {
            assert(v@ =~= spec_descriptor_writes(*old(self)).push(
                DescriptorWrite::Buffer { binding },
            ));
        }
        self.descriptors = Some(v);
    }

    /// Record an image-with-sampler write at the given binding slot.
    pub fn sampled_image(&mut self, binding: u32)
        ensures
            final(self).vertex_count == old(self).vertex_count,
            final(self).instance_count == old(self).instance_count,
            spec_descriptor_writes(*final(self)) == spec_descriptor_writes(*old(self)).push(
                DescriptorWrite::SampledImage { binding },
            ),
    {
        let mut v: Vec<DescriptorWrite> = match self.descriptors.take() {
            Some(v) => v,
            None => Vec::new(),
        };
        v.push(DescriptorWrite::SampledImage { binding });
        proof {
            assert(v@ =~= spec_descriptor_writes(*old(self)).push(
                DescriptorWrite::SampledImage { binding },
            ));
        }
        self.descriptors = Some(v);
    }
}

/// A failure the renderer core reports to its caller.
#[derive(Clone, Copy, Debug, PartialEq, Eq, Structural)]
pub enum GraphicsError {
    /// Pipeline resolution was asked for a blend mode no pipeline was ever
    /// registered for: a violated precondition of the draw path, reported
    /// rather than resolved silently.
    MissingPipeline { mode: BlendMode },
    /// A draw was submitted while no shader program was selected.
    NoActiveShader,
    /// The selected shader identifier names no registered program.
    UnknownShader { id: usize },
}

/// One command of the per-frame stream, in the order the device layer is to
/// perform them.
#[derive(Clone, Copy, Debug, PartialEq)]
pub enum DrawCommand {
    /// Begin the render target, cleared to the given color.
    BeginTarget { clear: Color },
    /// Bind the pipeline registered for the given blend mode.
    BindPipeline { mode: BlendMode },
    /// Bind the resource-descriptor set at the given set slot.
    BindDescriptorSets { slot: u32 },
    /// Bind the quad vertex buffer and the instance buffer at the given
    /// first binding.
    BindVertexBuffers { slot: u32 },
    /// Issue one instanced draw.
    Draw { vertex_count: u32, instance_count: u32 },
    /// Present the frame.
    Present,
}

/// Where a context stands in the begin-draw-present protocol.
#[derive(Clone, Copy, Debug, PartialEq, Eq, Structural)]
pub enum FramePhase {
    Idle,
    InFrame,
}

/// The frame-orchestration state: the registered shader programs, the
/// selected one, the protocol phase, and the command stream recorded so
/// far.  `H` is the handle type of a compiled pipeline object; the core
/// never looks inside one.
pub struct GraphicsContext<H> {
    pub programs: Vec<crate::graphics::shader::ShaderProgram<H>>,
    pub current_shader: Option<crate::graphics::shader::ShaderId>,
    pub phase: FramePhase,
    pub commands: Vec<DrawCommand>,
}

impl<H> GraphicsContext<H> {
    /// An idle context with no programs, no selection, and an empty stream.
    pub fn new() -> (c: GraphicsContext<H>)
        ensures
            c.programs@ == Seq::<crate::graphics::shader::ShaderProgram<H>>::empty(),
            c.current_shader is None,
            c.phase is Idle,
            c.commands@ == Seq::<DrawCommand>::empty(),
    {
        GraphicsContext {
            programs: Vec::new(),
            current_shader: None,
            phase: FramePhase::Idle,
            commands: Vec::new(),
        }
    }

    /// Register a shader program and select it; its identifier is its
    /// position in the registration order.
    pub fn register_program(&mut self, program: crate::graphics::shader::ShaderProgram<H>) -> (id:
        crate::graphics::shader::ShaderId)
        ensures
            final(self).programs@ == old(self).programs@.push(program),
            id == old(self).programs@.len(),
            final(self).current_shader == Some(id),
            final(self).phase == old(self).phase,
            final(self).commands == old(self).commands,
    {
        let id = self.programs.len();
        self.programs.push(program);
        self.current_shader = Some(id);
        id
    }
}

/// What a drawable object promises of its draw: the frame phase, the
/// shader selection and the registered programs are left as they were; only
/// the command stream grows.
pub trait Drawable<H> {
    /// The state in which the object can be drawn at all.
    spec fn ready(&self) -> bool;

    /// Record this object's draw into the context's command stream.
    fn draw(&self, ctx: &mut GraphicsContext<H>, info: DrawInfo) -> (r: Result<(), GraphicsError>)
        requires
            old(ctx).phase is InFrame,
            self.ready(),
        ensures
            final(ctx).phase == old(ctx).phase,
            final(ctx).current_shader == old(ctx).current_shader,
            final(ctx).programs == old(ctx).programs,
    ;
}

/// Begin a frame: record the cleared render target and enter the in-frame
/// phase.
pub fn begin_frame<H>(ctx: &mut GraphicsContext<H>, color: Color)
    requires
        old(ctx).phase is Idle,
    ensures
        final(ctx).phase is InFrame,
        final(ctx).commands@ == old(ctx).commands@.push(DrawCommand::BeginTarget { clear: color }),
        final(ctx).current_shader == old(ctx).current_shader,
        final(ctx).programs == old(ctx).programs,
{
    ctx.commands.push(DrawCommand::BeginTarget { clear: color });
    ctx.phase = FramePhase::InFrame;
}

/// Draw one drawable with the given attributes, against the pipeline the
/// currently selected shader program resolves for its active blend mode.
pub fn draw<H, D: Drawable<H>>(ctx: &mut GraphicsContext<H>, drawable: &D, info: DrawInfo) -> (r:
    Result<(), GraphicsError>)
    requires
        old(ctx).phase is InFrame,
        drawable.ready(),
    ensures
        final(ctx).phase == old(ctx).phase,
        final(ctx).current_shader == old(ctx).current_shader,
        final(ctx).programs == old(ctx).programs,
{
    drawable.draw(ctx, info)
}

/// Draw one drawable under a temporary shader selection.  The previous
/// selection is restored whatever the draw reports, so a failed draw never
/// leaks the override into the frames that follow.
pub fn draw_with<H, D: Drawable<H>>(
    ctx: &mut GraphicsContext<H>,
    drawable: &D,
    info: DrawInfo,
    shader: crate::graphics::shader::ShaderId,
) -> (r: Result<(), GraphicsError>)
    requires
        old(ctx).phase is InFrame,
        drawable.ready(),
        old(ctx).current_shader is Some,
    ensures
        final(ctx).phase == old(ctx).phase,
        final(ctx).current_shader == old(ctx).current_shader,
        final(ctx).programs == old(ctx).programs,
{
    let prev = ctx.current_shader;
    ctx.current_shader = Some(shader);
    let r = drawable.draw(ctx, info);
    ctx.current_shader = prev;
    r
}

/// End the frame: record the present and return to the idle phase.  A
/// frame whose draws failed still presents.
pub fn present<H>(ctx: &mut GraphicsContext<H>)
    requires
        old(ctx).phase is InFrame,
    ensures
        final(ctx).phase is Idle,
        final(ctx).commands@ == old(ctx).commands@.push(DrawCommand::Present),
        final(ctx).current_shader == old(ctx).current_shader,
        final(ctx).programs == old(ctx).programs,
{
    ctx.commands.push(DrawCommand::Present);
    ctx.phase = FramePhase::Idle;
}

} // verus!
