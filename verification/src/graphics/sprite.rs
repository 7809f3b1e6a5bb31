//! Sprite batches: ordered accumulation of draw attributes for one shared
//! resource, flattened to one instanced draw call.

use vstd::prelude::*;

use crate::graphics::Drawable;
use crate::graphics::DrawInfo;
use crate::graphics::GraphicsContext;
use crate::graphics::GraphicsError;
use crate::graphics::InstanceData;
use crate::graphics::PipelineData;
use crate::graphics::Vertex;
use crate::graphics::quad_vertices;
use crate::graphics::spec_instance_of;
use crate::graphics::spec_quad_vertices;

verus! {

/// An ordered accumulation of draw attributes, all rendering one shared
/// visual resource `R`.  Heterogeneous resources need separate batches.
/// The batch grows only by [`SpriteBatch::insert`] and is cleared
/// explicitly by its owner; drawing never changes it.
pub struct SpriteBatch<R> {
    resource: R,
    infos: Vec<DrawInfo>,
}

impl<R> View for SpriteBatch<R> {
    type V = Seq<DrawInfo>;

    /// A batch is, abstractly, its insertion-ordered draw attributes.
    closed spec fn view(&self) -> Seq<DrawInfo> {
        self.infos@
    }
}

impl<R> SpriteBatch<R> {
    /// The shared resource every instance of this batch renders.
    pub closed spec fn spec_resource(&self) -> R {
        self.resource
    }

    /// An empty batch bound to one shared resource.
    pub fn new(resource: R) -> (b: SpriteBatch<R>)
        ensures
            b@ == Seq::<DrawInfo>::empty(),
            b.spec_resource() == resource,
    {
        SpriteBatch { resource, infos: Vec::new() }
    }

    /// Append one instance's draw attributes.  Insertion order is the draw
    /// order; no capacity limit is enforced.
    pub fn insert(&mut self, info: DrawInfo)
        ensures
            final(self)@ == old(self)@.push(info),
            final(self).spec_resource() == old(self).spec_resource(),
    {
        self.infos.push(info);
    }

    /// Drop every accumulated instance; the resource binding stays.
    pub fn clear(&mut self)
        ensures
            final(self)@ == Seq::<DrawInfo>::empty(),
            final(self).spec_resource() == old(self).spec_resource(),
    {
        self.infos.clear();
    }

    /// The number of accumulated instances.
    pub fn len(&self) -> (n: usize)
        ensures
            n == self@.len(),
    {
        self.infos.len()
    }

    /// Borrow the shared resource.
    pub fn resource(&self) -> (r: &R)
        ensures
            *r == self.spec_resource(),
    {
        &self.resource
    }

    /// Flatten the batch into draw-ready data: the fixed shared quad
    /// geometry, and one instance record per accumulated entry, in
    /// insertion order.  Reads only; flattening twice without an
    /// intervening insert yields identical output.
    pub fn flatten(&self) -> (r: (Vec<Vertex>, Vec<InstanceData>))
        ensures
            r.0@ == spec_quad_vertices(),
            r.1@.len() == self@.len(),
            forall|i: int| 0 <= i < self@.len() ==> r.1@[i] == spec_instance_of(self@[i]),
    {
        let vertices = quad_vertices();
        let mut instances: Vec<InstanceData> = Vec::new();
        let mut idx: usize = 0;
        while idx < self.infos.len()
            invariant
                idx <= self.infos.len(),
                instances@.len() == idx,
                forall|i: int| 0 <= i < idx ==> instances@[i] == spec_instance_of(self.infos@[i]),
            decreases self.infos.len() - idx,
        {
            instances.push(InstanceData::from(self.infos[idx]));
            idx = idx + 1;
        }
        (vertices, instances)
    }

    /// Record this batch's single instanced draw call: four quad vertices,
    /// one instance per accumulated entry, the batch resource written into
    /// the descriptor set, against the pipeline of the selected program's
    /// active blend mode.
    pub fn draw_into<H>(&self, ctx: &mut GraphicsContext<H>) -> (r: Result<(), GraphicsError>)
        requires
            self@.len() <= u32::MAX,
        ensures
            final(ctx).phase == old(ctx).phase,
            final(ctx).current_shader == old(ctx).current_shader,
            final(ctx).programs == old(ctx).programs,
            old(ctx).current_shader is None ==> r == Result::<(), GraphicsError>::Err(
                GraphicsError::NoActiveShader,
            ) && final(ctx).commands@ == old(ctx).commands@,
            old(ctx).current_shader matches Some(id) ==> {
                &&& id >= old(ctx).programs@.len() ==> r == Result::<(), GraphicsError>::Err(
                    GraphicsError::UnknownShader { id },
                ) && final(ctx).commands@ == old(ctx).commands@
                &&& id < old(ctx).programs@.len() ==> {
                    let program = old(ctx).programs@[id as int];
                    &&& (r is Ok <==> program.pipelines.spec_lookup(program.current_mode) is Some)
                    &&& r is Ok ==> final(ctx).commands@ == old(ctx).commands@ + seq![
                        crate::graphics::DrawCommand::BindPipeline { mode: program.current_mode },
                        crate::graphics::DrawCommand::BindDescriptorSets { slot: 1 },
                        crate::graphics::DrawCommand::BindVertexBuffers { slot: 0 },
                        crate::graphics::DrawCommand::Draw {
                            vertex_count: 4,
                            instance_count: self@.len() as u32,
                        },
                    ]
                    &&& r is Err ==> (final(ctx).commands@ == old(ctx).commands@ && r
                        == Result::<(), GraphicsError>::Err(
                        GraphicsError::MissingPipeline { mode: program.current_mode },
                    ))
                }
            },
    {
        match ctx.current_shader {
            None => Err(GraphicsError::NoActiveShader),
            Some(id) => {
                if id >= ctx.programs.len() {
                    Err(GraphicsError::UnknownShader { id })
                } else {
                    let mut data = PipelineData {
                        vertex_count: 4,
                        instance_count: self.infos.len() as u32,
                        descriptors: None,
                    };
                    data.sampled_image(0);
                    let program = &ctx.programs[id];
                    program.draw(&mut ctx.commands, &data)
                }
            },
        }
    }
}

impl<R, H> Drawable<H> for SpriteBatch<R> {
    /// A batch is drawable while its instance count fits the draw call's
    /// count field.
    open spec fn ready(&self) -> bool {
        self@.len() <= u32::MAX
    }

    /// Drawing a batch records its one instanced draw call.  The batch
    /// attributes handed down by the executor are not consulted; each
    /// instance carries its own.
    fn draw(&self, ctx: &mut GraphicsContext<H>, _info: DrawInfo) -> (r: Result<
        (),
        GraphicsError,
    >) {
        self.draw_into(ctx)
    }
}

/// Flattening is deterministic in the batch state: any two flattenings of
/// the same accumulated attributes yield identical instance sequences.
pub proof fn lemma_flatten_idempotent(
    infos: Seq<DrawInfo>,
    first: Seq<InstanceData>,
    second: Seq<InstanceData>,
)
    requires
        first.len() == infos.len(),
        forall|i: int| 0 <= i < infos.len() ==> first[i] == spec_instance_of(infos[i]),
        second.len() == infos.len(),
        forall|i: int| 0 <= i < infos.len() ==> second[i] == spec_instance_of(infos[i]),
    ensures
        first == second,
{
    assert(first =~= second);
}

} // verus!
