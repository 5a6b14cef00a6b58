//! The steps of a render pass, as data.
//!
//! The renderer decides what is drawn and in which order; whoever owns the
//! GPU objects carries the steps out one by one. The camera uniform is shared
//! and rewritten before each batch, so the steps of a pass cannot be
//! reordered.

use crate::pipeline::Pipeline;
use crate::shapes::TransformHandle;
use vstd::prelude::*;

verus! {

/// Bytes that the indices of one quad take: six indices of 16 bits.
pub const QUAD_INDEX_BYTES: u64 = 12;

/// One step of a render pass.
#[derive(Debug, Clone, Copy, PartialEq, Eq, Hash, Structural)]
pub enum RenderCommand {
    /// Overwrite the camera uniform: with the camera matrix of the frame
    /// where there is no transform, else with the product of the camera
    /// matrix and the transform.
    WriteCamera { transform: Option<TransformHandle> },
    /// Make the pipeline object of this kind current.
    SetPipeline { pipeline: Pipeline },
    /// Bind the camera uniform to slot 0.
    BindCamera,
    /// Bind the shared index data: all of it, or its first `bytes` bytes.
    SetIndexBuffer { bytes: Option<u64> },
    /// Bind the atlas binding group of a batch to slot 1.
    BindAtlas { batch: usize },
    /// Bind the vertices of a batch.
    SetVertexBuffer { batch: usize },
    /// Draw one instance through the first `indices` indices.
    DrawIndexed { indices: u32 },
}

/// What a draw needs to know of a batch.
#[derive(Debug, Clone, Copy, PartialEq, Eq, Hash, Structural)]
pub struct Primitive {
    pub pipeline: Pipeline,
    pub transform: TransformHandle,
    pub quad_count: usize,
}

impl Primitive {
    pub fn new(pipeline: Pipeline, transform: TransformHandle, quad_count: usize) -> (r: Self)
        ensures
            r == (Primitive { pipeline, transform, quad_count }),
    {
        Primitive { pipeline, transform, quad_count }
    }

    /// The kind of pipeline that draws this batch.
    pub fn pipeline(&self) -> (r: Pipeline)
        ensures
            r == self.pipeline,
    {
        self.pipeline
    }

    /// The number of quads that the index data must cover for this batch.
    pub fn quads(&self) -> (r: usize)
        ensures
            r == self.quad_count,
    {
        self.quad_count
    }
}

/// The steps that draw one batch, which is batch number `batch` of its list:
/// the camera uniform is rewritten for the transform of the batch and bound
/// again, an atlas backed batch binds its atlas, and one indexed draw goes
/// through six indices per quad.
pub open spec fn draw_batch(primitive: Primitive, batch: int) -> Seq<RenderCommand> {
    let camera = seq![
        RenderCommand::WriteCamera { transform: Some(primitive.transform) },
        RenderCommand::BindCamera,
    ];
    let atlas = if primitive.pipeline.spec_uses_atlas() {
        seq![RenderCommand::BindAtlas { batch: batch as usize }]
    } else {
        Seq::empty()
    };
    let draw = seq![
        RenderCommand::SetVertexBuffer { batch: batch as usize },
        RenderCommand::DrawIndexed { indices: (6 * primitive.quad_count) as u32 },
    ];
    camera + atlas + draw
}

/// The steps that draw those of the given batches that go through one kind
/// of pipeline, in the order of the list. Each batch is referred to by its
/// position in the list.
pub open spec fn draw_batches(primitives: Seq<Primitive>, pipeline: Pipeline) -> Seq<
    RenderCommand,
>
    decreases primitives.len(),
{
    if primitives.len() == 0 {
        Seq::empty()
    } else {
        let rest = draw_batches(primitives.drop_last(), pipeline);
        if primitives.last().pipeline == pipeline {
            rest + draw_batch(primitives.last(), primitives.len() - 1)
        } else {
            rest
        }
    }
}

/// The steps that select a pipeline: the pipeline object, the camera uniform
/// and the index data are bound once for all batches of the kind.
pub open spec fn select_pipeline(pipeline: Pipeline, index_bytes: Option<u64>) -> Seq<
    RenderCommand,
> {
    seq![
        RenderCommand::SetPipeline { pipeline },
        RenderCommand::BindCamera,
        RenderCommand::SetIndexBuffer { bytes: index_bytes },
    ]
}

/// Whether every batch can be drawn with one indexed draw, six indices per
/// quad in 32 bits.
pub open spec fn drawable(primitives: Seq<Primitive>) -> bool {
    forall|i: int| 0 <= i < primitives.len() ==> 6 * (#[trigger] primitives[i]).quad_count <= u32::MAX
}

/// Whether every batch can be drawn with one indexed draw.
pub fn is_drawable(primitives: &[Primitive]) -> (r: bool)
    ensures
        r == drawable(primitives@),
{
    let mut i: usize = 0;
    while i < primitives.len()
        invariant
            i <= primitives.len(),
            forall|k: int| 0 <= k < i ==> 6 * (#[trigger] primitives@[k]).quad_count <= u32::MAX,
        decreases primitives.len() - i,
    {
        if primitives[i].quad_count > 0xffff_ffff / 6 {
            return false;
        }
        i = i + 1;
    }
    true
}

/// The largest quad count among the batches, 0 where there is none.
pub open spec fn max_quads(primitives: Seq<Primitive>) -> nat
    decreases primitives.len(),
{
    if primitives.len() == 0 {
        0
    } else {
        let rest = max_quads(primitives.drop_last());
        if rest >= primitives.last().quad_count {
            rest
        } else {
            primitives.last().quad_count as nat
        }
    }
}

/// The largest quad count is at least that of every batch, and is that of
/// one of them unless there is none.
pub proof fn lemma_max_quads(primitives: Seq<Primitive>)
    ensures
        forall|i: int| 0 <= i < primitives.len() ==> (#[trigger] primitives[i]).quad_count <= max_quads(primitives),
        primitives.len() == 0 ==> max_quads(primitives) == 0,
        primitives.len() > 0 ==> exists|i: int|
            0 <= i < primitives.len() && (#[trigger] primitives[i]).quad_count == max_quads(primitives),
    decreases primitives.len(),
{
    if primitives.len() > 0 {
        let rest = primitives.drop_last();
        lemma_max_quads(rest);
        assert forall|i: int| 0 <= i < primitives.len() implies (#[trigger] primitives[i]).quad_count
            <= max_quads(primitives) by {
            if i < rest.len() {
                assert(rest[i] == primitives[i]);
            }
        }
        if max_quads(rest) >= primitives.last().quad_count && rest.len() > 0 {
            let i = choose|i: int| 0 <= i < rest.len() && (#[trigger] rest[i]).quad_count == max_quads(rest);
            assert(primitives[i] == rest[i]);
        } else {
            assert(primitives[primitives.len() - 1].quad_count == max_quads(primitives));
        }
    }
}

/// The largest quad count among the batches.
pub fn largest_quad_count(primitives: &[Primitive]) -> (r: usize)
    ensures
        r == max_quads(primitives@),
{
    let mut r: usize = 0;
    let mut i: usize = 0;
    while i < primitives.len()
        invariant
            i <= primitives.len(),
            r == max_quads(primitives@.take(i as int)),
        decreases primitives.len() - i,
    {
        let quads = primitives[i].quads();
        if quads > r {
            r = quads;
        }
        i = i + 1;
        proof {
            assert(primitives@.take(i as int).drop_last() =~= primitives@.take(i as int - 1));
        }
    }
    proof {
        assert(primitives@.take(i as int) =~= primitives@);
    }
    r
}

/// Appends the steps that draw those of the batches that go through the
/// given kind of pipeline.
pub fn encode_batches(commands: &mut Vec<RenderCommand>, primitives: &[Primitive], pipeline: Pipeline)
    requires
        drawable(primitives@),
    ensures
        final(commands)@ == old(commands)@ + draw_batches(primitives@, pipeline),
{
    let ghost start = commands@;
    let mut i: usize = 0;
    while i < primitives.len()
        invariant
            i <= primitives.len(),
            drawable(primitives@),
            commands@ == start + draw_batches(primitives@.take(i as int), pipeline),
        decreases primitives.len() - i,
    {
        let primitive = primitives[i];
        let ghost before = commands@;
        if primitive.pipeline == pipeline {
            commands.push(RenderCommand::WriteCamera { transform: Some(primitive.transform) });
            commands.push(RenderCommand::BindCamera);
            if pipeline.uses_atlas() {
                commands.push(RenderCommand::BindAtlas { batch: i });
            }
            commands.push(RenderCommand::SetVertexBuffer { batch: i });
            let indices: usize = 6 * primitive.quad_count;
            commands.push(RenderCommand::DrawIndexed { indices: indices as u32 });
            proof {
                assert(commands@ =~= before + draw_batch(primitive, i as int));
            }
        }
        i = i + 1;
        proof {
            let taken = primitives@.take(i as int);
            assert(taken.drop_last() =~= primitives@.take(i as int - 1));
            assert(taken.last() == primitive);
            assert(commands@ =~= start + draw_batches(taken, pipeline));
        }
    }
    proof {
        assert(primitives@.take(i as int) =~= primitives@);
    }
}

} // verus!
