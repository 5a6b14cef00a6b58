//! Batches of glyph images that live in an atlas texture.
//!
//! A vertex carries the corner of its glyph's rectangle in atlas pixels, not
//! a normalized coordinate: the shader divides by the atlas size, so the
//! vertices of a batch stay right when the atlas grows. The binding of a
//! batch, however, refers to the texture that was current when the batch was
//! built, and is stale as soon as the atlas is reallocated.

use crate::draw::{draw_batches, encode_batches, select_pipeline, Primitive, RenderCommand};
use crate::draw::QUAD_INDEX_BYTES;
use crate::index_buffer::{quad_indices, QuadIndexBuffer};
use crate::pipeline::Pipeline;
use crate::shapes::TransformHandle;
use vstd::prelude::*;

verus! {

/// A point of the atlas, in pixels.
#[derive(Debug, Clone, Copy, PartialEq, Eq, Hash, Structural)]
pub struct AtlasPoint {
    pub x: u32,
    pub y: u32,
}

/// A rectangle of the atlas, in pixels. It is valid until the atlas is
/// reallocated.
#[derive(Debug, Clone, Copy, PartialEq, Eq, Hash, Structural)]
pub struct Rectangle {
    pub min: AtlasPoint,
    pub max: AtlasPoint,
}

impl Rectangle {
    /// The corners in the order in which a quad lists them: left top, left
    /// bottom, right bottom, right top.
    pub open spec fn corner(&self, k: int) -> AtlasPoint {
        if k == 0 {
            AtlasPoint { x: self.min.x, y: self.min.y }
        } else if k == 1 {
            AtlasPoint { x: self.min.x, y: self.max.y }
        } else if k == 2 {
            AtlasPoint { x: self.max.x, y: self.max.y }
        } else {
            AtlasPoint { x: self.max.x, y: self.min.y }
        }
    }
}

/// The size of a texture, in pixels.
#[derive(Debug, Clone, Copy, PartialEq, Eq, Hash, Structural)]
pub struct Extent {
    pub width: u32,
    pub height: u32,
}

/// Identifies one allocation of the atlas texture.
#[derive(Debug, Clone, Copy, PartialEq, Eq, Hash, Structural)]
pub struct TextureHandle(pub u64);

/// What a batch binds in slot 1: the atlas texture and its size. The sampler
/// is fixed.
#[derive(Debug, Clone, Copy, PartialEq, Eq, Hash, Structural)]
pub struct AtlasBinding {
    pub texture: TextureHandle,
    pub size: Extent,
}

/// What the batcher observes of the atlas: its current texture and size.
/// Packing and eviction are not its concern.
#[derive(Debug, Clone, Copy, PartialEq, Eq, Hash, Structural)]
pub struct GlyphAtlas {
    pub texture: TextureHandle,
    pub size: Extent,
}

impl GlyphAtlas {
    /// The atlas after its texture was allocated anew with the given size:
    /// the texture has a handle that no earlier allocation had.
    pub open spec fn reallocated(self, size: Extent) -> GlyphAtlas {
        GlyphAtlas { texture: TextureHandle((self.texture.0 + 1) as u64), size }
    }

    /// An atlas with its first texture.
    pub fn new(size: Extent) -> (r: Self)
        ensures
            r == (GlyphAtlas { texture: TextureHandle(0), size }),
    {
        GlyphAtlas { texture: TextureHandle(0), size }
    }

    /// The current size of the texture.
    pub fn size(&self) -> (r: Extent)
        ensures
            r == self.size,
    {
        self.size
    }

    /// The current texture.
    pub fn texture_view(&self) -> (r: TextureHandle)
        ensures
            r == self.texture,
    {
        self.texture
    }

    /// Records that the texture was allocated anew, as it is when the atlas
    /// grows. Every binding made before is stale from here on.
    pub fn reallocate(&mut self, size: Extent)
        requires
            old(self).texture.0 < u64::MAX,
        ensures
            *final(self) == old(self).reallocated(size),
            final(self).texture != old(self).texture,
    {
        self.texture = TextureHandle(self.texture.0 + 1);
        self.size = size;
    }
}

/// One glyph image to draw: where it lies in the atlas, the four corners it
/// is drawn to, and its color.
#[derive(Debug, Clone, Copy)]
pub struct QuadInstance<P, C> {
    pub atlas_rect: Rectangle,
    pub vertices: [P; 4],
    pub color: C,
}

/// One corner of a glyph as it is uploaded.
#[derive(Debug, Clone, Copy)]
pub struct TextureColorVertex<P, C> {
    pub position: P,
    /// The corner of the glyph's rectangle in atlas pixels.
    pub texture: AtlasPoint,
    pub color: C,
}

impl<P, C> TextureColorVertex<P, C> {
    pub fn new(position: P, texture: AtlasPoint, color: C) -> (r: Self)
        ensures
            r.position == position,
            r.texture == texture,
            r.color == color,
    {
        Self { position, texture, color }
    }
}

/// The vertices of a sequence of instances: four per instance, each corner
/// of the destination with the matching corner of the atlas rectangle.
pub open spec fn instance_vertices<P, C>(instances: Seq<QuadInstance<P, C>>) -> Seq<
    TextureColorVertex<P, C>,
> {
    Seq::new(
        4 * instances.len(),
        |j: int|
            TextureColorVertex {
                position: instances[j / 4].vertices@[j % 4],
                texture: instances[j / 4].atlas_rect.corner(j % 4),
                color: instances[j / 4].color,
            },
    )
}

/// One draw batch of glyphs under one transform.
#[derive(Debug)]
pub struct QuadBatch<P, C> {
    // The transform is not uploaded with the batch: it is combined with the
    // camera matrix right before the draw.
    transform: TransformHandle,
    binding: AtlasBinding,
    vertices: Vec<TextureColorVertex<P, C>>,
    quad_count: usize,
}

impl<P, C> QuadBatch<P, C> {
    #[verifier::type_invariant]
    spec fn inv(self) -> bool {
        &&& self.vertices@.len() == 4 * self.quad_count
        &&& 6 * self.quad_count <= u32::MAX
    }

    pub closed spec fn spec_transform(&self) -> TransformHandle {
        self.transform
    }

    pub closed spec fn spec_binding(&self) -> AtlasBinding {
        self.binding
    }

    pub closed spec fn spec_vertices(&self) -> Seq<TextureColorVertex<P, C>> {
        self.vertices@
    }

    pub closed spec fn spec_quad_count(&self) -> usize {
        self.quad_count
    }

    /// Whether the binding of the batch refers to the current texture of the
    /// atlas. A batch that is not current must not be drawn.
    pub open spec fn spec_is_current(&self, atlas: &GlyphAtlas) -> bool {
        self.spec_binding().texture == atlas.texture
    }

    /// What a draw needs to know of the batch.
    pub open spec fn primitive(&self, pipeline: Pipeline) -> Primitive {
        Primitive { pipeline, transform: self.spec_transform(), quad_count: self.spec_quad_count() }
    }

    /// The transform under which the batch is drawn.
    #[verifier::when_used_as_spec(spec_transform)]
    pub fn transform(&self) -> (r: TransformHandle)
        ensures
            r == self.spec_transform(),
    {
        self.transform
    }

    /// The atlas texture and size that the batch binds.
    #[verifier::when_used_as_spec(spec_binding)]
    pub fn binding(&self) -> (r: AtlasBinding)
        ensures
            r == self.spec_binding(),
    {
        self.binding
    }

    /// The vertices of the batch, four for each quad.
    pub fn vertices(&self) -> (r: &[TextureColorVertex<P, C>])
        ensures
            r@ == self.spec_vertices(),
            r@.len() == 4 * self.spec_quad_count(),
    {
        proof {
            use_type_invariant(self);
        }
        self.vertices.as_slice()
    }

    /// The number of quads of the batch.
    #[verifier::when_used_as_spec(spec_quad_count)]
    pub fn quad_count(&self) -> (r: usize)
        ensures
            r == self.spec_quad_count(),
            6 * r <= u32::MAX,
    {
        proof {
            use_type_invariant(self);
        }
        self.quad_count
    }

    /// Whether the binding of the batch refers to the current texture of the
    /// atlas.
    #[verifier::when_used_as_spec(spec_is_current)]
    pub fn is_current(&self, atlas: &GlyphAtlas) -> (r: bool)
        ensures
            r == self.spec_is_current(atlas),
    {
        self.binding.texture.0 == atlas.texture.0
    }

    /// Binds the batch to the current texture and size of the atlas. The
    /// vertices stay as they are: they are in atlas pixels.
    pub fn rebind(&mut self, atlas: &GlyphAtlas)
        ensures
            final(self).spec_binding() == (AtlasBinding { texture: atlas.texture, size: atlas.size }),
            final(self).spec_is_current(atlas),
            final(self).spec_transform() == old(self).spec_transform(),
            final(self).spec_vertices() == old(self).spec_vertices(),
            final(self).spec_quad_count() == old(self).spec_quad_count(),
    {
        proof {
            use_type_invariant(&*self);
        }
        self.binding = AtlasBinding { texture: atlas.texture, size: atlas.size };
    }
}

/// The primitives of a list of batches that all go through one pipeline.
pub open spec fn primitives_of<P, C>(batches: Seq<QuadBatch<P, C>>, pipeline: Pipeline) -> Seq<
    Primitive,
> {
    Seq::new(batches.len(), |i: int| batches[i].primitive(pipeline))
}

/// The batcher of atlas backed glyphs of one kind: distance fields, or
/// plain bitmaps.
pub struct AtlasSdfRenderer {
    pub atlas: GlyphAtlas,
    /// Whether the atlas holds distance fields.
    pub sdf: bool,
}

impl AtlasSdfRenderer {
    /// The kind of pipeline that draws the batches.
    pub open spec fn spec_pipeline(&self) -> Pipeline {
        if self.sdf {
            Pipeline::SdfGlyph
        } else {
            Pipeline::PlanarGlyph
        }
    }

    /// The kind of pipeline that draws the batches.
    #[verifier::when_used_as_spec(spec_pipeline)]
    pub fn pipeline(&self) -> (r: Pipeline)
        ensures
            r == self.spec_pipeline(),
            r.spec_uses_atlas(),
    {
        if self.sdf {
            Pipeline::SdfGlyph
        } else {
            Pipeline::PlanarGlyph
        }
    }

    /// A batcher for the distance field pipeline, with a fresh atlas.
    pub fn new(atlas_size: Extent) -> (r: Self)
        ensures
            r.atlas == (GlyphAtlas { texture: TextureHandle(0), size: atlas_size }),
            r.sdf,
    {
        AtlasSdfRenderer { atlas: GlyphAtlas::new(atlas_size), sdf: true }
    }

    /// A batcher for the plain bitmap pipeline, with a fresh atlas.
    pub fn planar(atlas_size: Extent) -> (r: Self)
        ensures
            r.atlas == (GlyphAtlas { texture: TextureHandle(0), size: atlas_size }),
            !r.sdf,
    {
        AtlasSdfRenderer { atlas: GlyphAtlas::new(atlas_size), sdf: false }
    }

    /// Converts a number of instances to a batch under one transform. The
    /// batch is bound to the texture that the atlas has now.
    pub fn batch<P: Copy, C: Copy>(
        &self,
        transform: TransformHandle,
        instances: &[QuadInstance<P, C>],
    ) -> (r: QuadBatch<P, C>)
        requires
            6 * instances@.len() <= u32::MAX,
        ensures
            r.spec_transform() == transform,
            r.spec_vertices() == instance_vertices(instances@),
            r.spec_quad_count() == instances@.len(),
            r.spec_binding() == (AtlasBinding { texture: self.atlas.texture, size: self.atlas.size }),
            r.spec_is_current(&self.atlas),
    {
        let mut vertices: Vec<TextureColorVertex<P, C>> = Vec::with_capacity(instances.len() * 4);
        let mut i: usize = 0;
        while i < instances.len()
            invariant
                i <= instances.len(),
                vertices@ == instance_vertices(instances@.take(i as int)),
            decreases instances.len() - i,
        {
            let instance: &QuadInstance<P, C> = &instances[i];
            let r = instance.atlas_rect;
            // The shader normalizes the texture coordinates, so the atlas may
            // grow as long as the rectangles stay where they are.
            let (ltx, lty) = (r.min.x, r.min.y);
            let (rbx, rby) = (r.max.x, r.max.y);
            let v = &instance.vertices;
            let color = instance.color;
            let ghost done = instances@.take(i as int);
            vertices.push(TextureColorVertex::new(v[0], AtlasPoint { x: ltx, y: lty }, color));
            vertices.push(TextureColorVertex::new(v[1], AtlasPoint { x: ltx, y: rby }, color));
            vertices.push(TextureColorVertex::new(v[2], AtlasPoint { x: rbx, y: rby }, color));
            vertices.push(TextureColorVertex::new(v[3], AtlasPoint { x: rbx, y: lty }, color));
            i = i + 1;
            proof {
                assert(instances@.take(i as int) =~= done.push(*instance));
                assert(vertices@ =~= instance_vertices(done.push(*instance)));
            }
        }
        proof {
            assert(instances@.take(i as int) =~= instances@);
        }
        let binding = AtlasBinding { texture: self.atlas.texture_view(), size: self.atlas.size() };
        let quad_count = instances.len();
        QuadBatch { transform, binding, vertices, quad_count }
    }

    /// The largest quad count among the batches, 0 where there is none.
    fn largest_batch<P, C>(batches: &[QuadBatch<P, C>], pipeline: Ghost<Pipeline>) -> (r: usize)
        ensures
            r == crate::draw::max_quads(primitives_of(batches@, pipeline@)),
            6 * r <= u32::MAX,
    {
        let mut r: usize = 0;
        let mut i: usize = 0;
        while i < batches.len()
            invariant
                i <= batches.len(),
                r == crate::draw::max_quads(primitives_of(batches@.take(i as int), pipeline@)),
                6 * r <= u32::MAX,
            decreases batches.len() - i,
        {
            let quads = batches[i].quad_count();
            if quads > r {
                r = quads;
            }
            i = i + 1;
            proof {
                let taken = primitives_of(batches@.take(i as int), pipeline@);
                assert(taken.drop_last() =~= primitives_of(
                    batches@.take(i as int - 1),
                    pipeline@,
                ));
            }
        }
        proof {
            assert(batches@.take(i as int) =~= batches@);
        }
        r
    }

    /// The steps that draw the given batches: the pipeline is selected with
    /// as much of the index data as the largest batch needs, then each batch
    /// is drawn in turn.
    pub open spec fn render_commands<P, C>(&self, batches: Seq<QuadBatch<P, C>>) -> Seq<
        RenderCommand,
    > {
        let primitives = primitives_of(batches, self.spec_pipeline());
        select_pipeline(
            self.spec_pipeline(),
            Some((QUAD_INDEX_BYTES * crate::draw::max_quads(primitives)) as u64),
        ) + draw_batches(primitives, self.spec_pipeline())
    }

    /// Sizes the shared index data to the largest of the given batches and
    /// lists the steps that draw them. Each batch must be bound to the
    /// current texture of the atlas.
    pub fn render<P, C>(&self, index_buffer: &mut QuadIndexBuffer, batches: &[QuadBatch<P, C>]) -> (commands:
        Vec<RenderCommand>)
        requires
            forall|i: int|
                0 <= i < batches@.len() ==> (#[trigger] batches@[i]).spec_is_current(&self.atlas),
        ensures
            commands@ == self.render_commands(batches@),
            final(index_buffer).capacity() >= crate::draw::max_quads(
                primitives_of(batches@, self.spec_pipeline()),
            ),
            final(index_buffer)@ == if old(index_buffer).capacity() < crate::draw::max_quads(
                primitives_of(batches@, self.spec_pipeline()),
            ) {
                quad_indices(crate::draw::max_quads(primitives_of(batches@, self.spec_pipeline())))
            } else {
                old(index_buffer)@
            },
            old(index_buffer)@.is_prefix_of(final(index_buffer)@),
    {
        let max_quads = Self::largest_batch(batches, Ghost(self.spec_pipeline()));
        index_buffer.ensure_quads(max_quads);
        let pipeline = self.pipeline();
        let mut primitives: Vec<Primitive> = Vec::with_capacity(batches.len());
        let mut i: usize = 0;
        while i < batches.len()
            invariant
                i <= batches.len(),
                pipeline == self.spec_pipeline(),
                primitives@ == primitives_of(batches@.take(i as int), pipeline),
                crate::draw::drawable(primitives@),
            decreases batches.len() - i,
        {
            let batch = &batches[i];
            primitives.push(Primitive::new(pipeline, batch.transform(), batch.quad_count()));
            i = i + 1;
            proof {
                assert(primitives@ =~= primitives_of(batches@.take(i as int), pipeline));
            }
        }
        proof {
            assert(batches@.take(i as int) =~= batches@);
        }
        let mut commands: Vec<RenderCommand> = Vec::new();
        commands.push(RenderCommand::SetPipeline { pipeline });
        commands.push(RenderCommand::BindCamera);
        let bytes: u64 = QUAD_INDEX_BYTES * (max_quads as u64);
        commands.push(RenderCommand::SetIndexBuffer { bytes: Some(bytes) });
        proof {
            assert(commands@ =~= select_pipeline(pipeline, Some(bytes)));
        }
        encode_batches(&mut commands, primitives.as_slice(), pipeline);
        commands
    }
}

/// A batch that was bound to the atlas before the texture was allocated anew
/// is stale afterwards, whatever the new size is; a batch built or bound
/// again afterwards refers to the new texture.
pub proof fn lemma_growth_invalidates<P, C>(batch: QuadBatch<P, C>, atlas: GlyphAtlas, size: Extent)
    requires
        batch.spec_is_current(&atlas),
        atlas.texture.0 < u64::MAX,
    ensures
        !batch.spec_is_current(&atlas.reallocated(size)),
        atlas.reallocated(size).texture != atlas.texture,
{
}

} // verus!
