use massive_renderer::atlas_sdf::{
    AtlasBinding, AtlasPoint, AtlasSdfRenderer, Extent, GlyphAtlas, QuadInstance, Rectangle,
    TextureColorVertex, TextureHandle,
};
use massive_renderer::draw::RenderCommand;
use massive_renderer::index_buffer::QuadIndexBuffer;
use massive_renderer::pipeline::Pipeline;
use massive_renderer::shapes::TransformHandle;

type Point = [f64; 3];
type Color = [f32; 4];

const WHITE: Color = [1.0, 1.0, 1.0, 1.0];

fn size(width: u32, height: u32) -> Extent {
    Extent { width, height }
}

fn instance(x: f64, rect: (u32, u32, u32, u32)) -> QuadInstance<Point, Color> {
    QuadInstance {
        atlas_rect: Rectangle {
            min: AtlasPoint {
                x: rect.0,
                y: rect.1,
            },
            max: AtlasPoint {
                x: rect.2,
                y: rect.3,
            },
        },
        vertices: [
            [x, 0.0, 0.0],
            [x, 8.0, 0.0],
            [x + 6.0, 8.0, 0.0],
            [x + 6.0, 0.0, 0.0],
        ],
        color: WHITE,
    }
}

#[test]
fn new_renderer_draws_distance_fields() {
    let renderer = AtlasSdfRenderer::new(size(256, 256));
    assert!(renderer.sdf);
    assert_eq!(renderer.pipeline(), Pipeline::SdfGlyph);
    assert_eq!(renderer.atlas.size(), size(256, 256));
    assert_eq!(renderer.atlas.texture_view(), TextureHandle(0));
}

#[test]
fn planar_renderer_draws_bitmaps() {
    let renderer = AtlasSdfRenderer::planar(size(64, 32));
    assert!(!renderer.sdf);
    assert_eq!(renderer.pipeline(), Pipeline::PlanarGlyph);
    assert_eq!(renderer.atlas, GlyphAtlas::new(size(64, 32)));
}

#[test]
fn batch_emits_atlas_pixel_corners() {
    let renderer = AtlasSdfRenderer::new(size(256, 256));
    let batch = renderer.batch(TransformHandle(3), &[instance(10.0, (16, 32, 22, 40))]);
    assert_eq!(batch.transform(), TransformHandle(3));
    assert_eq!(batch.quad_count(), 1);
    let vertices = batch.vertices();
    assert_eq!(vertices.len(), 4);
    let texture: Vec<(u32, u32)> = vertices.iter().map(|v| (v.texture.x, v.texture.y)).collect();
    assert_eq!(texture, vec![(16, 32), (16, 40), (22, 40), (22, 32)]);
    let positions: Vec<Point> = vertices.iter().map(|v| v.position).collect();
    assert_eq!(
        positions,
        vec![
            [10.0, 0.0, 0.0],
            [10.0, 8.0, 0.0],
            [16.0, 8.0, 0.0],
            [16.0, 0.0, 0.0]
        ]
    );
    assert!(vertices.iter().all(|v| v.color == WHITE));
}

#[test]
fn batch_has_four_vertices_per_instance() {
    let renderer = AtlasSdfRenderer::new(size(256, 256));
    let instances = [
        instance(0.0, (0, 0, 6, 8)),
        instance(7.0, (6, 0, 12, 8)),
        instance(14.0, (12, 0, 18, 8)),
    ];
    let batch = renderer.batch(TransformHandle(1), &instances);
    assert_eq!(batch.quad_count(), 3);
    assert_eq!(batch.vertices().len(), 12);
    assert_eq!(batch.vertices()[8].position, [14.0, 0.0, 0.0]);
    assert_eq!(batch.vertices()[8].texture, AtlasPoint { x: 12, y: 0 });
    assert_eq!(batch.vertices()[10].texture, AtlasPoint { x: 18, y: 8 });
}

#[test]
fn batch_of_no_instance_is_empty() {
    let renderer = AtlasSdfRenderer::new(size(256, 256));
    let batch = renderer.batch::<Point, Color>(TransformHandle(1), &[]);
    assert_eq!(batch.quad_count(), 0);
    assert!(batch.vertices().is_empty());
    let mut index_buffer = QuadIndexBuffer::new();
    assert_eq!(
        renderer.render(&mut index_buffer, &[batch]),
        vec![
            RenderCommand::SetPipeline {
                pipeline: Pipeline::SdfGlyph
            },
            RenderCommand::BindCamera,
            RenderCommand::SetIndexBuffer { bytes: Some(0) },
            RenderCommand::WriteCamera {
                transform: Some(TransformHandle(1))
            },
            RenderCommand::BindCamera,
            RenderCommand::BindAtlas { batch: 0 },
            RenderCommand::SetVertexBuffer { batch: 0 },
            RenderCommand::DrawIndexed { indices: 0 },
        ]
    );
}

#[test]
fn batch_binds_the_current_atlas() {
    let renderer = AtlasSdfRenderer::new(size(128, 64));
    let batch = renderer.batch(TransformHandle(1), &[instance(0.0, (0, 0, 6, 8))]);
    assert_eq!(
        batch.binding(),
        AtlasBinding {
            texture: TextureHandle(0),
            size: size(128, 64)
        }
    );
    assert!(batch.is_current(&renderer.atlas));
}

#[test]
fn atlas_growth_invalidates_prior_bindings() {
    let mut renderer = AtlasSdfRenderer::new(size(128, 128));
    let instances = [instance(0.0, (0, 0, 6, 8))];
    let mut batch = renderer.batch(TransformHandle(1), &instances);
    let before = renderer.atlas.texture_view();
    assert!(batch.is_current(&renderer.atlas));

    // The atlas grows in the middle of the frame.
    renderer.atlas.reallocate(size(256, 256));
    let after = renderer.atlas.texture_view();
    assert_ne!(before, after);
    assert_eq!(renderer.atlas.size(), size(256, 256));
    assert!(!batch.is_current(&renderer.atlas));

    // The vertices are in atlas pixels and need no rebuild; the binding does.
    let vertices: Vec<AtlasPoint> = batch.vertices().iter().map(|v| v.texture).collect();
    batch.rebind(&renderer.atlas);
    assert!(batch.is_current(&renderer.atlas));
    assert_eq!(batch.binding().texture, after);
    assert_eq!(batch.binding().size, size(256, 256));
    assert_eq!(
        batch.vertices().iter().map(|v| v.texture).collect::<Vec<_>>(),
        vertices
    );

    // A batch built after the growth refers to the new texture as well.
    let rebuilt = renderer.batch(TransformHandle(1), &instances);
    assert_eq!(rebuilt.binding().texture, after);
    assert!(rebuilt.is_current(&renderer.atlas));
}

#[test]
fn every_reallocation_has_a_new_handle() {
    let mut atlas = GlyphAtlas::new(size(1, 1));
    let mut seen = vec![atlas.texture_view()];
    for step in 0..5 {
        atlas.reallocate(size(2 << step, 2 << step));
        assert!(!seen.contains(&atlas.texture_view()));
        seen.push(atlas.texture_view());
    }
}

#[test]
fn render_binds_as_many_indices_as_the_largest_batch_needs() {
    let renderer = AtlasSdfRenderer::new(size(256, 256));
    let one = renderer.batch(TransformHandle(1), &[instance(0.0, (0, 0, 6, 8))]);
    let three = renderer.batch(
        TransformHandle(2),
        &[
            instance(0.0, (0, 0, 6, 8)),
            instance(7.0, (6, 0, 12, 8)),
            instance(14.0, (12, 0, 18, 8)),
        ],
    );
    let mut index_buffer = QuadIndexBuffer::new();
    let commands = renderer.render(&mut index_buffer, &[one, three]);
    assert_eq!(index_buffer.quads(), 3);
    assert_eq!(
        index_buffer.indices(),
        QuadIndexBuffer::generate_array(3).as_slice()
    );
    assert_eq!(
        commands,
        vec![
            RenderCommand::SetPipeline {
                pipeline: Pipeline::SdfGlyph
            },
            RenderCommand::BindCamera,
            RenderCommand::SetIndexBuffer { bytes: Some(36) },
            RenderCommand::WriteCamera {
                transform: Some(TransformHandle(1))
            },
            RenderCommand::BindCamera,
            RenderCommand::BindAtlas { batch: 0 },
            RenderCommand::SetVertexBuffer { batch: 0 },
            RenderCommand::DrawIndexed { indices: 6 },
            RenderCommand::WriteCamera {
                transform: Some(TransformHandle(2))
            },
            RenderCommand::BindCamera,
            RenderCommand::BindAtlas { batch: 1 },
            RenderCommand::SetVertexBuffer { batch: 1 },
            RenderCommand::DrawIndexed { indices: 18 },
        ]
    );
}

#[test]
fn render_of_no_glyph_batch_selects_the_pipeline_only() {
    let renderer = AtlasSdfRenderer::planar(size(256, 256));
    let mut index_buffer = QuadIndexBuffer::new();
    index_buffer.ensure_quads(4);
    assert_eq!(
        renderer.render::<Point, Color>(&mut index_buffer, &[]),
        vec![
            RenderCommand::SetPipeline {
                pipeline: Pipeline::PlanarGlyph
            },
            RenderCommand::BindCamera,
            RenderCommand::SetIndexBuffer { bytes: Some(0) },
        ]
    );
    assert_eq!(index_buffer.quads(), 4);
}

#[test]
fn texture_color_vertex_keeps_its_parts() {
    let vertex = TextureColorVertex::new([1.0, 2.0, 3.0], AtlasPoint { x: 4, y: 5 }, WHITE);
    assert_eq!(vertex.position, [1.0, 2.0, 3.0]);
    assert_eq!(vertex.texture, AtlasPoint { x: 4, y: 5 });
    assert_eq!(vertex.color, WHITE);
}
