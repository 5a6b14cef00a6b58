use massive_renderer::draw::{Primitive, RenderCommand};
use massive_renderer::index_buffer::QuadIndexBuffer;
use massive_renderer::pipeline::Pipeline;
use massive_renderer::quads::{count_quads, prepare_quads, ColorVertex, QuadsLayer, QuadsRenderer};
use massive_renderer::shapes::{
    GlyphRun, GlyphRunMetrics, Quad, QuadsShape, Shape, TextWeight, TransformHandle,
};

type Point = [f64; 3];
type Color = [f32; 4];

const RED: Color = [1.0, 0.0, 0.0, 1.0];
const BLUE: Color = [0.0, 0.0, 1.0, 1.0];

fn quad(x: f64, color: Color) -> Quad<Point, Color> {
    Quad {
        vertices: [
            [x, 0.0, 0.0],
            [x, 1.0, 0.0],
            [x + 1.0, 1.0, 0.0],
            [x + 1.0, 0.0, 0.0],
        ],
        color,
    }
}

fn quads_shape(transform: u64, xs: &[f64], color: Color) -> Shape<Point, Color> {
    Shape::Quads(QuadsShape {
        transform: TransformHandle(transform),
        quads: xs.iter().map(|x| quad(*x, color)).collect(),
    })
}

fn glyph_run(transform: u64) -> Shape<Point, Color> {
    Shape::GlyphRun {
        transform: TransformHandle(transform),
        translation: [0.0, 0.0, 0.0],
        run: GlyphRun::new(
            GlyphRunMetrics {
                max_ascent: 10,
                max_descent: 2,
                width: 30,
            },
            RED,
            TextWeight::bold(),
            Vec::new(),
        ),
    }
}

fn layer_of(renderer: &QuadsRenderer<Point, Color>, transform: u64) -> &QuadsLayer<Point, Color> {
    let found: Vec<_> = renderer
        .layers()
        .iter()
        .filter(|layer| layer.transform == TransformHandle(transform))
        .collect();
    assert_eq!(found.len(), 1);
    found[0]
}

fn positions(layer: &QuadsLayer<Point, Color>) -> Vec<Point> {
    layer.vertices.iter().map(|v| v.position).collect()
}

#[test]
fn empty_input_gives_no_batch() {
    let mut renderer: QuadsRenderer<Point, Color> = QuadsRenderer::new();
    assert_eq!(renderer.prepare(&[]), 0);
    assert!(renderer.layers().is_empty());
}

#[test]
fn shapes_without_quads_give_no_batch() {
    let mut renderer = QuadsRenderer::new();
    let shapes = [quads_shape(1, &[], RED), glyph_run(1), quads_shape(2, &[], BLUE)];
    assert_eq!(renderer.prepare(&shapes), 0);
    assert!(renderer.layers().is_empty());
}

#[test]
fn value_equal_transforms_under_two_handles_give_two_batches() {
    // The two handles stand for two separately allocated matrices of equal value.
    let mut renderer = QuadsRenderer::new();
    let shapes = [quads_shape(10, &[0.0], RED), quads_shape(11, &[0.0], RED)];
    assert_eq!(renderer.prepare(&shapes), 1);
    assert_eq!(renderer.layers().len(), 2);
    assert_eq!(layer_of(&renderer, 10).quad_count, 1);
    assert_eq!(layer_of(&renderer, 11).quad_count, 1);
}

#[test]
fn shapes_sharing_a_handle_give_one_batch() {
    let mut renderer = QuadsRenderer::new();
    let shapes = [quads_shape(5, &[0.0, 2.0], RED), quads_shape(5, &[4.0, 6.0, 8.0], BLUE)];
    assert_eq!(renderer.prepare(&shapes), 5);
    assert_eq!(renderer.layers().len(), 1);
    let layer = &renderer.layers()[0];
    assert_eq!(layer.transform, TransformHandle(5));
    assert_eq!(layer.quad_count, 5);
    assert_eq!(layer.vertices.len(), 4 * (2 + 3));
}

#[test]
fn vertices_keep_the_order_of_shapes_quads_and_corners() {
    let mut renderer = QuadsRenderer::new();
    let shapes = [
        quads_shape(1, &[0.0], RED),
        quads_shape(2, &[100.0], BLUE),
        glyph_run(1),
        quads_shape(1, &[10.0, 20.0], BLUE),
    ];
    assert_eq!(renderer.prepare(&shapes), 3);
    assert_eq!(renderer.layers().len(), 2);
    let first = layer_of(&renderer, 1);
    assert_eq!(
        positions(first),
        vec![
            [0.0, 0.0, 0.0],
            [0.0, 1.0, 0.0],
            [1.0, 1.0, 0.0],
            [1.0, 0.0, 0.0],
            [10.0, 0.0, 0.0],
            [10.0, 1.0, 0.0],
            [11.0, 1.0, 0.0],
            [11.0, 0.0, 0.0],
            [20.0, 0.0, 0.0],
            [20.0, 1.0, 0.0],
            [21.0, 1.0, 0.0],
            [21.0, 0.0, 0.0],
        ]
    );
    let colors: Vec<Color> = first.vertices.iter().map(|v| v.color).collect();
    assert_eq!(colors[..4], [RED; 4]);
    assert_eq!(colors[4..], [BLUE; 8]);
    let second = layer_of(&renderer, 2);
    assert_eq!(second.quad_count, 1);
    assert_eq!(second.vertices[2].position, [101.0, 1.0, 0.0]);
}

#[test]
fn every_batch_has_four_vertices_per_quad() {
    let mut renderer = QuadsRenderer::new();
    let shapes = [
        quads_shape(3, &[0.0, 1.0, 2.0], RED),
        quads_shape(4, &[0.0], RED),
        quads_shape(3, &[5.0], BLUE),
        quads_shape(9, &[1.0, 2.0], BLUE),
    ];
    renderer.prepare(&shapes);
    assert_eq!(renderer.layers().len(), 3);
    for layer in renderer.layers() {
        assert!(layer.quad_count > 0);
        assert_eq!(layer.vertices.len(), 4 * layer.quad_count);
    }
}

#[test]
fn prepare_rebuilds_from_scratch() {
    let mut renderer = QuadsRenderer::new();
    renderer.prepare(&[quads_shape(1, &[0.0, 1.0], RED), quads_shape(2, &[0.0], RED)]);
    assert_eq!(renderer.layers().len(), 2);
    assert_eq!(renderer.prepare(&[quads_shape(7, &[3.0], BLUE)]), 1);
    assert_eq!(renderer.layers().len(), 1);
    assert_eq!(renderer.layers()[0].transform, TransformHandle(7));
    assert_eq!(renderer.prepare(&[]), 0);
    assert!(renderer.layers().is_empty());
}

#[test]
fn three_and_two_quads_under_two_transforms() {
    let a = 1;
    let b = 2;
    let mut renderer = QuadsRenderer::new();
    let shapes = [
        quads_shape(a, &[0.0], RED),
        quads_shape(b, &[0.0], BLUE),
        quads_shape(a, &[1.0], RED),
        quads_shape(b, &[1.0], BLUE),
        quads_shape(a, &[2.0], RED),
    ];
    let max_quads = renderer.prepare(&shapes);
    assert_eq!(renderer.layers().len(), 2);
    assert_eq!(layer_of(&renderer, a).quad_count, 3);
    assert_eq!(layer_of(&renderer, b).quad_count, 2);
    assert_eq!(max_quads, 3);

    let mut index_buffer = QuadIndexBuffer::new();
    index_buffer.ensure_quads(max_quads);
    assert!(index_buffer.quads() >= 3);
}

#[test]
fn prepare_quads_of_one_group() {
    let first = QuadsShape {
        transform: TransformHandle(1),
        quads: vec![quad(0.0, RED)],
    };
    let second = QuadsShape {
        transform: TransformHandle(1),
        quads: vec![quad(5.0, BLUE)],
    };
    let layer = prepare_quads(TransformHandle(1), &[&first, &second]).unwrap();
    assert_eq!(layer.transform, TransformHandle(1));
    assert_eq!(layer.quad_count, 2);
    assert_eq!(layer.vertices.len(), 8);
    assert_eq!(layer.vertices[0].position, [0.0, 0.0, 0.0]);
    assert_eq!(layer.vertices[0].color, RED);
    assert_eq!(layer.vertices[7].position, [6.0, 0.0, 0.0]);
    assert_eq!(layer.vertices[7].color, BLUE);
}

#[test]
fn prepare_quads_without_quads_gives_nothing() {
    let empty: QuadsShape<Point, Color> = QuadsShape {
        transform: TransformHandle(1),
        quads: Vec::new(),
    };
    assert!(prepare_quads(TransformHandle(1), &[&empty]).is_none());
    assert!(prepare_quads::<Point, Color>(TransformHandle(1), &[]).is_none());
}

#[test]
fn color_vertex_keeps_its_parts() {
    let vertex = ColorVertex::new([1.0, 2.0, 3.0], RED);
    assert_eq!(vertex.position, [1.0, 2.0, 3.0]);
    assert_eq!(vertex.color, RED);
}

#[test]
fn render_of_no_batch_selects_the_pipeline_only() {
    let renderer: QuadsRenderer<Point, Color> = QuadsRenderer::new();
    assert_eq!(
        renderer.render(),
        vec![
            RenderCommand::SetPipeline {
                pipeline: Pipeline::Quads
            },
            RenderCommand::BindCamera,
            RenderCommand::SetIndexBuffer { bytes: None },
        ]
    );
}

#[test]
fn render_draws_each_batch_under_its_transform() {
    let mut renderer = QuadsRenderer::new();
    renderer.prepare(&[quads_shape(4, &[0.0, 1.0, 2.0], RED)]);
    assert_eq!(
        renderer.primitives(),
        vec![Primitive::new(Pipeline::Quads, TransformHandle(4), 3)]
    );
    assert_eq!(
        renderer.render(),
        vec![
            RenderCommand::SetPipeline {
                pipeline: Pipeline::Quads
            },
            RenderCommand::BindCamera,
            RenderCommand::SetIndexBuffer { bytes: None },
            RenderCommand::WriteCamera {
                transform: Some(TransformHandle(4))
            },
            RenderCommand::BindCamera,
            RenderCommand::SetVertexBuffer { batch: 0 },
            RenderCommand::DrawIndexed { indices: 18 },
        ]
    );
}

#[test]
fn render_follows_the_order_of_the_batches() {
    let mut renderer = QuadsRenderer::new();
    renderer.prepare(&[quads_shape(1, &[0.0], RED), quads_shape(2, &[0.0, 1.0], RED)]);
    let commands = renderer.render();
    let primitives = renderer.primitives();
    assert_eq!(primitives.len(), 2);
    assert_eq!(commands.len(), 3 + 2 * 4);
    for (batch, primitive) in primitives.iter().enumerate() {
        let at = 3 + 4 * batch;
        assert_eq!(
            commands[at..at + 4],
            [
                RenderCommand::WriteCamera {
                    transform: Some(primitive.transform)
                },
                RenderCommand::BindCamera,
                RenderCommand::SetVertexBuffer { batch },
                RenderCommand::DrawIndexed {
                    indices: 6 * primitive.quad_count as u32
                },
            ]
        );
        assert_eq!(renderer.layers()[batch].transform, primitive.transform);
    }
}

#[test]
fn count_quads_skips_glyph_runs() {
    let shapes = [
        quads_shape(1, &[0.0, 1.0], RED),
        glyph_run(1),
        quads_shape(2, &[], RED),
        quads_shape(3, &[5.0], BLUE),
    ];
    assert_eq!(count_quads(&shapes), Some(3));
    assert_eq!(count_quads::<Point, Color>(&[]), Some(0));
}

#[test]
fn try_prepare_prepares_what_fits() {
    let mut renderer = QuadsRenderer::new();
    let shapes = [quads_shape(1, &[0.0, 1.0], RED), quads_shape(2, &[3.0], BLUE)];
    assert_eq!(renderer.try_prepare(&shapes), Some(2));
    assert_eq!(renderer.layers().len(), 2);
    assert_eq!(layer_of(&renderer, 1).quad_count, 2);
    assert_eq!(layer_of(&renderer, 2).quad_count, 1);
    assert_eq!(renderer.try_prepare(&[]), Some(0));
    assert!(renderer.layers().is_empty());
}
