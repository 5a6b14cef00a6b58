use massive_renderer::draw::{
    encode_batches, is_drawable, largest_quad_count, Primitive, RenderCommand,
};
use massive_renderer::index_buffer::QuadIndexBuffer;
use massive_renderer::pipeline::Pipeline;
use massive_renderer::renderer::{Recovery, Renderer, SurfaceConfiguration, SurfaceError};
use massive_renderer::shapes::TransformHandle;

fn renderer() -> Renderer {
    Renderer::new(SurfaceConfiguration {
        width: 800,
        height: 600,
    })
}

fn select(pipeline: Pipeline) -> Vec<RenderCommand> {
    vec![
        RenderCommand::SetPipeline { pipeline },
        RenderCommand::BindCamera,
        RenderCommand::SetIndexBuffer { bytes: None },
    ]
}

fn primitives() -> Vec<Primitive> {
    vec![
        Primitive::new(Pipeline::Quads, TransformHandle(1), 3),
        Primitive::new(Pipeline::SdfGlyph, TransformHandle(2), 5),
        Primitive::new(Pipeline::Quads, TransformHandle(3), 2),
    ]
}

#[test]
fn new_renderer_has_the_pipelines_in_order_and_no_indices() {
    let renderer = renderer();
    assert_eq!(
        renderer.pipelines(),
        &[Pipeline::PlanarGlyph, Pipeline::SdfGlyph, Pipeline::Quads]
    );
    assert_eq!(renderer.index_buffer().quads(), 0);
    assert_eq!(renderer.surface_size(), (800, 600));
}

#[test]
fn recovery_policy() {
    assert_eq!(SurfaceError::Lost.recovery(), Recovery::Reconfigure);
    assert_eq!(SurfaceError::OutOfMemory.recovery(), Recovery::Exit);
    assert_eq!(SurfaceError::Timeout.recovery(), Recovery::Skip);
    assert_eq!(SurfaceError::Outdated.recovery(), Recovery::Skip);
}

#[test]
fn empty_frame_selects_each_pipeline_and_draws_nothing() {
    let mut renderer = renderer();
    let frame = renderer.render_and_present(Ok(()), &[]).unwrap();
    let mut expected = vec![RenderCommand::WriteCamera { transform: None }];
    expected.extend(select(Pipeline::PlanarGlyph));
    expected.extend(select(Pipeline::SdfGlyph));
    expected.extend(select(Pipeline::Quads));
    assert_eq!(frame.commands, expected);
    assert!(!frame.indices_rebuilt);
    assert_eq!(renderer.index_buffer().quads(), 0);
}

#[test]
fn frame_goes_through_the_pipelines_in_order() {
    let mut renderer = renderer();
    let frame = renderer.render_and_present(Ok(()), &primitives()).unwrap();
    let mut expected = vec![RenderCommand::WriteCamera { transform: None }];
    expected.extend(select(Pipeline::PlanarGlyph));
    expected.extend(select(Pipeline::SdfGlyph));
    expected.extend([
        RenderCommand::WriteCamera {
            transform: Some(TransformHandle(2)),
        },
        RenderCommand::BindCamera,
        RenderCommand::BindAtlas { batch: 1 },
        RenderCommand::SetVertexBuffer { batch: 1 },
        RenderCommand::DrawIndexed { indices: 30 },
    ]);
    expected.extend(select(Pipeline::Quads));
    expected.extend([
        RenderCommand::WriteCamera {
            transform: Some(TransformHandle(1)),
        },
        RenderCommand::BindCamera,
        RenderCommand::SetVertexBuffer { batch: 0 },
        RenderCommand::DrawIndexed { indices: 18 },
        RenderCommand::WriteCamera {
            transform: Some(TransformHandle(3)),
        },
        RenderCommand::BindCamera,
        RenderCommand::SetVertexBuffer { batch: 2 },
        RenderCommand::DrawIndexed { indices: 12 },
    ]);
    assert_eq!(frame.commands, expected);
}

#[test]
fn frame_sizes_the_index_data_to_the_largest_batch() {
    let mut renderer = renderer();
    let frame = renderer.render_and_present(Ok(()), &primitives()).unwrap();
    assert!(frame.indices_rebuilt);
    assert_eq!(renderer.index_buffer().quads(), 5);
    assert_eq!(
        renderer.index_buffer().indices(),
        QuadIndexBuffer::generate_array(5).as_slice()
    );

    let smaller = [Primitive::new(Pipeline::Quads, TransformHandle(1), 2)];
    let frame = renderer.render_and_present(Ok(()), &smaller).unwrap();
    assert!(!frame.indices_rebuilt);
    assert_eq!(renderer.index_buffer().quads(), 5);

    let larger = [Primitive::new(Pipeline::PlanarGlyph, TransformHandle(1), 8)];
    let frame = renderer.render_and_present(Ok(()), &larger).unwrap();
    assert!(frame.indices_rebuilt);
    assert_eq!(renderer.index_buffer().quads(), 8);
}

#[test]
fn failed_frame_hands_the_failure_on_and_changes_nothing() {
    for error in [
        SurfaceError::Lost,
        SurfaceError::OutOfMemory,
        SurfaceError::Timeout,
        SurfaceError::Outdated,
    ] {
        let mut renderer = renderer();
        renderer.render_and_present(Ok(()), &primitives()).unwrap();
        let indices = renderer.index_buffer().indices().to_vec();
        let larger = [Primitive::new(Pipeline::Quads, TransformHandle(1), 50)];
        let result = renderer.render_and_present(Err(error), &larger);
        assert_eq!(result.unwrap_err(), error);
        assert_eq!(renderer.index_buffer().indices(), indices.as_slice());
        assert_eq!(renderer.surface_size(), (800, 600));
        assert_eq!(renderer.pipelines().len(), 3);
    }
}

#[test]
fn lost_surface_then_reconfigure_then_retry() {
    let mut undisturbed = renderer();
    let expected = undisturbed.render_and_present(Ok(()), &primitives()).unwrap();

    let mut renderer = renderer();
    let lost = renderer.render_and_present(Err(SurfaceError::Lost), &primitives());
    let error = lost.unwrap_err();
    assert_eq!(error.recovery(), Recovery::Reconfigure);
    assert_eq!(renderer.index_buffer().quads(), 0);
    assert_eq!(
        renderer.reconfigure_surface(),
        SurfaceConfiguration {
            width: 800,
            height: 600
        }
    );
    assert_eq!(renderer.index_buffer().quads(), 0);

    let retried = renderer.render_and_present(Ok(()), &primitives()).unwrap();
    assert_eq!(retried.commands, expected.commands);
    assert_eq!(retried.indices_rebuilt, expected.indices_rebuilt);
    assert_eq!(
        renderer.index_buffer().indices(),
        undisturbed.index_buffer().indices()
    );
}

#[test]
fn resize_keeps_the_surface_at_least_one_pixel() {
    let mut renderer = renderer();
    assert!(renderer.resize_surface((0, 0)));
    assert_eq!(renderer.surface_size(), (1, 1));
    assert!(renderer.resize_surface((0, 300)));
    assert_eq!(renderer.surface_size(), (1, 300));
    assert!(renderer.resize_surface((400, 0)));
    assert_eq!(renderer.surface_size(), (400, 1));
}

#[test]
fn resize_to_the_same_size_needs_no_reconfigure() {
    let mut renderer = renderer();
    assert!(!renderer.resize_surface((800, 600)));
    assert!(renderer.resize_surface((801, 600)));
    assert!(!renderer.resize_surface((801, 600)));
    assert!(renderer.resize_surface((1, 1)));
    assert!(!renderer.resize_surface((0, 0)));
    assert_eq!(renderer.surface_size(), (1, 1));
}

#[test]
fn largest_quad_count_of_batches() {
    assert_eq!(largest_quad_count(&[]), 0);
    assert_eq!(largest_quad_count(&primitives()), 5);
}

#[test]
fn encode_batches_appends_the_batches_of_one_kind() {
    let mut commands = vec![RenderCommand::BindCamera];
    encode_batches(&mut commands, &primitives(), Pipeline::PlanarGlyph);
    assert_eq!(commands, vec![RenderCommand::BindCamera]);
    encode_batches(&mut commands, &primitives(), Pipeline::SdfGlyph);
    assert_eq!(
        commands,
        vec![
            RenderCommand::BindCamera,
            RenderCommand::WriteCamera {
                transform: Some(TransformHandle(2))
            },
            RenderCommand::BindCamera,
            RenderCommand::BindAtlas { batch: 1 },
            RenderCommand::SetVertexBuffer { batch: 1 },
            RenderCommand::DrawIndexed { indices: 30 },
        ]
    );
}

#[test]
fn primitive_accessors() {
    let primitive = Primitive::new(Pipeline::SdfGlyph, TransformHandle(9), 4);
    assert_eq!(primitive.pipeline(), Pipeline::SdfGlyph);
    assert_eq!(primitive.quads(), 4);
    assert_eq!(primitive.transform, TransformHandle(9));
}

#[test]
fn batches_beyond_the_draw_range_are_not_drawable() {
    assert!(is_drawable(&[]));
    assert!(is_drawable(&primitives()));
    let largest = (u32::MAX / 6) as usize;
    assert!(is_drawable(&[Primitive::new(
        Pipeline::Quads,
        TransformHandle(1),
        largest
    )]));
    assert!(!is_drawable(&[
        Primitive::new(Pipeline::Quads, TransformHandle(1), 1),
        Primitive::new(Pipeline::Quads, TransformHandle(2), largest + 1),
    ]));
}
