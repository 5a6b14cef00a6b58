//! The dispatcher of a frame: it sizes the shared index data, goes through
//! the pipeline kinds in their fixed order and lists the steps of the render
//! pass.
//!
//! A frame is atomic. Either the surface image was acquired and the whole
//! pass is listed, to be submitted as one unit, or nothing is listed and
//! nothing changes.

use crate::draw::{draw_batches, drawable, encode_batches, largest_quad_count, max_quads};
use crate::draw::{select_pipeline, Primitive, RenderCommand};
use crate::index_buffer::{quad_indices, QuadIndexBuffer};
use crate::pipeline::{pipeline_order, Pipeline};
use crate::quads::{layer_primitives, QuadsRenderer};
use vstd::prelude::*;

verus! {

/// Why no surface image could be acquired for a frame.
#[derive(Debug, Clone, Copy, PartialEq, Eq, Hash, Structural)]
pub enum SurfaceError {
    /// Acquiring the image took too long.
    Timeout,
    /// The surface has changed and must be configured again.
    Outdated,
    /// The surface was lost.
    Lost,
    /// There is no memory left.
    OutOfMemory,
}

/// What the frame driver does about a frame that could not be drawn.
#[derive(Debug, Clone, Copy, PartialEq, Eq, Hash, Structural)]
pub enum Recovery {
    /// Configure the surface again and draw the next frame.
    Reconfigure,
    /// Report the failure and draw the next frame.
    Skip,
    /// Leave the run loop.
    Exit,
}

impl SurfaceError {
    /// The policy for failed frames: a lost surface is configured again, a
    /// lack of memory ends the run, and everything else is resolved by the
    /// next frame.
    pub open spec fn spec_recovery(self) -> Recovery {
        match self {
            SurfaceError::Lost => Recovery::Reconfigure,
            SurfaceError::OutOfMemory => Recovery::Exit,
            SurfaceError::Timeout => Recovery::Skip,
            SurfaceError::Outdated => Recovery::Skip,
        }
    }

    /// What the frame driver does about this failure.
    #[verifier::when_used_as_spec(spec_recovery)]
    pub fn recovery(self) -> (r: Recovery)
        ensures
            r == self.spec_recovery(),
    {
        match self {
            SurfaceError::Lost => Recovery::Reconfigure,
            SurfaceError::OutOfMemory => Recovery::Exit,
            SurfaceError::Timeout => Recovery::Skip,
            SurfaceError::Outdated => Recovery::Skip,
        }
    }
}

/// The size that the surface is configured with.
#[derive(Debug, Clone, Copy, PartialEq, Eq, Hash, Structural)]
pub struct SurfaceConfiguration {
    pub width: u32,
    pub height: u32,
}

/// A surface is at least one pixel wide and high.
pub open spec fn clamp_surface_size(size: (u32, u32)) -> (u32, u32) {
    (
        if size.0 < 1 {
            1u32
        } else {
            size.0
        },
        if size.1 < 1 {
            1u32
        } else {
            size.1
        },
    )
}

/// The steps of the passes through the given pipeline kinds, one kind after
/// the other: each kind is selected with all of the index data, then its
/// batches are drawn.
pub open spec fn passes(pipelines: Seq<Pipeline>, primitives: Seq<Primitive>) -> Seq<RenderCommand>
    decreases pipelines.len(),
{
    if pipelines.len() == 0 {
        Seq::empty()
    } else {
        passes(pipelines.drop_last(), primitives) + select_pipeline(pipelines.last(), None)
            + draw_batches(primitives, pipelines.last())
    }
}

/// The steps of a frame: the camera matrix of the frame is written to the
/// camera uniform, then the pipeline kinds are gone through in their order.
pub open spec fn frame_commands(pipelines: Seq<Pipeline>, primitives: Seq<Primitive>) -> Seq<
    RenderCommand,
> {
    seq![RenderCommand::WriteCamera { transform: None }] + passes(pipelines, primitives)
}

/// The state of the dispatcher.
pub struct RendererState {
    pub surface: SurfaceConfiguration,
    pub pipelines: Seq<Pipeline>,
    pub indices: Seq<u16>,
}

impl RendererState {
    /// The state after a frame. A frame whose surface image was not acquired
    /// changes nothing; else the index data covers the largest batch
    /// afterwards, rebuilt only where it did not before.
    pub open spec fn after_frame(
        self,
        acquired: Result<(), SurfaceError>,
        primitives: Seq<Primitive>,
    ) -> RendererState {
        if acquired is Ok && self.indices.len() / 6 < max_quads(primitives) {
            RendererState { indices: quad_indices(max_quads(primitives)), ..self }
        } else {
            self
        }
    }
}

/// A frame that was drawn.
#[derive(Debug)]
pub struct Frame {
    /// The steps of the render pass, to be encoded and submitted as one
    /// unit.
    pub commands: Vec<RenderCommand>,
    /// Whether the index data was rebuilt and has to be uploaded before the
    /// pass.
    pub indices_rebuilt: bool,
}

pub struct Renderer {
    surface_config: SurfaceConfiguration,
    pipelines: Vec<Pipeline>,
    index_buffer: QuadIndexBuffer,
}

impl Renderer {
    /// The state of the dispatcher.
    pub closed spec fn view(&self) -> RendererState {
        RendererState {
            surface: self.surface_config,
            pipelines: self.pipelines@,
            indices: self.index_buffer@,
        }
    }

    /// A renderer for a surface with the given configuration, with the
    /// pipeline kinds in their fixed order and no index data yet.
    pub fn new(surface_config: SurfaceConfiguration) -> (r: Self)
        ensures
            r@.surface == surface_config,
            r@.pipelines == pipeline_order(),
            r@.indices == Seq::<u16>::empty(),
    {
        let mut pipelines: Vec<Pipeline> = Vec::new();
        pipelines.push(Pipeline::PlanarGlyph);
        pipelines.push(Pipeline::SdfGlyph);
        pipelines.push(Pipeline::Quads);
        proof {
            assert(pipelines@ =~= pipeline_order());
        }
        Renderer { surface_config, pipelines, index_buffer: QuadIndexBuffer::new() }
    }

    /// The index data that all batches share.
    pub fn index_buffer(&self) -> (r: &QuadIndexBuffer)
        ensures
            r@ == self@.indices,
    {
        &self.index_buffer
    }

    /// The pipeline kinds in the order in which a frame goes through them.
    pub fn pipelines(&self) -> (r: &[Pipeline])
        ensures
            r@ == self@.pipelines,
    {
        self.pipelines.as_slice()
    }

    /// Draws a frame, given whether its surface image was acquired. Where it
    /// was not, the failure is handed on and nothing changes. Else the index
    /// data is made to cover the largest batch and the steps of the frame are
    /// listed.
    pub fn render_and_present(
        &mut self,
        acquired: Result<(), SurfaceError>,
        primitives: &[Primitive],
    ) -> (r: Result<Frame, SurfaceError>)
        requires
            drawable(primitives@),
        ensures
            final(self)@ == old(self)@.after_frame(acquired, primitives@),
            match acquired {
                Err(e) => r == Err::<Frame, SurfaceError>(e),
                Ok(_) => r matches Ok(frame) && frame.commands@ == frame_commands(
                    old(self)@.pipelines,
                    primitives@,
                ) && frame.indices_rebuilt == (final(self)@.indices != old(self)@.indices),
            },
            acquired is Ok ==> final(self)@.indices.len() / 6 >= max_quads(primitives@),
            old(self)@.indices.is_prefix_of(final(self)@.indices),
    {
        match acquired {
            Err(e) => {
                return Err(e);
            },
            Ok(_) => {},
        }
        let needed = largest_quad_count(primitives);
        proof {
            crate::draw::lemma_max_quads(primitives@);
        }
        let ghost held = self.index_buffer@;
        let indices_rebuilt = self.index_buffer.ensure_quads(needed);
        proof {
            if indices_rebuilt {
                assert(held.len() / 6 < needed);
                assert(quad_indices(needed as nat).len() == 6 * needed);
                assert(self.index_buffer@ != held);
            }
        }

        let mut commands: Vec<RenderCommand> = Vec::new();
        commands.push(RenderCommand::WriteCamera { transform: None });
        let mut i: usize = 0;
        while i < self.pipelines.len()
            invariant
                i <= self.pipelines.len(),
                drawable(primitives@),
                commands@ == frame_commands(self.pipelines@.take(i as int), primitives@),
            decreases self.pipelines.len() - i,
        {
            let kind = self.pipelines[i];
            let ghost before = commands@;
            commands.push(RenderCommand::SetPipeline { pipeline: kind });
            commands.push(RenderCommand::BindCamera);
            commands.push(RenderCommand::SetIndexBuffer { bytes: None });
            proof {
                assert(commands@ =~= before + select_pipeline(kind, None));
            }
            encode_batches(&mut commands, primitives, kind);
            i = i + 1;
            proof {
                let taken = self.pipelines@.take(i as int);
                assert(taken.drop_last() =~= self.pipelines@.take(i as int - 1));
                assert(taken.last() == kind);
                assert(commands@ =~= frame_commands(taken, primitives@));
            }
        }
        proof {
            assert(self.pipelines@.take(i as int) =~= self.pipelines@);
        }
        Ok(Frame { commands, indices_rebuilt })
    }

    /// Resizes the surface, if necessary, and returns whether it has to be
    /// configured again. The surface is kept at least one pixel wide and
    /// high.
    pub fn resize_surface(&mut self, new_size: (u32, u32)) -> (reconfigure: bool)
        ensures
            final(self)@.surface.width == clamp_surface_size(new_size).0,
            final(self)@.surface.height == clamp_surface_size(new_size).1,
            reconfigure == (final(self)@.surface != old(self)@.surface),
            final(self)@.pipelines == old(self)@.pipelines,
            final(self)@.indices == old(self)@.indices,
    {
        let width: u32 = if new_size.0 < 1 {
            1
        } else {
            new_size.0
        };
        let height: u32 = if new_size.1 < 1 {
            1
        } else {
            new_size.1
        };
        let current = self.surface_size();
        if width == current.0 && height == current.1 {
            return false;
        }
        self.surface_config.width = width;
        self.surface_config.height = height;
        true
    }

    /// Returns the current surface size. It may differ from the size of the
    /// window, for one where the window is 0 pixels wide or high.
    pub fn surface_size(&self) -> (r: (u32, u32))
        ensures
            r.0 == self@.surface.width,
            r.1 == self@.surface.height,
    {
        (self.surface_config.width, self.surface_config.height)
    }

    /// The configuration that the surface is to be configured with again.
    /// Nothing that the renderer holds changes by this.
    pub fn reconfigure_surface(&self) -> (r: SurfaceConfiguration)
        ensures
            r == self@.surface,
    {
        self.surface_config
    }
}

/// After a frame that failed because the surface was lost, the renderer
/// holds what it held before; the policy for that failure is to configure
/// the surface again, which changes nothing either; and the frame drawn
/// after that is the frame that would have been drawn at first.
pub proof fn lemma_lost_surface_recovery(state: RendererState, primitives: Seq<Primitive>)
    ensures
        SurfaceError::Lost.spec_recovery() == Recovery::Reconfigure,
        state.after_frame(Err(SurfaceError::Lost), primitives) == state,
        state.after_frame(Err(SurfaceError::Lost), primitives).after_frame(Ok(()), primitives)
            == state.after_frame(Ok(()), primitives),
{
}

/// A failed frame changes nothing, whatever the failure was.
pub proof fn lemma_failed_frame_is_abandoned(
    state: RendererState,
    error: SurfaceError,
    primitives: Seq<Primitive>,
)
    ensures
        state.after_frame(Err(error), primitives) == state,
{
}

/// Batches of other kinds draw nothing in the pass of a pipeline kind.
pub proof fn lemma_other_kinds_draw_nothing(primitives: Seq<Primitive>, pipeline: Pipeline)
    requires
        forall|i: int| 0 <= i < primitives.len() ==> (#[trigger] primitives[i]).pipeline != pipeline,
    ensures
        draw_batches(primitives, pipeline) == Seq::<RenderCommand>::empty(),
    decreases primitives.len(),
{
    if primitives.len() > 0 {
        let rest = primitives.drop_last();
        assert forall|i: int| 0 <= i < rest.len() implies (#[trigger] rest[i]).pipeline
            != pipeline by {
            assert(rest[i] == primitives[i]);
        }
        lemma_other_kinds_draw_nothing(rest, pipeline);
        assert(primitives[primitives.len() - 1].pipeline != pipeline);
    }
}

/// A frame goes through the three pipeline kinds in their fixed order: plain
/// glyphs, distance field glyphs, quads. Each pass selects its pipeline and
/// draws the batches of its kind.
pub proof fn lemma_frame_order(primitives: Seq<Primitive>)
    ensures
        frame_commands(pipeline_order(), primitives) == seq![
            RenderCommand::WriteCamera { transform: None },
        ] + (select_pipeline(Pipeline::PlanarGlyph, None) + draw_batches(
            primitives,
            Pipeline::PlanarGlyph,
        )) + (select_pipeline(Pipeline::SdfGlyph, None) + draw_batches(
            primitives,
            Pipeline::SdfGlyph,
        )) + (select_pipeline(Pipeline::Quads, None) + draw_batches(primitives, Pipeline::Quads)),
{
    let all = pipeline_order();
    let two = all.drop_last();
    let one = two.drop_last();
    assert(one.drop_last().len() == 0);
    assert(passes(one.drop_last(), primitives) == Seq::<RenderCommand>::empty());
    assert(one.last() == Pipeline::PlanarGlyph);
    assert(two.last() == Pipeline::SdfGlyph);
    assert(all.last() == Pipeline::Quads);
    let planar = select_pipeline(Pipeline::PlanarGlyph, None) + draw_batches(
        primitives,
        Pipeline::PlanarGlyph,
    );
    let sdf = select_pipeline(Pipeline::SdfGlyph, None) + draw_batches(
        primitives,
        Pipeline::SdfGlyph,
    );
    let quads = select_pipeline(Pipeline::Quads, None) + draw_batches(primitives, Pipeline::Quads);
    assert(passes(one, primitives) =~= planar);
    assert(passes(two, primitives) =~= planar + sdf);
    assert(passes(all, primitives) =~= planar + sdf + quads);
    let first = seq![RenderCommand::WriteCamera { transform: None }];
    assert(first + (planar + sdf + quads) =~= first + planar + sdf + quads);
}

/// In a frame that holds the batches of the quad batcher and no others, the
/// glyph passes select their pipelines and draw nothing, and the quad pass
/// is what the quad batcher lists on its own.
pub proof fn lemma_frame_of_quads<P, C>(quads: QuadsRenderer<P, C>)
    ensures
        frame_commands(pipeline_order(), layer_primitives(quads@)) == seq![
            RenderCommand::WriteCamera { transform: None },
        ] + select_pipeline(Pipeline::PlanarGlyph, None) + select_pipeline(
            Pipeline::SdfGlyph,
            None,
        ) + quads.render_commands(),
{
    let primitives = layer_primitives(quads@);
    lemma_frame_order(primitives);
    lemma_other_kinds_draw_nothing(primitives, Pipeline::PlanarGlyph);
    lemma_other_kinds_draw_nothing(primitives, Pipeline::SdfGlyph);
    let none = Seq::<RenderCommand>::empty();
    assert(select_pipeline(Pipeline::PlanarGlyph, None) + none =~= select_pipeline(
        Pipeline::PlanarGlyph,
        None,
    ));
    assert(select_pipeline(Pipeline::SdfGlyph, None) + none =~= select_pipeline(
        Pipeline::SdfGlyph,
        None,
    ));
}

} // verus!
