//! Batches of opaque colored quads, one per shared transform.

use crate::draw::{draw_batches, drawable, encode_batches, max_quads, select_pipeline};
use crate::draw::{Primitive, RenderCommand};
use crate::pipeline::Pipeline;
use crate::shapes::{Quad, QuadsShape, Shape, TransformHandle};
use itertools::Itertools;
use std::collections::HashMap;
use vstd::prelude::*;
use vstd::std_specs::hash::*;
use vstd::std_specs::iter::IteratorSpec;

verus! {

/// One corner of a quad as it is uploaded: its position and the color of its
/// quad.
#[derive(Debug, Clone, Copy)]
pub struct ColorVertex<P, C> {
    pub position: P,
    pub color: C,
}

impl<P, C> ColorVertex<P, C> {
    pub fn new(position: P, color: C) -> (r: Self)
        ensures
            r.position == position,
            r.color == color,
    {
        Self { position, color }
    }
}

/// One draw batch: the vertices of all quads that share a transform.
#[derive(Debug)]
pub struct QuadsLayer<P, C> {
    pub transform: TransformHandle,
    pub vertices: Vec<ColorVertex<P, C>>,
    pub quad_count: usize,
}

/// The vertices of a sequence of quads: four per quad, in the order of the
/// quads and of their corners, each with the color of its quad.
pub open spec fn quad_vertices<P, C>(quads: Seq<Quad<P, C>>) -> Seq<ColorVertex<P, C>> {
    Seq::new(
        4 * quads.len(),
        |j: int| ColorVertex { position: quads[j / 4].vertices@[j % 4], color: quads[j / 4].color },
    )
}

/// The quads of a group of shapes, one shape after the other.
pub open spec fn concat_quads<P, C>(group: Seq<&QuadsShape<P, C>>) -> Seq<Quad<P, C>>
    decreases group.len(),
{
    if group.len() == 0 {
        Seq::empty()
    } else {
        concat_quads(group.drop_last()) + group.last().quads@
    }
}

impl<P, C> QuadsLayer<P, C> {
    /// A batch holds four vertices for each of its quads, and is never empty.
    pub open spec fn wf(&self) -> bool {
        &&& self.vertices@.len() == 4 * self.quad_count
        &&& self.quad_count > 0
    }

    /// What a draw needs to know of the batch.
    pub open spec fn primitive(&self) -> Primitive {
        Primitive {
            pipeline: Pipeline::Quads,
            transform: self.transform,
            quad_count: self.quad_count,
        }
    }

    /// Whether this is the batch of the given quads under the given transform.
    pub open spec fn holds(&self, transform: TransformHandle, quads: Seq<Quad<P, C>>) -> bool {
        &&& self.transform == transform
        &&& self.vertices@ == quad_vertices(quads)
        &&& self.quad_count == quads.len()
    }
}

/// Builds the batch of a group of shapes under one transform: the vertices of
/// all their quads in one list. A group without quads gives no batch.
pub fn prepare_quads<P: Copy, C: Copy>(
    transform: TransformHandle,
    shapes: &[&QuadsShape<P, C>],
) -> (r: Option<QuadsLayer<P, C>>)
    ensures
        concat_quads(shapes@).len() == 0 <==> r is None,
        r matches Some(layer) ==> layer.holds(transform, concat_quads(shapes@)) && layer.wf(),
{
    let mut vertices: Vec<ColorVertex<P, C>> = Vec::new();
    let mut s: usize = 0;
    while s < shapes.len()
        invariant
            s <= shapes.len(),
            vertices@ == quad_vertices(concat_quads(shapes@.take(s as int))),
        decreases shapes.len() - s,
    {
        let shape: &QuadsShape<P, C> = shapes[s];
        let ghost before = concat_quads(shapes@.take(s as int));
        let mut q: usize = 0;
        while q < shape.quads.len()
            invariant
                q <= shape.quads.len(),
                vertices@ == quad_vertices(before + shape.quads@.take(q as int)),
            decreases shape.quads.len() - q,
        {
            let quad: &Quad<P, C> = &shape.quads[q];
            let ghost done = before + shape.quads@.take(q as int);
            vertices.push(ColorVertex::new(quad.vertices[0], quad.color));
            vertices.push(ColorVertex::new(quad.vertices[1], quad.color));
            vertices.push(ColorVertex::new(quad.vertices[2], quad.color));
            vertices.push(ColorVertex::new(quad.vertices[3], quad.color));
            q = q + 1;
            proof {
                assert(before + shape.quads@.take(q as int) =~= done.push(*quad));
                assert(vertices@ =~= quad_vertices(done.push(*quad)));
            }
        }
        s = s + 1;
        proof {
            assert(shape.quads@.take(q as int) =~= shape.quads@);
            assert(shapes@.take(s as int).drop_last() =~= shapes@.take(s as int - 1));
        }
    }
    proof {
        assert(shapes@.take(s as int) =~= shapes@);
    }
    if vertices.len() == 0 {
        return None;
    }
    let quad_count: usize = vertices.len() / 4;
    Some(QuadsLayer { transform, vertices, quad_count })
}

/// Holds of the shapes that are drawn under the transform with the given key.
pub open spec fn under_transform<'a, P, C>(key: u64) -> spec_fn(&'a QuadsShape<P, C>) -> bool {
    |shape: &'a QuadsShape<P, C>| shape.transform.0 == key
}

/// The quad shapes among the shapes of a frame, in their order.
pub open spec fn quad_shapes<'a, P, C>(shapes: Seq<Shape<P, C>>) -> Seq<&'a QuadsShape<P, C>>
    decreases shapes.len(),
{
    if shapes.len() == 0 {
        Seq::empty()
    } else {
        let rest = quad_shapes(shapes.drop_last());
        match shapes.last() {
            Shape::Quads(quads) => rest.push(&quads),
            _ => rest,
        }
    }
}

/// All quads of a frame that are drawn under one transform, in the order in
/// which the frame lists them.
pub open spec fn quads_under<P, C>(shapes: Seq<Shape<P, C>>, transform: TransformHandle) -> Seq<
    Quad<P, C>,
> {
    concat_quads(quad_shapes(shapes).filter(under_transform(transform.0)))
}

/// Whether no batch of the frame would exceed what one indexed draw can
/// address, six indices per quad in 32 bits.
pub open spec fn fits_draw_range<P, C>(shapes: Seq<Shape<P, C>>) -> bool {
    forall|transform: TransformHandle|
        6 * (#[trigger] quads_under(shapes, transform)).len() <= u32::MAX
}

/// The number of quads in all quad shapes of a frame.
pub open spec fn quad_total<P, C>(shapes: Seq<Shape<P, C>>) -> nat
    decreases shapes.len(),
{
    if shapes.len() == 0 {
        0
    } else {
        quad_total(shapes.drop_last()) + match shapes.last() {
            Shape::Quads(quads) => quads.quads@.len(),
            _ => 0,
        }
    }
}

/// Whether `layers` is the batching of a frame: each batch holds all quads
/// under its transform, no two batches share a transform, and every
/// transform with a quad has its batch.
pub open spec fn is_batching_of<P, C>(
    layers: Seq<QuadsLayer<P, C>>,
    shapes: Seq<Shape<P, C>>,
) -> bool {
    &&& forall|i: int|
        0 <= i < layers.len() ==> {
            &&& (#[trigger] layers[i]).wf()
            &&& layers[i].holds(layers[i].transform, quads_under(shapes, layers[i].transform))
        }
    &&& forall|i: int, j: int|
        0 <= i < j < layers.len() ==> (#[trigger] layers[i]).transform != (
        #[trigger] layers[j]).transform
    &&& forall|transform: TransformHandle|
        (#[trigger] quads_under(shapes, transform)).len() > 0 ==> exists|i: int|
            0 <= i < layers.len() && (#[trigger] layers[i]).transform == transform
}

/// What the draws need to know of the batches.
pub open spec fn layer_primitives<P, C>(layers: Seq<QuadsLayer<P, C>>) -> Seq<Primitive> {
    Seq::new(layers.len(), |i: int| layers[i].primitive())
}

/// The largest quad count among the batches, 0 where there is none.
pub open spec fn max_quad_count<P, C>(layers: Seq<QuadsLayer<P, C>>) -> nat {
    max_quads(layer_primitives(layers))
}

/// The quad shapes among the shapes of a frame.
fn collect_quad_shapes<'a, P, C>(shapes: &'a [Shape<P, C>]) -> (r: Vec<&'a QuadsShape<P, C>>)
    ensures
        r@ == quad_shapes(shapes@),
{
    let mut r: Vec<&'a QuadsShape<P, C>> = Vec::new();
    let mut i: usize = 0;
    while i < shapes.len()
        invariant
            i <= shapes.len(),
            r@ == quad_shapes(shapes@.take(i as int)),
        decreases shapes.len() - i,
    {
        match &shapes[i] {
            Shape::Quads(quads) => {
                r.push(quads);
            },
            _ => {},
        }
        i = i + 1;
        proof {
            assert(shapes@.take(i as int).drop_last() =~= shapes@.take(i as int - 1));
        }
    }
    proof {
        assert(shapes@.take(i as int) =~= shapes@);
    }
    r
}

/// Groups shapes by the key of their transform, with
/// `itertools::Itertools::into_group_map_by`. Trusted: the contract claims
/// that the map has a key exactly for each transform that occurs, and under
/// it the shapes of that transform in the order in which they were given.
#[verifier::external_body]
fn group_by_transform<'a, P, C>(shapes: Vec<&'a QuadsShape<P, C>>) -> (groups: HashMap<
    u64,
    Vec<&'a QuadsShape<P, C>>,
>)
    ensures
        forall|key: u64| #[trigger]
            groups@.contains_key(key) <==> shapes@.filter(under_transform(key)).len() > 0,
        forall|key: u64| #[trigger]
            groups@.contains_key(key) ==> groups@[key]@ == shapes@.filter(under_transform(key)),
{
    shapes.into_iter().into_group_map_by(|shape| shape.transform.0)
}

/// Whether `pairs` lists the groups of `all` by transform: each key once,
/// with the shapes under it, and a key for every transform that occurs.
#[verifier::opaque]
spec fn is_grouping<'a, P, C>(
    pairs: Seq<(&u64, &Vec<&'a QuadsShape<P, C>>)>,
    all: Seq<&'a QuadsShape<P, C>>,
) -> bool {
    &&& forall|j: int|
        0 <= j < pairs.len() ==> (#[trigger] pairs[j]).1@ == all.filter(
            under_transform(*pairs[j].0),
        )
    &&& forall|a: int, b: int|
        0 <= a < b < pairs.len() ==> *(#[trigger] pairs[a]).0 != *(#[trigger] pairs[b]).0
    &&& forall|key: u64|
        (#[trigger] all.filter(under_transform(key))).len() > 0 ==> exists|j: int|
            0 <= j < pairs.len() && *(#[trigger] pairs[j]).0 == key
}

/// Whether `layers` is the batching of a frame as far as the transforms in
/// `keys` go.
#[verifier::opaque]
spec fn covers<P, C>(layers: Seq<QuadsLayer<P, C>>, shapes: Seq<Shape<P, C>>, keys: Seq<u64>) -> bool {
    &&& forall|i: int|
        0 <= i < layers.len() ==> {
            &&& (#[trigger] layers[i]).wf()
            &&& layers[i].holds(layers[i].transform, quads_under(shapes, layers[i].transform))
            &&& keys.contains(layers[i].transform.0)
        }
    &&& forall|i: int, j: int|
        0 <= i < j < layers.len() ==> (#[trigger] layers[i]).transform != (
        #[trigger] layers[j]).transform
    &&& forall|j: int|
        0 <= j < keys.len() && quads_under(shapes, TransformHandle(#[trigger] keys[j])).len() > 0
            ==> exists|i: int|
            0 <= i < layers.len() && (#[trigger] layers[i]).transform.0 == keys[j]
}

/// What the walk over a map of groups yields is a grouping of the shapes that
/// the map was made from.
proof fn lemma_walk_is_grouping<'a, P, C>(
    grouped: &HashMap<u64, Vec<&'a QuadsShape<P, C>>>,
    all: Seq<&'a QuadsShape<P, C>>,
)
    requires
        forall|key: u64| #[trigger]
            grouped@.contains_key(key) <==> all.filter(under_transform(key)).len() > 0,
        forall|key: u64| #[trigger]
            grouped@.contains_key(key) ==> grouped@[key]@ == all.filter(under_transform(key)),
        spec_hash_map_iter(grouped).remaining().no_duplicates(),
    ensures
        is_grouping(spec_hash_map_iter(grouped).remaining(), all),
{
    broadcast use vstd::std_specs::hash::group_hash_axioms;

    reveal(is_grouping);
    let pairs = spec_hash_map_iter(grouped).remaining();
    assert forall|j: int| 0 <= j < pairs.len() implies (#[trigger] pairs[j]).1@ == all.filter(
        under_transform(*pairs[j].0),
    ) by {
        assert(grouped@.contains_key(*pairs[j].0) && grouped@[*pairs[j].0] == *pairs[j].1);
    }
    assert forall|a: int, b: int| 0 <= a < b < pairs.len() implies *(#[trigger] pairs[a]).0 != *(
    #[trigger] pairs[b]).0 by {
        assert(grouped@.contains_key(*pairs[a].0) && grouped@[*pairs[a].0] == *pairs[a].1);
        assert(grouped@.contains_key(*pairs[b].0) && grouped@[*pairs[b].0] == *pairs[b].1);
        if *pairs[a].0 == *pairs[b].0 {
            assert(pairs[a] == pairs[b]);
        }
    }
    assert forall|key: u64| (#[trigger] all.filter(under_transform(key))).len() > 0 implies exists|
        j: int,
    |
        0 <= j < pairs.len() && *(#[trigger] pairs[j]).0 == key by {
        assert(grouped@.contains_key(key));
        assert(pairs.contains((&key, &grouped@[key])));
        let j = choose|j: int| 0 <= j < pairs.len() && pairs[j] == (&key, &grouped@[key]);
        assert(*pairs[j].0 == key);
    }
}

/// No batch covers no transform.
proof fn lemma_covers_nothing<P, C>(shapes: Seq<Shape<P, C>>)
    ensures
        covers(Seq::<QuadsLayer<P, C>>::empty(), shapes, Seq::<u64>::empty()),
{
    reveal(covers);
}

/// Going on to the next transform keeps the batching, whether its group gave
/// a batch or not.
proof fn lemma_covers_next<P, C>(
    layers: Seq<QuadsLayer<P, C>>,
    shapes: Seq<Shape<P, C>>,
    keys: Seq<u64>,
    key: u64,
    built: Option<QuadsLayer<P, C>>,
)
    requires
        covers(layers, shapes, keys),
        !keys.contains(key),
        quads_under(shapes, TransformHandle(key)).len() == 0 <==> built is None,
        built matches Some(layer) ==> layer.wf() && layer.holds(
            TransformHandle(key),
            quads_under(shapes, TransformHandle(key)),
        ),
    ensures
        covers(
            match built {
                Some(layer) => layers.push(layer),
                None => layers,
            },
            shapes,
            keys.push(key),
        ),
        match built {
            Some(layer) => max_quad_count(layers.push(layer)) == if layer.quad_count
                > max_quad_count(layers) {
                layer.quad_count as nat
            } else {
                max_quad_count(layers)
            },
            None => true,
        },
{
    reveal(covers);
    let next_keys = keys.push(key);
    assert(next_keys.last() == key);
    assert forall|k: u64| keys.contains(k) implies next_keys.contains(k) by {
        let j = choose|j: int| 0 <= j < keys.len() && keys[j] == k;
        assert(next_keys[j] == k);
    }
    match built {
        Some(layer) => {
            let next = layers.push(layer);
            assert(next.drop_last() =~= layers);
            assert(next.last() == layer);
            assert(layer_primitives(next).drop_last() =~= layer_primitives(layers));
            assert(layer_primitives(next).last() == layer.primitive());
            assert forall|j: int|
                0 <= j < next_keys.len() && quads_under(
                    shapes,
                    TransformHandle(#[trigger] next_keys[j]),
                ).len() > 0 implies exists|i: int|
                0 <= i < next.len() && (#[trigger] next[i]).transform.0 == next_keys[j] by {
                if j < keys.len() {
                    assert(next_keys[j] == keys[j]);
                    let i = choose|i: int|
                        0 <= i < layers.len() && (#[trigger] layers[i]).transform.0 == keys[j];
                    assert(next[i].transform.0 == next_keys[j]);
                } else {
                    assert(next[layers.len() as int].transform.0 == key);
                }
            }
        },
        None => {
            assert forall|j: int|
                0 <= j < next_keys.len() && quads_under(
                    shapes,
                    TransformHandle(#[trigger] next_keys[j]),
                ).len() > 0 implies exists|i: int|
                0 <= i < layers.len() && (#[trigger] layers[i]).transform.0 == next_keys[j] by {
                assert(j < keys.len());
                assert(next_keys[j] == keys[j]);
            }
        },
    }
}

/// Once every group has been gone through, the batches are the batching of
/// the frame, and none exceeds what a draw can address.
proof fn lemma_covers_all<'a, P, C>(
    layers: Seq<QuadsLayer<P, C>>,
    shapes: Seq<Shape<P, C>>,
    keys: Seq<u64>,
    pairs: Seq<(&u64, &Vec<&'a QuadsShape<P, C>>)>,
)
    requires
        covers(layers, shapes, keys),
        is_grouping(pairs, quad_shapes(shapes)),
        fits_draw_range(shapes),
        keys.len() == pairs.len(),
        forall|j: int| 0 <= j < keys.len() ==> keys[j] == *(#[trigger] pairs[j]).0,
    ensures
        is_batching_of(layers, shapes),
        6 * max_quad_count(layers) <= u32::MAX,
        forall|i: int| 0 <= i < layers.len() ==> 6 * (#[trigger] layers[i]).quad_count <= u32::MAX,
{
    reveal(covers);
    reveal(is_grouping);
    assert forall|transform: TransformHandle|
        (#[trigger] quads_under(shapes, transform)).len() > 0 implies exists|i: int|
        0 <= i < layers.len() && (#[trigger] layers[i]).transform == transform by {
        let key = transform.0;
        assert(quad_shapes(shapes).filter(under_transform(key)).len() > 0);
        let j = choose|j: int| 0 <= j < pairs.len() && *(#[trigger] pairs[j]).0 == key;
        assert(keys[j] == key);
        assert(TransformHandle(keys[j]) == transform);
        let i = choose|i: int|
            0 <= i < layers.len() && (#[trigger] layers[i]).transform.0 == keys[j];
        assert(layers[i].transform == transform);
    }
    assert forall|i: int| 0 <= i < layers.len() implies 6 * (#[trigger] layers[i]).quad_count
        <= u32::MAX by {
        assert(layers[i].quad_count == quads_under(shapes, layers[i].transform).len());
    }
    let primitives = layer_primitives(layers);
    crate::draw::lemma_max_quads(primitives);
    if layers.len() > 0 {
        let i = choose|i: int|
            0 <= i < primitives.len() && (#[trigger] primitives[i]).quad_count == max_quads(
                primitives,
            );
        assert(primitives[i].quad_count == layers[i].quad_count);
    }
}

/// The batcher of quads: holds the batches of the current frame.
pub struct QuadsRenderer<P, C> {
    layers: Vec<QuadsLayer<P, C>>,
}

impl<P, C> QuadsRenderer<P, C> {
    #[verifier::type_invariant]
    spec fn inv(self) -> bool {
        forall|i: int|
            0 <= i < self.layers@.len() ==> {
                &&& (#[trigger] self.layers@[i]).wf()
                &&& 6 * self.layers@[i].quad_count <= u32::MAX
            }
    }

    /// The batches of the current frame.
    pub closed spec fn view(&self) -> Seq<QuadsLayer<P, C>> {
        self.layers@
    }

    /// A batcher without batches.
    pub fn new() -> (r: Self)
        ensures
            r@.len() == 0,
    {
        QuadsRenderer { layers: Vec::new() }
    }

    /// The steps that draw the batches: the quad pipeline is selected with
    /// all of the index data, then each batch is drawn in turn.
    pub open spec fn render_commands(&self) -> Seq<RenderCommand> {
        select_pipeline(Pipeline::Quads, None) + draw_batches(
            layer_primitives(self@),
            Pipeline::Quads,
        )
    }

    /// What the draws need to know of the batches, in their order.
    pub fn primitives(&self) -> (r: Vec<Primitive>)
        ensures
            r@ == layer_primitives(self@),
            drawable(r@),
    {
        proof {
            use_type_invariant(self);
        }
        let mut r: Vec<Primitive> = Vec::with_capacity(self.layers.len());
        let mut i: usize = 0;
        while i < self.layers.len()
            invariant
                i <= self.layers.len(),
                r@ == layer_primitives(self.layers@.take(i as int)),
                drawable(r@),
                forall|k: int|
                    0 <= k < self.layers@.len() ==> 6 * (#[trigger] self.layers@[k]).quad_count
                        <= u32::MAX,
            decreases self.layers.len() - i,
        {
            let layer = &self.layers[i];
            r.push(Primitive::new(Pipeline::Quads, layer.transform, layer.quad_count));
            i = i + 1;
            proof {
                assert(r@ =~= layer_primitives(self.layers@.take(i as int)));
            }
        }
        proof {
            assert(self.layers@.take(i as int) =~= self.layers@);
        }
        r
    }

    /// Lists the steps that draw the batches.
    pub fn render(&self) -> (commands: Vec<RenderCommand>)
        ensures
            commands@ == self.render_commands(),
    {
        let primitives = self.primitives();
        let mut commands: Vec<RenderCommand> = Vec::new();
        commands.push(RenderCommand::SetPipeline { pipeline: Pipeline::Quads });
        commands.push(RenderCommand::BindCamera);
        commands.push(RenderCommand::SetIndexBuffer { bytes: None });
        proof {
            assert(commands@ =~= select_pipeline(Pipeline::Quads, None));
        }
        encode_batches(&mut commands, primitives.as_slice(), Pipeline::Quads);
        commands
    }

    /// The batches of the current frame.
    pub fn layers(&self) -> (r: &[QuadsLayer<P, C>])
        ensures
            r@ == self@,
            forall|i: int| 0 <= i < r@.len() ==> (#[trigger] r@[i]).wf(),
    {
        proof {
            use_type_invariant(self);
        }
        self.layers.as_slice()
    }
}

/// Counts the quads in all quad shapes of a frame, as far as the count fits.
pub fn count_quads<P, C>(shapes: &[Shape<P, C>]) -> (r: Option<usize>)
    ensures
        match r {
            Some(total) => total == quad_total(shapes@),
            None => quad_total(shapes@) > usize::MAX,
        },
{
    let mut total: usize = 0;
    let mut i: usize = 0;
    while i < shapes.len()
        invariant
            i <= shapes.len(),
            total == quad_total(shapes@.take(i as int)),
        decreases shapes.len() - i,
    {
        let ghost before = shapes@.take(i as int);
        let added: usize = match &shapes[i] {
            Shape::Quads(quads) => quads.quads.len(),
            _ => 0,
        };
        proof {
            let taken = shapes@.take(i as int + 1);
            assert(taken.drop_last() =~= before);
            assert(taken.last() == shapes@[i as int]);
            assert(quad_total(taken) == total + added);
            lemma_quad_total_grows(shapes@, i as int + 1);
        }
        match total.checked_add(added) {
            Some(sum) => {
                total = sum;
            },
            None => {
                return None;
            },
        }
        i = i + 1;
    }
    proof {
        assert(shapes@.take(i as int) =~= shapes@);
    }
    Some(total)
}

impl<P: Copy, C: Copy> QuadsRenderer<P, C> {
    /// Replaces the batches by those of the given frame, where the frame has
    /// no more quads than one indexed draw can address; else nothing changes
    /// and nothing is returned.
    pub fn try_prepare(&mut self, shapes: &[Shape<P, C>]) -> (r: Option<usize>)
        ensures
            r is Some <==> 6 * quad_total(shapes@) <= u32::MAX,
            match r {
                Some(max_quads) => {
                    &&& is_batching_of(final(self)@, shapes@)
                    &&& max_quads == max_quad_count(final(self)@)
                },
                None => final(self)@ == old(self)@,
            },
    {
        match count_quads(shapes) {
            Some(total) => {
                if total > 0xffff_ffff / 6 {
                    return None;
                }
            },
            None => {
                return None;
            },
        }
        proof {
            assert forall|transform: TransformHandle|
                6 * (#[trigger] quads_under(shapes@, transform)).len() <= u32::MAX by {
                lemma_quads_under_total(shapes@, transform);
            }
        }
        Some(self.prepare(shapes))
    }

    /// Replaces the batches by those of the given frame: one batch for each
    /// transform under which the frame has a quad. Returns the largest quad
    /// count of a batch, which is what the shared index data must cover.
    pub fn prepare(&mut self, shapes: &[Shape<P, C>]) -> (max_quads: usize)
        requires
            fits_draw_range(shapes@),
        ensures
            is_batching_of(final(self)@, shapes@),
            max_quads == max_quad_count(final(self)@),
            6 * max_quads <= u32::MAX,
    {
        let quad_shapes = collect_quad_shapes(shapes);
        let ghost all = quad_shapes@;
        let grouped = group_by_transform(quad_shapes);
        let mut layers: Vec<QuadsLayer<P, C>> = Vec::new();
        let mut max_quads: usize = 0;
        let ghost mut keys: Seq<u64> = Seq::empty();
        proof {
            broadcast use vstd::std_specs::hash::group_hash_axioms;

            lemma_covers_nothing::<P, C>(shapes@);
            assert(spec_hash_map_iter(&grouped).remaining().no_duplicates() ==> is_grouping(
                spec_hash_map_iter(&grouped).remaining(),
                all,
            )) by {
                if spec_hash_map_iter(&grouped).remaining().no_duplicates() {
                    lemma_walk_is_grouping(&grouped, all);
                }
            }
        }

        for group in it: grouped.iter()
            invariant
                all == crate::quads::quad_shapes(shapes@),
                is_grouping(it.seq(), all),
                keys.len() == it.index(),
                forall|j: int| 0 <= j < keys.len() ==> keys[j] == *(#[trigger] it.seq()[j]).0,
                covers(layers@, shapes@, keys),
                max_quads == max_quad_count(layers@),
        {
            let transform = TransformHandle(*group.0);
            let ghost pairs = it.seq();
            let ghost at = it.index();
            proof {
                reveal(is_grouping);
                assert(pairs[at] == group);
                assert(group.1@ == all.filter(under_transform(*group.0)));
                assert(!keys.contains(*group.0)) by {
                    if keys.contains(*group.0) {
                        let j = choose|j: int| 0 <= j < keys.len() && keys[j] == *group.0;
                        assert(*pairs[j].0 == *pairs[at].0);
                    }
                }
            }
            let built = prepare_quads(transform, group.1.as_slice());
            proof {
                lemma_covers_next(layers@, shapes@, keys, *group.0, built);
                keys = keys.push(*group.0);
            }
            match built {
                Some(layer) => {
                    if layer.quad_count > max_quads {
                        max_quads = layer.quad_count;
                    }
                    layers.push(layer);
                },
                None => {},
            }
        }
        proof {
            lemma_covers_all(layers@, shapes@, keys, spec_hash_map_iter(&grouped).remaining());
        }
        self.layers = layers;
        max_quads
    }
}

/// The quads that one more shape adds under a transform: its own, where it
/// is a quad shape under that transform, and none else.
pub open spec fn quads_added<P, C>(shape: Shape<P, C>, transform: TransformHandle) -> Seq<
    Quad<P, C>,
> {
    match shape {
        Shape::Quads(quads) => if quads.transform == transform {
            quads.quads@
        } else {
            Seq::empty()
        },
        _ => Seq::empty(),
    }
}

/// A frame without shapes has no quads under any transform.
pub proof fn lemma_quads_under_empty<P, C>(transform: TransformHandle)
    ensures
        quads_under(Seq::<Shape<P, C>>::empty(), transform) == Seq::<Quad<P, C>>::empty(),
{
    reveal(Seq::filter);
    assert(quad_shapes(Seq::<Shape<P, C>>::empty()).len() == 0);
}

/// One more shape at the end of a frame adds its quads at the end of the
/// quads under its transform, and leaves those under every other transform
/// as they were.
pub proof fn lemma_quads_under_push<P, C>(
    shapes: Seq<Shape<P, C>>,
    shape: Shape<P, C>,
    transform: TransformHandle,
)
    ensures
        quads_under(shapes.push(shape), transform) == quads_under(shapes, transform) + quads_added(
            shape,
            transform,
        ),
{
    reveal(Seq::filter);
    let pred = under_transform::<P, C>(transform.0);
    let more = shapes.push(shape);
    assert(more.drop_last() =~= shapes);
    assert(more.last() == shape);
    match shape {
        Shape::Quads(quads) => {
            let refs = quad_shapes(shapes);
            assert(quad_shapes(more) == refs.push(&quads));
            assert(refs.push(&quads).drop_last() =~= refs);
            if quads.transform == transform {
                let group = refs.filter(pred);
                assert(refs.push(&quads).filter(pred) == group.push(&quads));
                assert(group.push(&quads).drop_last() =~= group);
            } else {
                assert(refs.push(&quads).filter(pred) == refs.filter(pred));
                assert(quads_under(shapes, transform) + Seq::<Quad<P, C>>::empty() =~= quads_under(
                    shapes,
                    transform,
                ));
            }
        },
        _ => {
            assert(quads_under(shapes, transform) + Seq::<Quad<P, C>>::empty() =~= quads_under(
                shapes,
                transform,
            ));
        },
    }
}

/// A batching has exactly one batch for each transform that has a quad:
/// no batch is without quads, and two batches under one transform are the
/// same batch.
pub proof fn lemma_batches_are_transforms<P, C>(
    layers: Seq<QuadsLayer<P, C>>,
    shapes: Seq<Shape<P, C>>,
)
    requires
        is_batching_of(layers, shapes),
    ensures
        forall|i: int|
            0 <= i < layers.len() ==> quads_under(shapes, (#[trigger] layers[i]).transform).len()
                > 0,
        forall|i: int|
            0 <= i < layers.len() ==> (#[trigger] layers[i]).vertices@.len() == 4 * quads_under(
                shapes,
                layers[i].transform,
            ).len(),
        forall|i: int, j: int|
            0 <= i < layers.len() && 0 <= j < layers.len() && (#[trigger] layers[i]).transform == (
            #[trigger] layers[j]).transform ==> i == j,
{
    assert forall|i: int, j: int|
        0 <= i < layers.len() && 0 <= j < layers.len() && (#[trigger] layers[i]).transform == (
        #[trigger] layers[j]).transform implies i == j by {
        if i < j {
            assert(layers[i].transform != layers[j].transform);
        }
        if j < i {
            assert(layers[j].transform != layers[i].transform);
        }
    }
}

/// Grouping goes by the identity of the transform. Of two shapes with quads,
/// those under two handles give two batches, one for each shape, whatever
/// the matrices behind the handles are; those under one handle give one
/// batch, with four vertices for each quad of both.
pub proof fn lemma_identity_grouping<P, C>(
    layers: Seq<QuadsLayer<P, C>>,
    first: QuadsShape<P, C>,
    second: QuadsShape<P, C>,
)
    requires
        is_batching_of(layers, seq![Shape::Quads(first), Shape::Quads(second)]),
        first.quads@.len() > 0,
        second.quads@.len() > 0,
    ensures
        first.transform != second.transform ==> {
            &&& layers.len() == 2
            &&& layers[0].transform != layers[1].transform
            &&& exists|i: int|
                0 <= i < 2 && (#[trigger] layers[i]).holds(first.transform, first.quads@)
            &&& exists|i: int|
                0 <= i < 2 && (#[trigger] layers[i]).holds(second.transform, second.quads@)
        },
        first.transform == second.transform ==> {
            &&& layers.len() == 1
            &&& layers[0].holds(first.transform, first.quads@ + second.quads@)
            &&& layers[0].vertices@.len() == 4 * (first.quads@.len() + second.quads@.len())
        },
{
    let none = Seq::<Shape<P, C>>::empty();
    let one = none.push(Shape::Quads(first));
    let shapes = seq![Shape::Quads(first), Shape::Quads(second)];
    assert(shapes =~= one.push(Shape::Quads(second)));
    assert forall|transform: TransformHandle|
        quads_under(shapes, transform) == quads_added(Shape::Quads(first), transform)
            + quads_added(Shape::Quads(second), transform) by {
        lemma_quads_under_empty::<P, C>(transform);
        lemma_quads_under_push(none, Shape::Quads(first), transform);
        lemma_quads_under_push(one, Shape::Quads(second), transform);
        assert(Seq::<Quad<P, C>>::empty() + quads_added(Shape::Quads(first), transform)
            =~= quads_added(Shape::Quads(first), transform));
    }
    lemma_batches_are_transforms(layers, shapes);
    assert forall|i: int| 0 <= i < layers.len() implies (#[trigger] layers[i]).transform
        == first.transform || layers[i].transform == second.transform by {
        let transform = layers[i].transform;
        assert(quads_under(shapes, transform).len() > 0);
    }
    assert(quads_under(shapes, first.transform).len() > 0);
    assert(quads_under(shapes, second.transform).len() > 0);
    let a = choose|i: int| 0 <= i < layers.len() && (#[trigger] layers[i]).transform == first.transform;
    let b = choose|i: int|
        0 <= i < layers.len() && (#[trigger] layers[i]).transform == second.transform;
    if first.transform == second.transform {
        assert(a == b);
        if layers.len() > 1 {
            assert(layers[0].transform == layers[1].transform);
        }
        assert(a == 0);
    } else {
        assert(a != b);
        if layers.len() > 2 {
            assert(layers[0].transform == layers[2].transform || layers[1].transform
                == layers[2].transform || layers[0].transform == layers[1].transform);
        }
        assert(quads_under(shapes, first.transform) =~= first.quads@);
        assert(quads_under(shapes, second.transform) =~= second.quads@);
        assert(layers[a].holds(first.transform, first.quads@));
        assert(layers[b].holds(second.transform, second.quads@));
    }
}

/// A beginning of a frame has no more quads than the frame.
pub proof fn lemma_quad_total_grows<P, C>(shapes: Seq<Shape<P, C>>, n: int)
    requires
        0 <= n <= shapes.len(),
    ensures
        quad_total(shapes.take(n)) <= quad_total(shapes),
    decreases shapes.len(),
{
    if n == shapes.len() {
        assert(shapes.take(n) =~= shapes);
    } else {
        lemma_quad_total_grows(shapes.drop_last(), n);
        assert(shapes.drop_last().take(n) =~= shapes.take(n));
    }
}

/// No transform has more quads than the frame has in all.
pub proof fn lemma_quads_under_total<P, C>(shapes: Seq<Shape<P, C>>, transform: TransformHandle)
    ensures
        quads_under(shapes, transform).len() <= quad_total(shapes),
    decreases shapes.len(),
{
    if shapes.len() == 0 {
        assert(shapes =~= Seq::<Shape<P, C>>::empty());
        lemma_quads_under_empty::<P, C>(transform);
    } else {
        lemma_quads_under_total(shapes.drop_last(), transform);
        lemma_quads_under_push(shapes.drop_last(), shapes.last(), transform);
        assert(shapes.drop_last().push(shapes.last()) =~= shapes);
    }
}

} // verus!
