//! Placement of the glyph images of a single line of text on a fixed
//! baseline, each image drawn as a textured quad of its own.

use crate::shapes::{place_on_baseline, placed_rect, placement_fits, PixelRect, Placement};
use vstd::prelude::*;

verus! {

/// The baseline of the line, in pixels below the top of the surface.
pub const BASELINE_Y: i32 = 200;

/// Whether an image has pixels to draw.
pub open spec fn spec_is_visible(placement: Placement) -> bool {
    placement.width != 0 && placement.height != 0
}

/// Whether an image has pixels to draw.
#[verifier::when_used_as_spec(spec_is_visible)]
pub fn is_visible(placement: Placement) -> (r: bool)
    ensures
        r == spec_is_visible(placement),
{
    placement.width != 0 && placement.height != 0
}

/// Where the image of a glyph at `pos` lands. The placement counts upwards
/// from the baseline, the surface downwards from its top.
pub fn place_glyph(pos: (i32, i32), placement: Placement) -> (r: PixelRect)
    requires
        placement_fits(pos, BASELINE_Y, placement),
    ensures
        r.0.0 == placed_rect(pos, BASELINE_Y, placement).0.0,
        r.0.1 == placed_rect(pos, BASELINE_Y, placement).0.1,
        r.1.0 == placed_rect(pos, BASELINE_Y, placement).1.0,
        r.1.1 == placed_rect(pos, BASELINE_Y, placement).1.1,
{
    place_on_baseline(pos, BASELINE_Y, &placement)
}

/// Whether glyph `i` of the line is drawn: it has an image, and the image
/// has pixels.
pub open spec fn is_drawn(images: Seq<Option<Placement>>, i: int) -> bool {
    images[i] matches Some(placement) && spec_is_visible(placement)
}

/// Whether `r` is the rectangle of glyph `i`, or nothing where the glyph is
/// not drawn.
pub open spec fn is_glyph_rect(
    positions: Seq<(i32, i32)>,
    images: Seq<Option<Placement>>,
    i: int,
    r: Option<PixelRect>,
) -> bool {
    if is_drawn(images, i) {
        let rect = placed_rect(positions[i], BASELINE_Y, images[i]->0);
        r matches Some(got) && got.0.0 == rect.0.0 && got.0.1 == rect.0.1 && got.1.0 == rect.1.0
            && got.1.1 == rect.1.1
    } else {
        r is None
    }
}

/// For each glyph of a line the rectangle that its image is drawn to, in
/// pixels of the surface, or nothing where the rasterizer gave no image or
/// an empty one. `positions` holds the positions of the glyphs, `images` the
/// placements of their images.
pub fn render_graph(positions: &[(i32, i32)], images: &[Option<Placement>]) -> (rects: Vec<
    Option<PixelRect>,
>)
    requires
        positions@.len() == images@.len(),
        forall|i: int|
            0 <= i < images@.len() && is_drawn(images@, i) ==> placement_fits(
                #[trigger] positions@[i],
                BASELINE_Y,
                images@[i]->0,
            ),
    ensures
        rects@.len() == images@.len(),
        forall|i: int|
            0 <= i < rects@.len() ==> is_glyph_rect(positions@, images@, i, #[trigger] rects@[i]),
{
    let mut rects: Vec<Option<PixelRect>> = Vec::with_capacity(images.len());
    let mut i: usize = 0;
    while i < images.len()
        invariant
            i <= images.len(),
            positions@.len() == images@.len(),
            rects@.len() == i,
            forall|k: int|
                0 <= k < images@.len() && is_drawn(images@, k) ==> placement_fits(
                    #[trigger] positions@[k],
                    BASELINE_Y,
                    images@[k]->0,
                ),
            forall|k: int|
                0 <= k < i ==> is_glyph_rect(positions@, images@, k, #[trigger] rects@[k]),
        decreases images.len() - i,
    {
        let rect = match images[i] {
            Some(placement) => {
                if is_visible(placement) {
                    assert(is_drawn(images@, i as int));
                    assert(placement_fits(positions@[i as int], BASELINE_Y, placement));
                    Some(place_glyph(positions[i], placement))
                } else {
                    None
                }
            },
            None => None,
        };
        rects.push(rect);
        i = i + 1;
    }
    rects
}

} // verus!
