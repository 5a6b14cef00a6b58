//! The drawable primitives of a frame.
//!
//! Positions and colors pass through the renderer untouched, so the shapes are
//! generic in them: `P` is the type of a position in space, `C` the type of a
//! color.

use vstd::prelude::*;

verus! {

/// Identifies one shared transform. Two shapes are drawn under the same
/// transform exactly if their handles are equal; the matrices behind two
/// different handles may well be equal.
#[derive(Debug, Clone, Copy, PartialEq, Eq, Hash, Structural)]
pub struct TransformHandle(pub u64);

/// A filled quadrilateral: four corners and one color.
#[derive(Debug, Clone, Copy)]
pub struct Quad<P, C> {
    pub vertices: [P; 4],
    pub color: C,
}

/// A number of quads drawn under one shared transform.
#[derive(Debug, Clone)]
pub struct QuadsShape<P, C> {
    pub transform: TransformHandle,
    pub quads: Vec<Quad<P, C>>,
}

#[derive(Debug, Clone)]
pub enum Shape<P, C> {
    /// A number of glyphs drawn under one shared transform and an additional
    /// translation.
    GlyphRun {
        transform: TransformHandle,
        /// Local translation of the run, kept apart from the transform so
        /// that glyphs can be instanced.
        translation: P,
        run: GlyphRun<C>,
    },
    /// A number of quads drawn under one shared transform.
    Quads(QuadsShape<P, C>),
}

/// Offset and dimensions of a rasterized glyph image. `top` grows upwards
/// from the baseline.
#[derive(Debug, Clone, Copy, PartialEq, Eq, Hash, Structural)]
pub struct Placement {
    pub left: i32,
    pub top: i32,
    pub width: u32,
    pub height: u32,
}

/// A pixel rectangle given by its left top and its right bottom corner.
pub type PixelRect = ((i32, i32), (i32, i32));

#[derive(Debug, Clone, Copy, PartialEq, Eq, Hash, Structural)]
pub struct GlyphRunMetrics {
    pub max_ascent: u32,
    pub max_descent: u32,
    pub width: u32,
}

impl GlyphRunMetrics {
    /// Size of the glyph run in font-size pixels: its width, and the sum of
    /// its ascent and descent as the height.
    pub fn size(&self) -> (r: (u32, u32))
        requires
            self.max_ascent + self.max_descent <= u32::MAX,
        ensures
            r.0 == self.width,
            r.1 == self.max_ascent + self.max_descent,
    {
        (self.width, self.max_ascent + self.max_descent)
    }
}

/// The weight of a font, from 100 (thin) to 900 (black).
#[derive(Debug, Copy, Clone, PartialEq, Eq, Hash, Structural)]
pub struct TextWeight(pub u16);

/// The named weights.
impl TextWeight {
    pub fn thin() -> (w: TextWeight)
        ensures
            w == TextWeight(100),
    {
        TextWeight(100)
    }

    pub fn extra_light() -> (w: TextWeight)
        ensures
            w == TextWeight(200),
    {
        TextWeight(200)
    }

    pub fn light() -> (w: TextWeight)
        ensures
            w == TextWeight(300),
    {
        TextWeight(300)
    }

    pub fn normal() -> (w: TextWeight)
        ensures
            w == TextWeight(400),
    {
        TextWeight(400)
    }

    pub fn medium() -> (w: TextWeight)
        ensures
            w == TextWeight(500),
    {
        TextWeight(500)
    }

    pub fn semi_bold() -> (w: TextWeight)
        ensures
            w == TextWeight(600),
    {
        TextWeight(600)
    }

    pub fn bold() -> (w: TextWeight)
        ensures
            w == TextWeight(700),
    {
        TextWeight(700)
    }

    pub fn extra_bold() -> (w: TextWeight)
        ensures
            w == TextWeight(800),
    {
        TextWeight(800)
    }

    pub fn black() -> (w: TextWeight)
        ensures
            w == TextWeight(900),
    {
        TextWeight(900)
    }
}

/// The key under which a rasterized glyph image is cached: font, glyph, size
/// and the bucket of its sub-pixel position. Nothing here looks inside it.
#[verifier::external_type_specification]
#[verifier::external_body]
pub struct ExCacheKey(cosmic_text::CacheKey);

/// A glyph inside a [`GlyphRun`].
#[derive(Debug, Clone, Copy)]
pub struct RunGlyph {
    /// Finds the image of the glyph.
    pub key: cosmic_text::CacheKey,
    pub hitbox_pos: (i32, i32),
    /// Width of the hitbox, as the bits of a 32 bit float.
    pub hitbox_width: u32,
}

impl RunGlyph {
    pub fn new(key: cosmic_text::CacheKey, hitbox_pos: (i32, i32), hitbox_width: u32) -> (r: Self)
        ensures
            r.key == key,
            r.hitbox_pos == hitbox_pos,
            r.hitbox_width == hitbox_width,
    {
        Self { key, hitbox_pos, hitbox_width }
    }

    /// The bounds enclosing the pixel at `offset` from the hitbox position.
    /// The offsets are taken as 32 bit signed values, as they are stored.
    pub fn pixel_bounds_at(&self, offset: (u32, u32)) -> (r: PixelRect)
        requires
            i32::MIN <= self.hitbox_pos.0 + (offset.0 as i32) < i32::MAX,
            i32::MIN <= self.hitbox_pos.1 + (offset.1 as i32) < i32::MAX,
        ensures
            r.0.0 == self.hitbox_pos.0 + (offset.0 as i32),
            r.0.1 == self.hitbox_pos.1 + (offset.1 as i32),
            r.1.0 == r.0.0 + 1,
            r.1.1 == r.0.1 + 1,
    {
        let x: i32 = self.hitbox_pos.0 + #[verifier::truncate] (offset.0 as i32);
        let y: i32 = self.hitbox_pos.1 + #[verifier::truncate] (offset.1 as i32);
        ((x, y), (x + 1, y + 1))
    }
}

/// A run of glyphs on one baseline.
#[derive(Debug, Clone)]
pub struct GlyphRun<C> {
    pub metrics: GlyphRunMetrics,
    pub text_color: C,
    pub text_weight: TextWeight,
    pub glyphs: Vec<RunGlyph>,
}

/// Where an image with the given placement lands, for a glyph whose hitbox
/// starts at `pos` on a baseline `baseline` pixels below the origin. The
/// dimensions are taken as 32 bit signed values.
pub open spec fn placed_rect(pos: (i32, i32), baseline: i32, placement: Placement) -> (
    (int, int),
    (int, int),
) {
    let left = pos.0 + placement.left;
    let top = pos.1 + baseline - placement.top;
    ((left, top), (left + (placement.width as i32), top + (placement.height as i32)))
}

/// Whether every step of the computation of [`placed_rect`] stays within 32
/// bit signed values.
pub open spec fn placement_fits(pos: (i32, i32), baseline: i32, placement: Placement) -> bool {
    let left = pos.0 + placement.left;
    let top = pos.1 + baseline - placement.top;
    &&& i32::MIN <= left <= i32::MAX
    &&& i32::MIN <= pos.1 + baseline <= i32::MAX
    &&& i32::MIN <= top <= i32::MAX
    &&& i32::MIN <= left + (placement.width as i32) <= i32::MAX
    &&& i32::MIN <= top + (placement.height as i32) <= i32::MAX
}

/// Computes [`placed_rect`].
pub fn place_on_baseline(pos: (i32, i32), baseline: i32, placement: &Placement) -> (r: PixelRect)
    requires
        placement_fits(pos, baseline, *placement),
    ensures
        r.0.0 == placed_rect(pos, baseline, *placement).0.0,
        r.0.1 == placed_rect(pos, baseline, *placement).0.1,
        r.1.0 == placed_rect(pos, baseline, *placement).1.0,
        r.1.1 == placed_rect(pos, baseline, *placement).1.1,
{
    let left: i32 = pos.0 + placement.left;
    let top: i32 = pos.1 + baseline - placement.top;
    let right: i32 = left + #[verifier::truncate] (placement.width as i32);
    let bottom: i32 = top + #[verifier::truncate] (placement.height as i32);
    ((left, top), (right, bottom))
}

/// Computes [`placed_rect`] where every step of it stays within 32 bit signed
/// values, and nothing else.
pub fn try_place_on_baseline(pos: (i32, i32), baseline: i32, placement: &Placement) -> (r: Option<
    PixelRect,
>)
    ensures
        r is Some <==> placement_fits(pos, baseline, *placement),
        r matches Some(rect) ==> {
            &&& rect.0.0 == placed_rect(pos, baseline, *placement).0.0
            &&& rect.0.1 == placed_rect(pos, baseline, *placement).0.1
            &&& rect.1.0 == placed_rect(pos, baseline, *placement).1.0
            &&& rect.1.1 == placed_rect(pos, baseline, *placement).1.1
        },
{
    let width: i32 = #[verifier::truncate] (placement.width as i32);
    let height: i32 = #[verifier::truncate] (placement.height as i32);
    let left: i64 = pos.0 as i64 + placement.left as i64;
    let lowered: i64 = pos.1 as i64 + baseline as i64;
    let top: i64 = lowered - placement.top as i64;
    let right: i64 = left + width as i64;
    let bottom: i64 = top + height as i64;
    if fits_i32(left) && fits_i32(lowered) && fits_i32(top) && fits_i32(right) && fits_i32(bottom) {
        Some(place_on_baseline(pos, baseline, placement))
    } else {
        None
    }
}

/// Whether a value is a 32 bit signed value.
fn fits_i32(value: i64) -> (r: bool)
    ensures
        r == (i32::MIN <= value <= i32::MAX),
{
    -0x8000_0000 <= value && value <= 0x7fff_ffff
}

impl<C> GlyphRun<C> {
    pub fn new(
        metrics: GlyphRunMetrics,
        text_color: C,
        text_weight: TextWeight,
        glyphs: Vec<RunGlyph>,
    ) -> (r: Self)
        ensures
            r.metrics == metrics,
            r.text_color == text_color,
            r.text_weight == text_weight,
            r.glyphs == glyphs,
    {
        Self { metrics, text_color, text_weight, glyphs }
    }

    /// The baseline of the run: its largest ascent, as a 32 bit signed value.
    pub open spec fn baseline(&self) -> i32 {
        self.metrics.max_ascent as i32
    }

    /// Translates the placement of a rasterized glyph to the coordinate
    /// system of the run, in which the baseline lies `max_ascent` below the
    /// top.
    pub fn place_glyph(&self, glyph: &RunGlyph, placement: &Placement) -> (r: PixelRect)
        requires
            placement_fits(glyph.hitbox_pos, self.baseline(), *placement),
        ensures
            r.0.0 == placed_rect(glyph.hitbox_pos, self.baseline(), *placement).0.0,
            r.0.1 == placed_rect(glyph.hitbox_pos, self.baseline(), *placement).0.1,
            r.1.0 == placed_rect(glyph.hitbox_pos, self.baseline(), *placement).1.0,
            r.1.1 == placed_rect(glyph.hitbox_pos, self.baseline(), *placement).1.1,
    {
        let max_ascent: u32 = self.metrics.max_ascent;
        place_on_baseline(glyph.hitbox_pos, #[verifier::truncate] (max_ascent as i32), placement)
    }
}

} // verus!
