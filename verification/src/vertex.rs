//! The vertex adapter: converts one positioned-glyph record (pixel rectangle,
//! texture rectangle, clip bounds, color, depth) into the fixed-layout vertex
//! that drives one instance of the renderer's quad.
//!
//! Coordinates are fixed-point values: the embedding scales the layout
//! engine's pixel and texture coordinates by a constant before handing a
//! record in, so every quantity here is a plain integer and the clamp
//! arithmetic below is exact.

use vstd::arithmetic::div_mod::{
    lemma_div_is_ordered, lemma_div_multiples_vanish, lemma_div_pos_is_pos,
    lemma_fundamental_div_mod, lemma_mod_bound,
};
use vstd::arithmetic::mul::{
    lemma_mul_inequality, lemma_mul_is_commutative, lemma_mul_nonnegative, lemma_mul_upper_bound,
};
use vstd::prelude::*;

verus! {

/// Magnitude bound on every incoming coordinate, chosen so that the products
/// in the proportional-clamp arithmetic fit in 64 bits.
pub const COORD_LIMIT: i64 = 0x4000_0000;

/// An axis-aligned rectangle in fixed-point units.
#[derive(Clone, Copy, Debug, PartialEq, Eq, Structural)]
pub struct Rect {
    pub min_x: i64,
    pub min_y: i64,
    pub max_x: i64,
    pub max_y: i64,
}

impl Rect {
    /// Edges are ordered: the rectangle is not inverted.
    pub open spec fn ordered(self) -> bool {
        self.min_x <= self.max_x && self.min_y <= self.max_y
    }

    /// Every coordinate is within the magnitude bound.
    pub open spec fn in_range(self) -> bool {
        &&& -COORD_LIMIT <= self.min_x <= COORD_LIMIT
        &&& -COORD_LIMIT <= self.min_y <= COORD_LIMIT
        &&& -COORD_LIMIT <= self.max_x <= COORD_LIMIT
        &&& -COORD_LIMIT <= self.max_y <= COORD_LIMIT
    }

    pub open spec fn wf(self) -> bool {
        self.ordered() && self.in_range()
    }

    pub open spec fn width(self) -> int {
        self.max_x - self.min_x
    }

    pub open spec fn height(self) -> int {
        self.max_y - self.min_y
    }
}

/// The pixel rectangle touches the clip bounds: clamping it cannot invert it.
pub open spec fn overlaps(pixel: Rect, bounds: Rect) -> bool {
    &&& pixel.min_x <= bounds.max_x
    &&& pixel.max_x >= bounds.min_x
    &&& pixel.min_y <= bounds.max_y
    &&& pixel.max_y >= bounds.min_y
}

/// The pixel rectangle lies fully inside the clip bounds: no edge is clamped.
pub open spec fn inside(pixel: Rect, bounds: Rect) -> bool {
    &&& bounds.min_x <= pixel.min_x
    &&& pixel.max_x <= bounds.max_x
    &&& bounds.min_y <= pixel.min_y
    &&& pixel.max_y <= bounds.max_y
}

/// Text color, one fixed-point channel per component.
#[derive(Clone, Copy, Debug, PartialEq, Eq, Structural)]
pub struct Color {
    pub r: u16,
    pub g: u16,
    pub b: u16,
    pub a: u16,
}

/// One positioned glyph as the layout engine reports it: where it renders on
/// screen, where its bitmap sits in the atlas, the bounds it must be cropped
/// to, and its color and depth.
#[derive(Clone, Copy, Debug, PartialEq, Eq, Structural)]
pub struct GlyphVertex {
    pub tex_coords: Rect,
    pub pixel_coords: Rect,
    pub bounds: Rect,
    pub color: Color,
    pub z: i64,
}

impl GlyphVertex {
    pub open spec fn wf(self) -> bool {
        self.tex_coords.wf() && self.pixel_coords.wf() && self.bounds.wf()
    }
}

/// The GPU-facing vertex: one per glyph instance. Note the Y flip: the
/// screen's Y axis grows downward, so the "top" of the quad carries the pixel
/// rectangle's `max_y` and the texture rectangle follows the same convention.
#[derive(Clone, Copy, Debug, PartialEq, Eq, Structural)]
pub struct RendererVertex {
    pub left_top_x: i64,
    pub left_top_y: i64,
    pub left_top_z: i64,
    pub right_bottom_x: i64,
    pub right_bottom_y: i64,
    pub tex_left_top_x: i64,
    pub tex_left_top_y: i64,
    pub tex_right_bottom_x: i64,
    pub tex_right_bottom_y: i64,
    pub color: Color,
}

/// Clamp the high edge of one axis. If the pixel interval's high edge exceeds
/// the bound, pull it back and shrink the texture interval's high edge in the
/// same proportion (rounding the quotient down). Returns the new
/// `(pixel_high, tex_high)`.
pub open spec fn clamp_high(p_min: int, p_max: int, t_min: int, t_max: int, b_max: int) -> (
    int,
    int,
) {
    if p_max > b_max {
        ((b_max), (t_min + (t_max - t_min) * (b_max - p_min) / (p_max - p_min)))
    } else {
        ((p_max), (t_max))
    }
}

/// Clamp the low edge of one axis, after the high edge has been handled;
/// symmetric to [`clamp_high`], anchored at the texture interval's high edge.
/// Returns the new `(pixel_low, tex_low)`.
pub open spec fn clamp_low(p_min: int, p_max: int, t_min: int, t_max: int, b_min: int) -> (
    int,
    int,
) {
    if p_min < b_min {
        ((b_min), (t_max - (t_max - t_min) * (p_max - b_min) / (p_max - p_min)))
    } else {
        ((p_min), (t_min))
    }
}

/// One axis of the cropping step: clamp the high edge, then the low edge
/// against the already-clamped interval, exactly in that order. Returns
/// `(pixel_low, pixel_high, tex_low, tex_high)`.
pub open spec fn clamp_axis(
    p_min: int,
    p_max: int,
    t_min: int,
    t_max: int,
    b_min: int,
    b_max: int,
) -> (int, int, int, int) {
    let (p_max1, t_max1) = clamp_high(p_min, p_max, t_min, t_max, b_max);
    let (p_min2, t_min2) = clamp_low(p_min, p_max1, t_min, t_max1, b_min);
    (p_min2, p_max1, t_min2, t_max1)
}

/// The proportional quotient `t_w * n_w / o_w` is a texture width again: it
/// lies between `0` and `t_w`, and it is the rounded-down exact proportion.
proof fn lemma_quotient_facts(t_w: int, n_w: int, o_w: int)
    requires
        0 <= t_w,
        0 <= n_w <= o_w,
        0 < o_w,
    ensures
        0 <= t_w * n_w / o_w <= t_w,
        (t_w * n_w / o_w) * o_w <= t_w * n_w < (t_w * n_w / o_w + 1) * o_w,
{
    let q = t_w * n_w / o_w;
    lemma_mul_nonnegative(t_w, n_w);
    lemma_div_pos_is_pos(t_w * n_w, o_w);
    lemma_mul_inequality(n_w, o_w, t_w);
    lemma_mul_is_commutative(n_w, t_w);
    lemma_mul_is_commutative(o_w, t_w);
    lemma_div_is_ordered(t_w * n_w, t_w * o_w, o_w);
    lemma_mul_is_commutative(t_w, o_w);
    lemma_div_multiples_vanish(t_w, o_w);
    lemma_fundamental_div_mod(t_w * n_w, o_w);
    lemma_mod_bound(t_w * n_w, o_w);
    assert(q * o_w == o_w * q) by (nonlinear_arith);
    assert((q + 1) * o_w == o_w * q + o_w) by (nonlinear_arith);
}

/// Executable form of [`clamp_axis`] for one axis of a glyph quad.
fn crop_axis(p_min: i64, p_max: i64, t_min: i64, t_max: i64, b_min: i64, b_max: i64) -> (r: (
    i64,
    i64,
    i64,
    i64,
))
    requires
        p_min <= p_max,
        t_min <= t_max,
        b_min <= b_max,
        p_min <= b_max,
        p_max >= b_min,
        -COORD_LIMIT <= p_min <= COORD_LIMIT,
        -COORD_LIMIT <= p_max <= COORD_LIMIT,
        -COORD_LIMIT <= t_min <= COORD_LIMIT,
        -COORD_LIMIT <= t_max <= COORD_LIMIT,
        -COORD_LIMIT <= b_min <= COORD_LIMIT,
        -COORD_LIMIT <= b_max <= COORD_LIMIT,
    ensures
        (r.0 as int, r.1 as int, r.2 as int, r.3 as int) == clamp_axis(
            p_min as int,
            p_max as int,
            t_min as int,
            t_max as int,
            b_min as int,
            b_max as int,
        ),
        p_min <= r.0 <= r.1 <= p_max,
        t_min <= r.2 <= r.3 <= t_max,
{
    let mut p_max1: i64 = p_max;
    let mut t_max1: i64 = t_max;
    if p_max > b_max {
        let o_w: i64 = p_max - p_min;
        let n_w: i64 = b_max - p_min;
        let t_w: i64 = t_max - t_min;
        proof {
            lemma_quotient_facts(t_w as int, n_w as int, o_w as int);
            lemma_mul_upper_bound(t_w as int, 2 * COORD_LIMIT as int, n_w as int, 2 * COORD_LIMIT as int);
        }
        let q: i64 = ((t_w as u64) * (n_w as u64) / (o_w as u64)) as i64;
        p_max1 = b_max;
        t_max1 = t_min + q;
    }
    let mut p_min2: i64 = p_min;
    let mut t_min2: i64 = t_min;
    if p_min < b_min {
        let o_w: i64 = p_max1 - p_min;
        let n_w: i64 = p_max1 - b_min;
        let t_w: i64 = t_max1 - t_min;
        proof {
            lemma_quotient_facts(t_w as int, n_w as int, o_w as int);
            lemma_mul_upper_bound(t_w as int, 2 * COORD_LIMIT as int, n_w as int, 2 * COORD_LIMIT as int);
        }
        let q: i64 = ((t_w as u64) * (n_w as u64) / (o_w as u64)) as i64;
        p_min2 = b_min;
        t_min2 = t_max1 - q;
    }
    (p_min2, p_max1, t_min2, t_max1)
}

/// The X-axis crop of a glyph record, as `(pixel_min, pixel_max, tex_min,
/// tex_max)`.
pub open spec fn clamp_x(g: GlyphVertex) -> (int, int, int, int) {
    clamp_axis(
        g.pixel_coords.min_x as int,
        g.pixel_coords.max_x as int,
        g.tex_coords.min_x as int,
        g.tex_coords.max_x as int,
        g.bounds.min_x as int,
        g.bounds.max_x as int,
    )
}

/// The Y-axis crop of a glyph record, as `(pixel_min, pixel_max, tex_min,
/// tex_max)`.
pub open spec fn clamp_y(g: GlyphVertex) -> (int, int, int, int) {
    clamp_axis(
        g.pixel_coords.min_y as int,
        g.pixel_coords.max_y as int,
        g.tex_coords.min_y as int,
        g.tex_coords.max_y as int,
        g.bounds.min_y as int,
        g.bounds.max_y as int,
    )
}

/// `v` is the vertex the adapter owes for the glyph record `g`: each axis is
/// cropped by [`clamp_axis`] and the fields are arranged with the Y flip,
/// color and depth passed through.
pub open spec fn adapted(g: GlyphVertex, v: RendererVertex) -> bool {
    let cx = clamp_x(g);
    let cy = clamp_y(g);
    &&& v.left_top_x == cx.0
    &&& v.right_bottom_x == cx.1
    &&& v.tex_left_top_x == cx.2
    &&& v.tex_right_bottom_x == cx.3
    &&& v.right_bottom_y == cy.0
    &&& v.left_top_y == cy.1
    &&& v.tex_right_bottom_y == cy.2
    &&& v.tex_left_top_y == cy.3
    &&& v.left_top_z == g.z
    &&& v.color == g.color
}

/// The vertex adapter: produce the one renderer vertex for a positioned
/// glyph, cropping each of the four edges independently against the clip
/// bounds and shrinking the texture rectangle in proportion, or nothing if
/// the glyph lies fully outside the bounds.
pub fn to_vertex(g: &GlyphVertex) -> (r: Option<RendererVertex>)
    requires
        g.wf(),
    ensures
        r is Some <==> overlaps(g.pixel_coords, g.bounds),
        r matches Some(v) ==> adapted(*g, v),
        r matches Some(v) ==> {
            &&& g.pixel_coords.min_x <= v.left_top_x <= v.right_bottom_x <= g.pixel_coords.max_x
            &&& g.pixel_coords.min_y <= v.right_bottom_y <= v.left_top_y <= g.pixel_coords.max_y
            &&& g.tex_coords.min_x <= v.tex_left_top_x <= v.tex_right_bottom_x
                <= g.tex_coords.max_x
            &&& g.tex_coords.min_y <= v.tex_right_bottom_y <= v.tex_left_top_y
                <= g.tex_coords.max_y
        },
{
    let p = &g.pixel_coords;
    let b = &g.bounds;
    if p.min_x > b.max_x || p.max_x < b.min_x || p.min_y > b.max_y || p.max_y < b.min_y {
        return None;
    }
    let cx = crop_axis(p.min_x, p.max_x, g.tex_coords.min_x, g.tex_coords.max_x, b.min_x, b.max_x);
    let cy = crop_axis(p.min_y, p.max_y, g.tex_coords.min_y, g.tex_coords.max_y, b.min_y, b.max_y);
    Some(
        RendererVertex {
            left_top_x: cx.0,
            left_top_y: cy.1,
            left_top_z: g.z,
            right_bottom_x: cx.1,
            right_bottom_y: cy.0,
            tex_left_top_x: cx.2,
            tex_left_top_y: cy.3,
            tex_right_bottom_x: cx.3,
            tex_right_bottom_y: cy.2,
            color: g.color,
        },
    )
}

/// A glyph whose pixel rectangle lies fully inside the clip bounds is passed
/// through unchanged: no edge of the pixel rectangle moves and the texture
/// rectangle keeps both edges on each axis.
pub proof fn lemma_inside_identity(g: GlyphVertex)
    requires
        g.wf(),
        inside(g.pixel_coords, g.bounds),
    ensures
        clamp_x(g) == (
            g.pixel_coords.min_x as int,
            g.pixel_coords.max_x as int,
            g.tex_coords.min_x as int,
            g.tex_coords.max_x as int,
        ),
        clamp_y(g) == (
            g.pixel_coords.min_y as int,
            g.pixel_coords.max_y as int,
            g.tex_coords.min_y as int,
            g.tex_coords.max_y as int,
        ),
{
}

/// A glyph that exceeds the clip bounds on the right edge alone has exactly
/// that pixel edge clamped to the bound, and the texture rectangle's right
/// edge shrinks in the same proportion: the new texture width over the new
/// pixel width equals the old ratio, up to the rounding of one integer
/// division (the two products below bracket it within one pixel width).
pub proof fn lemma_clip_right_proportional(g: GlyphVertex)
    requires
        g.wf(),
        g.bounds.min_x <= g.pixel_coords.min_x <= g.bounds.max_x,
        g.pixel_coords.max_x > g.bounds.max_x,
        g.bounds.min_y <= g.pixel_coords.min_y,
        g.pixel_coords.max_y <= g.bounds.max_y,
    ensures
        ({
            let cx = clamp_x(g);
            &&& cx.0 == g.pixel_coords.min_x
            &&& cx.1 == g.bounds.max_x
            &&& cx.2 == g.tex_coords.min_x
            &&& g.tex_coords.min_x <= cx.3 <= g.tex_coords.max_x
            &&& (cx.3 - g.tex_coords.min_x) * g.pixel_coords.width() <= g.tex_coords.width() * (
            g.bounds.max_x - g.pixel_coords.min_x)
            &&& g.tex_coords.width() * (g.bounds.max_x - g.pixel_coords.min_x) < (cx.3
                - g.tex_coords.min_x + 1) * g.pixel_coords.width()
        }),
        clamp_y(g) == (
            g.pixel_coords.min_y as int,
            g.pixel_coords.max_y as int,
            g.tex_coords.min_y as int,
            g.tex_coords.max_y as int,
        ),
{
    lemma_quotient_facts(
        g.tex_coords.width(),
        g.bounds.max_x - g.pixel_coords.min_x,
        g.pixel_coords.width(),
    );
}

/// A glyph that exceeds the clip bounds on the left edge alone has exactly
/// that pixel edge clamped, and the texture rectangle's left edge shrinks in
/// the same proportion, anchored at its right edge.
pub proof fn lemma_clip_left_proportional(g: GlyphVertex)
    requires
        g.wf(),
        g.pixel_coords.min_x < g.bounds.min_x,
        g.bounds.min_x <= g.pixel_coords.max_x <= g.bounds.max_x,
        g.bounds.min_y <= g.pixel_coords.min_y,
        g.pixel_coords.max_y <= g.bounds.max_y,
    ensures
        ({
            let cx = clamp_x(g);
            &&& cx.0 == g.bounds.min_x
            &&& cx.1 == g.pixel_coords.max_x
            &&& cx.3 == g.tex_coords.max_x
            &&& g.tex_coords.min_x <= cx.2 <= g.tex_coords.max_x
            &&& (g.tex_coords.max_x - cx.2) * g.pixel_coords.width() <= g.tex_coords.width() * (
            g.pixel_coords.max_x - g.bounds.min_x)
            &&& g.tex_coords.width() * (g.pixel_coords.max_x - g.bounds.min_x) < (g.tex_coords.max_x
                - cx.2 + 1) * g.pixel_coords.width()
        }),
        clamp_y(g) == (
            g.pixel_coords.min_y as int,
            g.pixel_coords.max_y as int,
            g.tex_coords.min_y as int,
            g.tex_coords.max_y as int,
        ),
{
    lemma_quotient_facts(
        g.tex_coords.width(),
        g.pixel_coords.max_x - g.bounds.min_x,
        g.pixel_coords.width(),
    );
}

/// A glyph that exceeds the clip bounds on the lower screen edge alone
/// (`max_y`, since screen Y grows downward) has exactly that pixel edge
/// clamped, and the texture rectangle's corresponding edge shrinks in the
/// same proportion.
pub proof fn lemma_clip_bottom_proportional(g: GlyphVertex)
    requires
        g.wf(),
        g.bounds.min_y <= g.pixel_coords.min_y <= g.bounds.max_y,
        g.pixel_coords.max_y > g.bounds.max_y,
        g.bounds.min_x <= g.pixel_coords.min_x,
        g.pixel_coords.max_x <= g.bounds.max_x,
    ensures
        ({
            let cy = clamp_y(g);
            &&& cy.0 == g.pixel_coords.min_y
            &&& cy.1 == g.bounds.max_y
            &&& cy.2 == g.tex_coords.min_y
            &&& g.tex_coords.min_y <= cy.3 <= g.tex_coords.max_y
            &&& (cy.3 - g.tex_coords.min_y) * g.pixel_coords.height() <= g.tex_coords.height() * (
            g.bounds.max_y - g.pixel_coords.min_y)
            &&& g.tex_coords.height() * (g.bounds.max_y - g.pixel_coords.min_y) < (cy.3
                - g.tex_coords.min_y + 1) * g.pixel_coords.height()
        }),
        clamp_x(g) == (
            g.pixel_coords.min_x as int,
            g.pixel_coords.max_x as int,
            g.tex_coords.min_x as int,
            g.tex_coords.max_x as int,
        ),
{
    lemma_quotient_facts(
        g.tex_coords.height(),
        g.bounds.max_y - g.pixel_coords.min_y,
        g.pixel_coords.height(),
    );
}

/// A glyph that exceeds the clip bounds on the upper screen edge alone
/// (`min_y`) has exactly that pixel edge clamped, and the texture
/// rectangle's corresponding edge shrinks in the same proportion, anchored
/// at the other edge.
pub proof fn lemma_clip_top_proportional(g: GlyphVertex)
    requires
        g.wf(),
        g.pixel_coords.min_y < g.bounds.min_y,
        g.bounds.min_y <= g.pixel_coords.max_y <= g.bounds.max_y,
        g.bounds.min_x <= g.pixel_coords.min_x,
        g.pixel_coords.max_x <= g.bounds.max_x,
    ensures
        ({
            let cy = clamp_y(g);
            &&& cy.0 == g.bounds.min_y
            &&& cy.1 == g.pixel_coords.max_y
            &&& cy.3 == g.tex_coords.max_y
            &&& g.tex_coords.min_y <= cy.2 <= g.tex_coords.max_y
            &&& (g.tex_coords.max_y - cy.2) * g.pixel_coords.height() <= g.tex_coords.height() * (
            g.pixel_coords.max_y - g.bounds.min_y)
            &&& g.tex_coords.height() * (g.pixel_coords.max_y - g.bounds.min_y) < (g.tex_coords.max_y
                - cy.2 + 1) * g.pixel_coords.height()
        }),
        clamp_x(g) == (
            g.pixel_coords.min_x as int,
            g.pixel_coords.max_x as int,
            g.tex_coords.min_x as int,
            g.tex_coords.max_x as int,
        ),
{
    lemma_quotient_facts(
        g.tex_coords.height(),
        g.pixel_coords.max_y - g.bounds.min_y,
        g.pixel_coords.height(),
    );
}

} // verus!

