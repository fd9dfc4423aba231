//! The atlas texture owner: the one shared glyph-coverage texture. It tracks
//! the texture's dimensions and, as ghost state, which coverage byte each
//! texel holds, so that the draw protocol can state the invariant that the
//! texture always matches the layout engine's tracked atlas size. The actual
//! GPU object lives with the embedding, which mirrors every operation here
//! one for one.

use vstd::prelude::*;

verus! {

/// A sub-region of the atlas in atlas pixel coordinates, `min` inclusive and
/// `max` exclusive on each axis, as the layout engine reports regions to
/// repopulate.
#[derive(Clone, Copy, Debug, PartialEq, Eq, Structural)]
pub struct Region {
    pub min_x: u32,
    pub min_y: u32,
    pub max_x: u32,
    pub max_y: u32,
}

impl Region {
    /// Edges are ordered: the region is not inverted.
    pub open spec fn wf(self) -> bool {
        self.min_x <= self.max_x && self.min_y <= self.max_y
    }

    pub open spec fn width_spec(self) -> int {
        self.max_x - self.min_x
    }

    pub open spec fn height_spec(self) -> int {
        self.max_y - self.min_y
    }

    /// The number of coverage bytes a tightly packed, row-major upload for
    /// this region must hold.
    pub open spec fn byte_len(self) -> int {
        self.width_spec() * self.height_spec()
    }

    pub fn width(&self) -> (w: u32)
        requires
            self.wf(),
        ensures
            w == self.width_spec(),
    {
        self.max_x - self.min_x
    }

    pub fn height(&self) -> (h: u32)
        requires
            self.wf(),
        ensures
            h == self.height_spec(),
    {
        self.max_y - self.min_y
    }
}

/// A sub-image write as the graphics backend wants it: origin plus size
/// rather than two corners.
#[derive(Clone, Copy, Debug, PartialEq, Eq, Structural)]
pub struct UploadRect {
    pub left: u32,
    pub bottom: u32,
    pub width: u32,
    pub height: u32,
}

/// Translate a two-corner atlas region into the backend's origin-plus-size
/// rectangle.
pub fn rect_to_rect(region: &Region) -> (r: UploadRect)
    requires
        region.wf(),
    ensures
        r.left == region.min_x,
        r.bottom == region.min_y,
        r.width == region.width_spec(),
        r.height == region.height_spec(),
{
    UploadRect {
        left: region.min_x,
        bottom: region.min_y,
        width: region.max_x - region.min_x,
        height: region.max_y - region.min_y,
    }
}

/// The coverage bytes an upload writes, as a map from texel coordinates to
/// the byte each one receives: `bytes` is row-major and tightly packed over
/// the region.
pub open spec fn upload_map(region: Region, bytes: Seq<u8>) -> Map<(int, int), u8> {
    Map::new(
        |p: (int, int)|
            region.min_x <= p.0 < region.max_x && region.min_y <= p.1 < region.max_y,
        |p: (int, int)| bytes[(p.1 - region.min_y) * region.width_spec() + (p.0 - region.min_x)],
    )
}

/// The atlas texture owner. `width` and `height` are the texture's current
/// dimensions; `texels` is the ghost record of the coverage byte last written
/// to each texel (absent where nothing has been written since the last
/// reallocation).
pub struct AtlasTexture {
    pub width: u32,
    pub height: u32,
    pub texels: Ghost<Map<(int, int), u8>>,
}

impl AtlasTexture {
    /// Every recorded texel lies inside the texture.
    pub open spec fn wf(self) -> bool {
        forall|p: (int, int)| #[trigger]
            self.texels@.dom().contains(p) ==> 0 <= p.0 < self.width && 0 <= p.1 < self.height
    }

    /// Allocate a fresh, empty texture of the given size.
    pub fn new(width: u32, height: u32) -> (t: Self)
        ensures
            t.wf(),
            t.width == width,
            t.height == height,
            t.texels@ == Map::<(int, int), u8>::empty(),
    {
        AtlasTexture { width, height, texels: Ghost(Map::empty()) }
    }

    pub fn dimensions(&self) -> (d: (u32, u32))
        ensures
            d.0 == self.width,
            d.1 == self.height,
    {
        (self.width, self.height)
    }

    /// Discard the texture and allocate a new empty one of the given size:
    /// the reported dimensions become exactly `(width, height)` and all
    /// previously uploaded coverage data is lost.
    pub fn reallocate(&mut self, width: u32, height: u32)
        ensures
            final(self).wf(),
            final(self).width == width,
            final(self).height == height,
            final(self).texels@ == Map::<(int, int), u8>::empty(),
    {
        self.width = width;
        self.height = height;
        self.texels = Ghost(Map::empty());
    }

    /// Record a tightly packed, row-major coverage write into `region` and
    /// hand back the backend-shaped rectangle for the matching GPU write.
    /// Texels inside the region take their byte from `bytes`; every other
    /// texel keeps its previous state.
    pub fn upload(&mut self, region: &Region, bytes: &[u8]) -> (r: UploadRect)
        requires
            old(self).wf(),
            region.wf(),
            region.max_x <= old(self).width,
            region.max_y <= old(self).height,
            bytes@.len() == region.byte_len(),
        ensures
            final(self).wf(),
            final(self).width == old(self).width,
            final(self).height == old(self).height,
            final(self).texels@ == old(self).texels@.union_prefer_right(
                upload_map(*region, bytes@),
            ),
            r.left == region.min_x,
            r.bottom == region.min_y,
            r.width == region.width_spec(),
            r.height == region.height_spec(),
    {
        let r = rect_to_rect(region);
        proof {
            assert forall|p: (int, int)| #[trigger]
                old(self).texels@.union_prefer_right(upload_map(*region, bytes@)).dom().contains(
                    p,
                ) implies 0 <= p.0 < old(self).width && 0 <= p.1 < old(self).height by {
                if !old(self).texels@.dom().contains(p) {
                    assert(upload_map(*region, bytes@).dom().contains(p));
                }
            }
        }
        self.texels = Ghost(self.texels@.union_prefer_right(upload_map(*region, bytes@)));
        r
    }
}

} // verus!
