use vstd::prelude::*;
use crate::fixed::{ndc_axis, mul_sub_axis};

verus! {

/// Number of fixed-point units in 1.0 (2^40).
pub const FIXED_ONE: i64 = 1099511627776;

/// A position in physical pixels, relative to the surface's top-left corner.
#[derive(Clone, Copy, Debug, PartialEq, Eq, Structural)]
pub struct PixelPos {
    pub x: i32,
    pub y: i32,
}

/// Drawable dimensions of the surface in physical pixels.
#[derive(Clone, Copy, Debug, PartialEq, Eq, Structural)]
pub struct SurfaceSize {
    pub width: u32,
    pub height: u32,
}

/// A point or translation in scene space, in fixed-point units.
#[derive(Clone, Copy, Debug, PartialEq, Eq, Structural)]
pub struct SceneVec {
    pub x: i64,
    pub y: i64,
}

impl SurfaceSize {
    /// A surface with no area (e.g. a minimized window): no transform applies.
    pub open spec fn is_degenerate(self) -> bool {
        self.width == 0 || self.height == 0
    }
}

pub open spec fn fits_i64(v: int) -> bool {
    i64::MIN <= v <= i64::MAX
}

/// Normalized device coordinate of pixel `p` along an axis of `extent`
/// pixels: `floor(2 * p / extent * ONE) - ONE`, i.e. `p / extent * 2 - 1`.
pub open spec fn ndc_coord(p: int, extent: int) -> int {
    (2 * p * FIXED_ONE) / extent - FIXED_ONE
}

/// Fixed-point product, rounded down.
pub open spec fn fixed_mul(a: int, b: int) -> int {
    (a * b) / (FIXED_ONE as int)
}

/// Scene coordinate seen at pixel `p`: `ndc * zoom - offset`.
pub open spec fn scene_coord(p: int, zoom: int, offset: int, extent: int) -> int {
    fixed_mul(ndc_coord(p, extent), zoom) - offset
}

/// The offset coordinate that puts scene coordinate `anchor` under pixel `p`
/// at zoom `zoom`.
pub open spec fn anchored_offset_coord(anchor: int, p: int, zoom: int, extent: int) -> int {
    fixed_mul(ndc_coord(p, extent), zoom) - anchor
}

/// The scene point under `cursor`; none for a degenerate surface, or where
/// a coordinate does not fit the fixed-point range.
pub open spec fn scene_at(cursor: PixelPos, zoom: i64, offset: SceneVec, size: SurfaceSize) -> Option<SceneVec> {
    if size.is_degenerate() {
        None
    } else {
        let x = scene_coord(cursor.x as int, zoom as int, offset.x as int, size.width as int);
        let y = scene_coord(cursor.y as int, zoom as int, offset.y as int, size.height as int);
        if fits_i64(x) && fits_i64(y) {
            Some(SceneVec { x: x as i64, y: y as i64 })
        } else {
            None
        }
    }
}

/// The offset that keeps `anchor` under `cursor` at `new_zoom`; none for a
/// degenerate surface, or where a coordinate does not fit.
pub open spec fn anchored_offset(anchor: SceneVec, cursor: PixelPos, new_zoom: i64, size: SurfaceSize) -> Option<SceneVec> {
    if size.is_degenerate() {
        None
    } else {
        let x = anchored_offset_coord(anchor.x as int, cursor.x as int, new_zoom as int, size.width as int);
        let y = anchored_offset_coord(anchor.y as int, cursor.y as int, new_zoom as int, size.height as int);
        if fits_i64(x) && fits_i64(y) {
            Some(SceneVec { x: x as i64, y: y as i64 })
        } else {
            None
        }
    }
}

/// The scene point under `cursor` for the view `(zoom, offset)` on a surface
/// of `size`: `(cursor / size * 2 - 1) * zoom - offset` on each axis.
/// Returns `None` for a degenerate surface (nothing divides by zero) and
/// where a coordinate leaves the fixed-point range.
pub fn pixel_to_scene(cursor: PixelPos, zoom: i64, offset: SceneVec, size: SurfaceSize) -> (r: Option<SceneVec>)
    ensures
        r == scene_at(cursor, zoom, offset, size),
{
    if size.width == 0 || size.height == 0 {
        return None;
    }
    let x = mul_sub_axis(ndc_axis(cursor.x, size.width), zoom, offset.x);
    let y = mul_sub_axis(ndc_axis(cursor.y, size.height), zoom, offset.y);
    match (x, y) {
        (Some(x), Some(y)) => Some(SceneVec { x, y }),
        _ => None,
    }
}

/// The offset under which `pixel_to_scene(cursor, new_zoom, _, size)` gives
/// back `anchor`: the scene point stays under the cursor across a zoom
/// change. On each axis this is `ndc(cursor) * new_zoom - anchor`.
/// Returns `None` for a degenerate surface, and where a coordinate leaves the
/// fixed-point range; the caller then keeps its previous offset.
pub fn rebalance_offset_for_zoom(anchor: SceneVec, cursor: PixelPos, new_zoom: i64, size: SurfaceSize) -> (r: Option<SceneVec>)
    ensures
        r == anchored_offset(anchor, cursor, new_zoom, size),
{
    if size.width == 0 || size.height == 0 {
        return None;
    }
    let x = mul_sub_axis(ndc_axis(cursor.x, size.width), new_zoom, anchor.x);
    let y = mul_sub_axis(ndc_axis(cursor.y, size.height), new_zoom, anchor.y);
    match (x, y) {
        (Some(x), Some(y)) => Some(SceneVec { x, y }),
        _ => None,
    }
}

/// A scene point taken under the cursor stays under the cursor once the
/// offset is rebalanced for the new zoom: converting the same pixel under
/// the new zoom and the rebalanced offset gives back exactly that point.
pub proof fn lemma_anchor_invariance(cursor: PixelPos, zoom: i64, offset: SceneVec, new_zoom: i64, size: SurfaceSize)
    requires
        zoom > 0,
        new_zoom > 0,
        !size.is_degenerate(),
        scene_at(cursor, zoom, offset, size) is Some,
    ensures
        anchored_offset(scene_at(cursor, zoom, offset, size).unwrap(), cursor, new_zoom, size) matches Some(o)
            ==> scene_at(cursor, new_zoom, o, size) == scene_at(cursor, zoom, offset, size),
{
}

/// On a surface without area no scene point is computed and no offset is
/// produced, whatever the cursor, zoom, offset or anchor.
pub proof fn lemma_degenerate_surface(cursor: PixelPos, zoom: i64, offset: SceneVec, anchor: SceneVec, size: SurfaceSize)
    requires
        size.is_degenerate(),
    ensures
        scene_at(cursor, zoom, offset, size) is None,
        anchored_offset(anchor, cursor, zoom, size) is None,
{
}

} // verus!
