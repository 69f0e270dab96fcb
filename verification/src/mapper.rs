//! Conversion of raw pointer coordinates into document space.
//!
//! The viewport transform is a pure affine map (integer zoom plus pan): a raw
//! screen coordinate `c` lands at `c * scale + pan` in document space. Under
//! the identity transform (`scale == 1`, zero pan) a point maps to itself.

use vstd::prelude::*;

verus! {

/// A point in document space.
#[derive(Clone, Copy, PartialEq, Eq, Structural, Debug)]
pub struct DocumentPoint {
    pub x: i64,
    pub y: i64,
}

/// The pan/zoom mapping between screen pixels and document coordinates,
/// supplied by the host each call; this core owns no viewport state.
#[derive(Clone, Copy, PartialEq, Eq, Structural, Debug)]
pub struct ViewportTransform {
    pub scale: u32,
    pub pan_x: i32,
    pub pan_y: i32,
}

impl ViewportTransform {
    /// The transform under which document space coincides with screen space.
    pub open spec fn is_identity(self) -> bool {
        self.scale == 1 && self.pan_x == 0 && self.pan_y == 0
    }

    /// Builds the identity transform.
    pub fn identity() -> (r: ViewportTransform)
        ensures
            r.is_identity(),
    {
        ViewportTransform { scale: 1, pan_x: 0, pan_y: 0 }
    }
}

/// Where one raw coordinate lands in document space.
pub open spec fn map_coord(c: int, scale: int, pan: int) -> int {
    c * scale + pan
}

/// The document-space image of a raw screen point under `t`.
pub open spec fn map_point(x: int, y: int, t: ViewportTransform) -> DocumentPoint {
    DocumentPoint {
        x: map_coord(x, t.scale as int, t.pan_x as int) as i64,
        y: map_coord(y, t.scale as int, t.pan_y as int) as i64,
    }
}

/// One coordinate of the affine map. The result always fits in an `i64`:
/// `|c| <= 2^31`, `scale < 2^32` and `|pan| <= 2^31` bound the magnitude by
/// `2^63`.
fn map_coord_exec(c: i32, scale: u32, pan: i32) -> (r: i64)
    ensures
        r == map_coord(c as int, scale as int, pan as int),
{
    proof {
        assert(i64::MIN <= (c as int) * (scale as int) + (pan as int) <= i64::MAX)
            by (nonlinear_arith)
            requires
                -0x8000_0000 <= c as int <= 0x7fff_ffff,
                0 <= scale as int <= 0xffff_ffff,
                -0x8000_0000 <= pan as int <= 0x7fff_ffff,
        ;
        assert(i64::MIN <= (c as int) * (scale as int) <= i64::MAX) by (nonlinear_arith)
            requires
                -0x8000_0000 <= c as int <= 0x7fff_ffff,
                0 <= scale as int <= 0xffff_ffff,
        ;
    }
    (c as i64) * (scale as i64) + (pan as i64)
}

/// Converts a raw pointer position into document space under the supplied
/// viewport transform. Pure: no state is read or written.
pub fn to_document_space(x: i32, y: i32, transform: &ViewportTransform) -> (p: DocumentPoint)
    ensures
        p == map_point(x as int, y as int, *transform),
        p.x == (x as int) * (transform.scale as int) + (transform.pan_x as int),
        p.y == (y as int) * (transform.scale as int) + (transform.pan_y as int),
{
    DocumentPoint {
        x: map_coord_exec(x, transform.scale, transform.pan_x),
        y: map_coord_exec(y, transform.scale, transform.pan_y),
    }
}

/// Under the identity viewport transform, `to_document_space` returns its
/// input coordinates unchanged.
pub proof fn lemma_identity_transform_exact(x: int, y: int, t: ViewportTransform)
    requires
        t.is_identity(),
        i64::MIN <= x <= i64::MAX,
        i64::MIN <= y <= i64::MAX,
    ensures
        map_point(x, y, t) == (DocumentPoint { x: x as i64, y: y as i64 }),
{
    assert(x * 1 == x) by (nonlinear_arith);
    assert(y * 1 == y) by (nonlinear_arith);
}

} // verus!
