//! Vertex records, as they are laid out in GPU buffers.
//!
//! Coordinates are exact integers. A point of the plotted volume is measured
//! in thousandths of the plot's unit length, a distance on the font atlas or
//! within a line of text in twelfths of a pixel.

use vstd::prelude::*;

verus! {

/// Units per unit length of the plotted volume.
pub const PLOT_UNIT: i32 = 1000;

/// Units per pixel of the font atlas.
pub const PIXEL: i32 = 12;

/// A point of the plotted volume.
#[derive(Clone, Copy, Debug, PartialEq, Eq)]
pub struct PosVert {
    pub position: (i64, i64, i64),
}

/// A corner of a glyph's quad: where it lies relative to the glyph's centre,
/// and the point of the atlas that is drawn there.
#[derive(Clone, Copy, Debug, PartialEq, Eq)]
pub struct BitmapVert {
    pub position: (i32, i32),
    pub texcoord: (i32, i32),
}

/// A corner of a glyph's quad within a label: the point of the plotted volume
/// the label is anchored to, the corner's displacement from the anchor on the
/// screen, and the point of the atlas that is drawn there.
#[derive(Clone, Copy, Debug, PartialEq, Eq)]
pub struct TextVert {
    pub position: (i64, i64, i64),
    /// Wide enough for a label of any length.
    pub offset: (i128, i128),
    pub texcoord: (i32, i32),
}

/// The point `(x, y, z)`.
pub open spec fn pos_vert(x: int, y: int, z: int) -> PosVert {
    PosVert { position: (x as i64, y as i64, z as i64) }
}

/// The corner `bmp` of a glyph in a label that is anchored at `position`.
pub open spec fn text_vert(bmp: BitmapVert, position: (i64, i64, i64)) -> TextVert {
    TextVert {
        position,
        offset: (bmp.position.0 as i128, bmp.position.1 as i128),
        texcoord: bmp.texcoord,
    }
}

/// Anchors a glyph corner at a point of the plotted volume.
pub fn bmp_to_text_vert(bmp: BitmapVert, position: (i64, i64, i64)) -> (vert: TextVert)
    ensures
        vert == text_vert(bmp, position),
{
    TextVert {
        position,
        offset: (bmp.position.0 as i128, bmp.position.1 as i128),
        texcoord: bmp.texcoord,
    }
}

} // verus!
