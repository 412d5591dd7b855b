//! Axis labels as a scene of their own, with a font that can be changed.

use vstd::prelude::*;
use crate::axis::MINUS_ONE_BITS;
use crate::font_map::FontMapper;
use crate::gl_wrap::{Drop, DrawType, GlCall};
use crate::plan::{BufferPlan, MatrixPlan, ProgramFiles, ScenePlan, VectorPlan};
use crate::plot::Bounds;
use crate::scene::{DrawInds, DrawPass};
use crate::text::{
    half, lemma_glyph_count_bound, FontMap, FontMapError, TextParams, DEFAULT_FONT, MAX_LABEL_LEN,
};
use crate::ticks::ONE_BITS;
use crate::vertices::TextVert;

verus! {

/// Distance of the labels from the box: a tenth of the plot's unit length.
pub const LABEL_MARGIN: i64 = 100;

/// Why the labels could not be set up.
#[derive(Clone, Copy, Debug, PartialEq, Eq)]
pub enum LabelError {
    /// A label holds a character that the atlas does not.
    Character(char),
}

/// The labels of the three axes.
#[derive(Debug, PartialEq, Eq)]
pub struct AxisLabels {
    pub x: String,
    pub y: String,
    pub z: String,
}

impl AxisLabels {
    /// Three empty labels.
    pub fn new() -> (labels: Self)
        ensures
            labels.x@.len() == 0,
            labels.y@.len() == 0,
            labels.z@.len() == 0,
    {
        AxisLabels { x: String::new(), y: String::new(), z: String::new() }
    }
}

/// How the labels are set.
#[derive(Clone, Copy, Debug, PartialEq, Eq, Structural)]
pub struct LabelParams {
    pub kearning: i32,
    pub font_size: i32,
}

impl LabelParams {
    /// No extra spacing, at 20 pixels.
    pub fn new() -> (params: Self)
        ensures
            params == (LabelParams { kearning: 0, font_size: 240 }),
    {
        LabelParams { kearning: 0, font_size: 240 }
    }
}

/// Where the three labels are anchored: each beside the middle of its axis,
/// a label margin away from the box. Halves are rounded down.
pub open spec fn label_anchors(b: Bounds) -> Seq<(i64, i64, i64)> {
    seq![
        ((b.x as int / 2) as i64, 0i64, (b.z + LABEL_MARGIN) as i64),
        ((b.x + LABEL_MARGIN) as i64, (b.y as int / 2) as i64, 0i64),
        ((b.x + LABEL_MARGIN) as i64, 0i64, (b.z as int / 2) as i64),
    ]
}

/// Draws the labels of the three axes.
pub struct LabelDrawer {
    pub font_mapper: FontMapper,
    pub font_map: FontMap,
    pub labels: AxisLabels,
    pub params: TextParams,
}

impl LabelDrawer {
    /// A drawer with empty labels that sets them in the glyphs of
    /// `font_map`, which `font_mapper` baked.
    pub fn new(font_mapper: FontMapper, font_map: FontMap) -> (drawer: Self)
        ensures
            drawer.font_mapper == font_mapper,
            drawer.font_map == font_map,
            drawer.labels.x@.len() == 0,
            drawer.labels.y@.len() == 0,
            drawer.labels.z@.len() == 0,
            drawer.params.size == 240,
            drawer.params.kearning == 0,
            drawer.params.font@ == DEFAULT_FONT@,
            drawer.fits(),
    {
        let params = LabelParams::new();
        LabelDrawer {
            font_mapper,
            font_map,
            labels: AxisLabels::new(),
            params: TextParams {
                font: DEFAULT_FONT.to_string(),
                size: params.font_size,
                kearning: params.kearning,
            },
        }
    }

    /// No label is longer than a label can be.
    pub open spec fn fits(&self) -> bool {
        &&& self.labels.x@.len() <= MAX_LABEL_LEN
        &&& self.labels.y@.len() <= MAX_LABEL_LEN
        &&& self.labels.z@.len() <= MAX_LABEL_LEN
    }

    /// Decides `fits`.
    pub fn check_fits(&self) -> (b: bool)
        ensures
            b == self.fits(),
    {
        self.labels.x.as_str().unicode_len() <= MAX_LABEL_LEN
            && self.labels.y.as_str().unicode_len() <= MAX_LABEL_LEN
            && self.labels.z.as_str().unicode_len() <= MAX_LABEL_LEN
    }

    /// Replaces the three labels.
    pub fn set_labels(&mut self, x: &str, y: &str, z: &str)
        ensures
            final(self).labels.x@ == x@,
            final(self).labels.y@ == y@,
            final(self).labels.z@ == z@,
            final(self).params == old(self).params,
            final(self).font_map == old(self).font_map,
            final(self).font_mapper == old(self).font_mapper,
    {
        self.labels.x = x.to_string();
        self.labels.y = y.to_string();
        self.labels.z = z.to_string();
    }

    /// Replaces the atlas by one that was baked from another font, and
    /// releases the texture of the old one.
    pub fn set_font_face(&mut self, font_map: FontMap, gpu: &mut Vec<GlCall>)
        ensures
            final(gpu)@ == old(gpu)@ + old(self).font_map.drop_calls(),
            final(self).font_map == font_map,
            final(self).labels == old(self).labels,
            final(self).params == old(self).params,
            final(self).font_mapper == old(self).font_mapper,
    {
        self.font_map.drop(gpu);
        self.font_map = font_map;
    }

    /// The layout of `label` about `position` in the drawer's font and
    /// parameters.
    pub fn get_label_verts(&self, label: &str, position: (i64, i64, i64)) -> (r: Result<
        Vec<TextVert>,
        LabelError,
    >)
        ensures
            match self.font_map.try_layout(label@, &self.params, position) {
                Ok(verts) => r is Ok && r->Ok_0@ == verts,
                Err(FontMapError::Character(c)) => r == Err::<Vec<TextVert>, LabelError>(
                    LabelError::Character(c),
                ),
            },
            r matches Ok(verts) ==> verts@.len() == 6 * crate::text::glyph_count(label@),
    {
        match self.font_map.get_verts(label, &self.params, position) {
            Ok(verts) => Ok(verts),
            Err(FontMapError::Character(c)) => Err(LabelError::Character(c)),
        }
    }

    /// The layout of the label of the axis `i`, counting x, y, z from 0.
    pub open spec fn text(&self, b: Bounds, i: int) -> Result<Seq<TextVert>, FontMapError> {
        let label = if i == 0 {
            self.labels.x@
        } else if i == 1 {
            self.labels.y@
        } else {
            self.labels.z@
        };
        self.font_map.try_layout(label, &self.params, label_anchors(b)[i])
    }

    /// The error of the first label, in the order x, y, z, that cannot be
    /// laid out.
    pub open spec fn text_error(&self, b: Bounds) -> Option<FontMapError> {
        match self.text(b, 0) {
            Err(e) => Some(e),
            Ok(_) => match self.text(b, 1) {
                Err(e) => Some(e),
                Ok(_) => match self.text(b, 2) {
                    Err(e) => Some(e),
                    Ok(_) => None,
                },
            },
        }
    }

    /// Whether `plan` is the plan of the labels' scene: one program that
    /// draws the three labels from one buffer, each in a pass of its own with
    /// a value of its own of the one alignment uniform.
    pub open spec fn planned(&self, plan: &ScenePlan, mvp: [u32; 16], b: Bounds) -> bool {
        let x = self.text(b, 0)->Ok_0;
        let y = self.text(b, 1)->Ok_0;
        let z = self.text(b, 2)->Ok_0;
        &&& plan.programs@.len() == 1
        &&& plan.programs@[0].is("./shaders/text_align_vert.glsl"@, "./shaders/text_frag.glsl"@)
        &&& plan.buffers@.len() == 1
        &&& plan.buffers@[0].holds_text(0, x + y + z)
        &&& plan.textures@ =~= seq![self.font_map.spec_texture()]
        &&& plan.matrices@.len() == 1
        &&& plan.matrices@[0].is(0, "mvp"@, seq![mvp])
        &&& plan.vectors@.len() == 1
        &&& plan.vectors@[0].is(
            0,
            "alignment"@,
            seq![
                [ONE_BITS, 0u32, 0u32, ONE_BITS],
                [0u32, MINUS_ONE_BITS, 0u32, ONE_BITS],
                [0u32, 0u32, ONE_BITS, ONE_BITS],
            ],
        )
        &&& plan.passes@.len() == 3
        &&& plan.passes@[0].is(
            DrawType::Triangles,
            0,
            x.len() as int,
            0,
            0,
            Some(0usize),
            seq![(0usize, 0usize)],
            seq![(0usize, 0usize)],
        )
        &&& plan.passes@[1].is(
            DrawType::Triangles,
            x.len() as int,
            y.len() as int,
            0,
            0,
            Some(0usize),
            seq![(0usize, 0usize)],
            seq![(0usize, 1usize)],
        )
        &&& plan.passes@[2].is(
            DrawType::Triangles,
            (x.len() + y.len()) as int,
            z.len() as int,
            0,
            0,
            Some(0usize),
            seq![(0usize, 0usize)],
            seq![(0usize, 2usize)],
        )
    }

    /// Plans the scene of the labels: those of x, y and z, in that order.
    ///
    /// `mvp` is the matrix that takes the plotted volume to the screen, as
    /// bit patterns of 32-bit floats. Fails if a label cannot be laid out.
    pub fn get_scene(&self, mvp: [u32; 16], bounds: &Bounds) -> (r: Result<ScenePlan, LabelError>)
        requires
            self.fits(),
        ensures
            match self.text_error(*bounds) {
                None => r matches Ok(plan) && plan.well_indexed() && self.planned(
                    &plan,
                    mvp,
                    *bounds,
                ),
                Some(FontMapError::Character(c)) => r matches Err(LabelError::Character(d)) && d
                    == c,
            },
    {
        let x_pos = (half(bounds.x as i64), 0i64, bounds.z as i64 + LABEL_MARGIN);
        let y_pos = (bounds.x as i64 + LABEL_MARGIN, half(bounds.y as i64), 0i64);
        let z_pos = (bounds.x as i64 + LABEL_MARGIN, 0i64, half(bounds.z as i64));
        proof {
            lemma_glyph_count_bound(self.labels.x@);
            lemma_glyph_count_bound(self.labels.y@);
            lemma_glyph_count_bound(self.labels.z@);
        }
        let mut vertices: Vec<TextVert> = Vec::new();
        let mut x_verts = match self.get_label_verts(self.labels.x.as_str(), x_pos) {
            Ok(verts) => verts,
            Err(e) => {
                return Err(e);
            },
        };
        vertices.append(&mut x_verts);
        let x_len = vertices.len() as i32;
        let mut y_verts = match self.get_label_verts(self.labels.y.as_str(), y_pos) {
            Ok(verts) => verts,
            Err(e) => {
                return Err(e);
            },
        };
        vertices.append(&mut y_verts);
        let y_len = vertices.len() as i32;
        let mut z_verts = match self.get_label_verts(self.labels.z.as_str(), z_pos) {
            Ok(verts) => verts,
            Err(e) => {
                return Err(e);
            },
        };
        vertices.append(&mut z_verts);
        let z_len = vertices.len() as i32;
        let y_count = y_len - x_len;
        let z_count = z_len - y_len;

        let programs = vec![
            ProgramFiles {
                vertex: "./shaders/text_align_vert.glsl",
                fragment: "./shaders/text_frag.glsl",
            },
        ];
        let buffers = vec![BufferPlan::text(0, vertices)];
        let matrices = vec![MatrixPlan { program: 0, name: "mvp", values: vec![mvp] }];
        let vectors = vec![
            VectorPlan {
                program: 0,
                name: "alignment",
                values: vec![
                    [ONE_BITS, 0u32, 0u32, ONE_BITS],
                    [0u32, MINUS_ONE_BITS, 0u32, ONE_BITS],
                    [0u32, 0u32, ONE_BITS, ONE_BITS],
                ],
            },
        ];
        let passes = vec![
            DrawPass::new(
                DrawType::Triangles,
                0,
                x_len,
                DrawInds {
                    program: 0,
                    vao: 0,
                    texture: Some(0),
                    matrix: vec![(0usize, 0usize)],
                    vector: vec![(0usize, 0usize)],
                },
            ),
            DrawPass::new(
                DrawType::Triangles,
                x_len,
                y_count,
                DrawInds {
                    program: 0,
                    vao: 0,
                    texture: Some(0),
                    matrix: vec![(0usize, 0usize)],
                    vector: vec![(0usize, 1usize)],
                },
            ),
            DrawPass::new(
                DrawType::Triangles,
                y_len,
                z_count,
                DrawInds {
                    program: 0,
                    vao: 0,
                    texture: Some(0),
                    matrix: vec![(0usize, 0usize)],
                    vector: vec![(0usize, 2usize)],
                },
            ),
        ];
        Ok(
            ScenePlan {
                programs,
                buffers,
                textures: vec![self.font_map.texture()],
                matrices,
                vectors,
                passes,
            },
        )
    }
}

} // verus!
