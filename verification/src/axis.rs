//! The border of the plotted box and the labels of its three axes.

use vstd::prelude::*;
use crate::axis_vert::{axis_border, get_axis_border};
use crate::gl_wrap::DrawType;
use crate::plan::{BufferPlan, MatrixPlan, ProgramFiles, ScenePlan, VectorPlan};
use crate::plot::Bounds;
use crate::scene::{DrawInds, DrawPass};
use crate::text::{
    half, lemma_glyph_count_bound, FontMap, FontMapError, TextParams, DEFAULT_FONT, MAX_LABEL_LEN,
};
use crate::ticks::ONE_BITS;
use crate::vertices::{PosVert, TextVert};

verus! {

/// Distance of axis labels from the box: 0.15 of the plot's unit length.
pub const LABEL_MARGIN: i64 = 150;

/// Bit pattern of the 32-bit float -1.0.
pub const MINUS_ONE_BITS: u32 = 0xbf80_0000;

/// Why the axes could not be set up.
#[derive(Clone, Copy, Debug, PartialEq, Eq)]
pub enum AxisError {
    /// A label could not be laid out.
    Font(FontMapError),
}

/// The labels of the three axes and how they are set.
#[derive(Debug, PartialEq, Eq)]
pub struct AxisLabels {
    pub x: String,
    pub y: String,
    pub z: String,
    pub param: TextParams,
}

impl AxisLabels {
    /// "x axis", "y axis" and "z axis" in the default font at 14 pixels.
    pub fn new() -> (labels: Self)
        ensures
            labels.x@ == "x axis"@,
            labels.y@ == "y axis"@,
            labels.z@ == "z axis"@,
            labels.param.font@ == DEFAULT_FONT@,
            labels.param.size == 168,
            labels.param.kearning == 0,
            labels.fits(),
    {
        proof {
            reveal_strlit("x axis");
            reveal_strlit("y axis");
            reveal_strlit("z axis");
        }
        AxisLabels {
            x: "x axis".to_string(),
            y: "y axis".to_string(),
            z: "z axis".to_string(),
            param: TextParams { font: DEFAULT_FONT.to_string(), size: 168, kearning: 0 },
        }
    }

    /// No label is longer than a label can be.
    pub open spec fn fits(&self) -> bool {
        &&& self.x@.len() <= MAX_LABEL_LEN
        &&& self.y@.len() <= MAX_LABEL_LEN
        &&& self.z@.len() <= MAX_LABEL_LEN
    }

    /// Decides `fits`.
    pub fn check_fits(&self) -> (b: bool)
        ensures
            b == self.fits(),
    {
        self.x.as_str().unicode_len() <= MAX_LABEL_LEN && self.y.as_str().unicode_len()
            <= MAX_LABEL_LEN && self.z.as_str().unicode_len() <= MAX_LABEL_LEN
    }
}

/// Where a label is anchored, and the direction it reads in.
#[derive(Clone, Copy, Debug, PartialEq, Eq)]
pub struct LabelOrientation {
    pub pos: (i64, i64, i64),
    /// A direction of the plotted volume, as bit patterns of 32-bit floats.
    pub align: [u32; 4],
}

/// The orientations of the labels of the three axes.
#[derive(Clone, Copy, Debug, PartialEq, Eq)]
pub struct LabelOrientations {
    pub x: LabelOrientation,
    pub y: LabelOrientation,
    pub z: LabelOrientation,
}

/// Where the labels of the box are anchored: each beside the middle of its
/// axis, a label margin away from the box. Halves are rounded down.
pub open spec fn label_orientations(b: Bounds) -> LabelOrientations {
    LabelOrientations {
        x: LabelOrientation {
            pos: ((b.x as int / 2) as i64, 0i64, (b.z + LABEL_MARGIN) as i64),
            align: [ONE_BITS, 0u32, 0u32, ONE_BITS],
        },
        y: LabelOrientation {
            pos: ((b.x + LABEL_MARGIN) as i64, (b.y as int / 2) as i64, 0i64),
            align: [0u32, MINUS_ONE_BITS, 0u32, ONE_BITS],
        },
        z: LabelOrientation {
            pos: ((b.x + LABEL_MARGIN) as i64, 0i64, (b.z as int / 2) as i64),
            align: [0u32, 0u32, ONE_BITS, ONE_BITS],
        },
    }
}

/// The axes of a plot: the border of the box and a label for each axis.
#[derive(Debug, PartialEq, Eq)]
pub struct Axis {
    /// Colour of the border, as the bit patterns of four 32-bit floats.
    pub color: [u32; 4],
    pub labels: AxisLabels,
}

impl Axis {
    /// A white border with the default labels.
    pub fn new() -> (axis: Self)
        ensures
            axis.color[0] == ONE_BITS,
            axis.color[1] == ONE_BITS,
            axis.color[2] == ONE_BITS,
            axis.color[3] == ONE_BITS,
            axis.labels.x@ == "x axis"@,
            axis.labels.y@ == "y axis"@,
            axis.labels.z@ == "z axis"@,
            axis.labels.param.size == 168,
            axis.labels.param.kearning == 0,
            axis.labels.fits(),
    {
        Axis { color: [ONE_BITS, ONE_BITS, ONE_BITS, ONE_BITS], labels: AxisLabels::new() }
    }

    /// The border of the box.
    pub fn get_verts(b: &Bounds) -> (verts: Vec<PosVert>)
        ensures
            verts@ == axis_border(*b),
    {
        get_axis_border(b)
    }

    /// Where the labels of the box are anchored and how they read.
    pub fn get_label_orient(b: &Bounds) -> (orient: LabelOrientations)
        ensures
            orient == label_orientations(*b),
    {
        LabelOrientations {
            x: LabelOrientation {
                pos: (half(b.x as i64), 0, b.z as i64 + LABEL_MARGIN),
                align: [ONE_BITS, 0u32, 0u32, ONE_BITS],
            },
            y: LabelOrientation {
                pos: (b.x as i64 + LABEL_MARGIN, half(b.y as i64), 0),
                align: [0u32, MINUS_ONE_BITS, 0u32, ONE_BITS],
            },
            z: LabelOrientation {
                pos: (b.x as i64 + LABEL_MARGIN, 0, half(b.z as i64)),
                align: [0u32, 0u32, ONE_BITS, ONE_BITS],
            },
        }
    }

    /// The layout of the label of x.
    pub open spec fn x_text(&self, b: Bounds, font: &FontMap) -> Result<Seq<TextVert>, FontMapError> {
        font.try_layout(self.labels.x@, &self.labels.param, label_orientations(b).x.pos)
    }

    /// The layout of the label of y.
    pub open spec fn y_text(&self, b: Bounds, font: &FontMap) -> Result<Seq<TextVert>, FontMapError> {
        font.try_layout(self.labels.y@, &self.labels.param, label_orientations(b).y.pos)
    }

    /// The layout of the label of z.
    pub open spec fn z_text(&self, b: Bounds, font: &FontMap) -> Result<Seq<TextVert>, FontMapError> {
        font.try_layout(self.labels.z@, &self.labels.param, label_orientations(b).z.pos)
    }

    /// The error of the first label, in the order x, y, z, that cannot be
    /// laid out.
    pub open spec fn text_error(&self, b: Bounds, font: &FontMap) -> Option<FontMapError> {
        match self.x_text(b, font) {
            Err(e) => Some(e),
            Ok(_) => match self.y_text(b, font) {
                Err(e) => Some(e),
                Ok(_) => match self.z_text(b, font) {
                    Err(e) => Some(e),
                    Ok(_) => None,
                },
            },
        }
    }

    /// Whether `plan` is the plan of the axes' scene: one program that draws
    /// the border in the axes' colour, and one that draws the three labels
    /// from one buffer, each in a pass of its own with its own alignment.
    pub open spec fn planned(
        &self,
        plan: &ScenePlan,
        mvp: [u32; 16],
        scale: u32,
        b: Bounds,
        font: &FontMap,
    ) -> bool {
        let x = self.x_text(b, font)->Ok_0;
        let y = self.y_text(b, font)->Ok_0;
        let z = self.z_text(b, font)->Ok_0;
        let orient = label_orientations(b);
        &&& plan.programs@.len() == 2
        &&& plan.programs@[0].is("./shaders/solid_vert.glsl"@, "./shaders/solid_frag.glsl"@)
        &&& plan.programs@[1].is("./shaders/text_align_vert.glsl"@, "./shaders/text_frag.glsl"@)
        &&& plan.buffers@.len() == 2
        &&& plan.buffers@[0].holds_points(0, axis_border(b))
        &&& plan.buffers@[1].holds_text(1, x + y + z)
        &&& plan.textures@ =~= seq![font.spec_texture()]
        &&& plan.matrices@.len() == 2
        &&& plan.matrices@[0].is(0, "mvp"@, seq![mvp])
        &&& plan.matrices@[1].is(1, "mvp"@, seq![mvp])
        &&& plan.vectors@.len() == 3
        &&& plan.vectors@[0].is(0, "color"@, seq![self.color])
        &&& plan.vectors@[1].is(1, "scale"@, seq![[scale, 0u32, 0u32, 0u32]])
        &&& plan.vectors@[2].is(1, "alignment"@, seq![orient.x.align, orient.y.align, orient.z.align])
        &&& plan.passes@.len() == 4
        &&& plan.passes@[0].is(
            DrawType::Lines,
            0,
            12,
            0,
            0,
            None,
            seq![(0usize, 0usize)],
            seq![(0usize, 0usize)],
        )
        &&& plan.passes@[1].is(
            DrawType::Triangles,
            0,
            x.len() as int,
            1,
            1,
            Some(0usize),
            seq![(1usize, 0usize)],
            seq![(1usize, 0usize), (2usize, 0usize)],
        )
        &&& plan.passes@[2].is(
            DrawType::Triangles,
            x.len() as int,
            y.len() as int,
            1,
            1,
            Some(0usize),
            seq![(1usize, 0usize)],
            seq![(1usize, 0usize), (2usize, 1usize)],
        )
        &&& plan.passes@[3].is(
            DrawType::Triangles,
            (x.len() + y.len()) as int,
            z.len() as int,
            1,
            1,
            Some(0usize),
            seq![(1usize, 0usize)],
            seq![(1usize, 0usize), (2usize, 2usize)],
        )
    }

    /// Plans the scene of the axes: the border, then the labels of x, y
    /// and z.
    ///
    /// `mvp` is the matrix that takes the plotted volume to the screen and
    /// `scale` the factor from atlas to screen size for the labels, both as
    /// bit patterns of 32-bit floats. Fails if a label cannot be laid out.
    pub fn get_scene(&self, mvp: [u32; 16], scale: u32, bounds: &Bounds, font: &FontMap) -> (r:
        Result<ScenePlan, AxisError>)
        requires
            self.labels.fits(),
        ensures
            match self.text_error(*bounds, font) {
                None => r matches Ok(plan) && plan.well_indexed() && self.planned(
                    &plan,
                    mvp,
                    scale,
                    *bounds,
                    font,
                ),
                Some(e) => r matches Err(AxisError::Font(f)) && f == e,
            },
    {
        let line_verts = Axis::get_verts(bounds);
        let orient = Axis::get_label_orient(bounds);
        let mut text_verts: Vec<TextVert> = Vec::new();
        let mut x_verts = match font.get_verts(
            self.labels.x.as_str(),
            &self.labels.param,
            orient.x.pos,
        ) {
            Ok(verts) => verts,
            Err(e) => {
                return Err(AxisError::Font(e));
            },
        };
        proof {
            lemma_glyph_count_bound(self.labels.x@);
            lemma_glyph_count_bound(self.labels.y@);
            lemma_glyph_count_bound(self.labels.z@);
        }
        text_verts.append(&mut x_verts);
        let x_vlen = text_verts.len() as i32;
        let mut y_verts = match font.get_verts(
            self.labels.y.as_str(),
            &self.labels.param,
            orient.y.pos,
        ) {
            Ok(verts) => verts,
            Err(e) => {
                return Err(AxisError::Font(e));
            },
        };
        text_verts.append(&mut y_verts);
        let y_vlen = text_verts.len() as i32;
        let mut z_verts = match font.get_verts(
            self.labels.z.as_str(),
            &self.labels.param,
            orient.z.pos,
        ) {
            Ok(verts) => verts,
            Err(e) => {
                return Err(AxisError::Font(e));
            },
        };
        text_verts.append(&mut z_verts);
        let z_vlen = text_verts.len() as i32;
        let line_count = line_verts.len() as i32;
        let y_count = y_vlen - x_vlen;
        let z_count = z_vlen - y_vlen;

        let programs = vec![
            ProgramFiles { vertex: "./shaders/solid_vert.glsl", fragment: "./shaders/solid_frag.glsl" },
            ProgramFiles {
                vertex: "./shaders/text_align_vert.glsl",
                fragment: "./shaders/text_frag.glsl",
            },
        ];
        let buffers = vec![BufferPlan::points(0, line_verts), BufferPlan::text(1, text_verts)];
        let matrices = vec![
            MatrixPlan { program: 0, name: "mvp", values: vec![mvp] },
            MatrixPlan { program: 1, name: "mvp", values: vec![mvp] },
        ];
        let vectors = vec![
            VectorPlan { program: 0, name: "color", values: vec![self.color] },
            VectorPlan { program: 1, name: "scale", values: vec![[scale, 0u32, 0u32, 0u32]] },
            VectorPlan {
                program: 1,
                name: "alignment",
                values: vec![orient.x.align, orient.y.align, orient.z.align],
            },
        ];
        let passes = vec![
            DrawPass::new(
                DrawType::Lines,
                0,
                line_count,
                DrawInds {
                    program: 0,
                    vao: 0,
                    texture: None,
                    matrix: vec![(0usize, 0usize)],
                    vector: vec![(0usize, 0usize)],
                },
            ),
            DrawPass::new(
                DrawType::Triangles,
                0,
                x_vlen,
                DrawInds {
                    program: 1,
                    vao: 1,
                    texture: Some(0),
                    matrix: vec![(1usize, 0usize)],
                    vector: vec![(1usize, 0usize), (2usize, 0usize)],
                },
            ),
            DrawPass::new(
                DrawType::Triangles,
                x_vlen,
                y_count,
                DrawInds {
                    program: 1,
                    vao: 1,
                    texture: Some(0),
                    matrix: vec![(1usize, 0usize)],
                    vector: vec![(1usize, 0usize), (2usize, 1usize)],
                },
            ),
            DrawPass::new(
                DrawType::Triangles,
                y_vlen,
                z_count,
                DrawInds {
                    program: 1,
                    vao: 1,
                    texture: Some(0),
                    matrix: vec![(1usize, 0usize)],
                    vector: vec![(1usize, 0usize), (2usize, 2usize)],
                },
            ),
        ];
        Ok(
            ScenePlan {
                programs,
                buffers,
                textures: vec![font.texture()],
                matrices,
                vectors,
                passes,
            },
        )
    }
}

} // verus!
