//! Tick marks, grid lines and their labels.

use vstd::prelude::*;
use crate::axis_vert::{
    blank, extent, get_blank, get_mark_position, get_marks, get_marks_along, get_spacing,
    lemma_marks_bound, line_count, mark_len, mark_position, marks, spacing, Direction, Spacing,
};
use crate::gl_wrap::DrawType;
use crate::plan::{BufferPlan, MatrixPlan, ProgramFiles, ScenePlan, VectorPlan};
use crate::plot::Bounds;
use crate::scene::{DrawInds, DrawPass};
use crate::text::{FontMap, FontMapError, TextParams};
use crate::vertices::{PosVert, TextVert};

verus! {

/// Distance of tick labels from the box: a tenth of the plot's unit length.
pub const LABEL_MARGIN: i64 = 100;

/// Bit pattern of the 32-bit float 0.5.
pub const HALF_BITS: u32 = 0x3f00_0000;

/// Bit pattern of the 32-bit float 1.0.
pub const ONE_BITS: u32 = 0x3f80_0000;

/// Why the ticks could not be set up.
#[derive(Clone, Copy, Debug, PartialEq, Eq)]
pub enum TicksError {
    /// A tick label could not be laid out.
    FontMap(FontMapError),
}

/// The decimal digit `d`.
pub open spec fn digit(d: int) -> char {
    if d == 0 {
        '0'
    } else if d == 1 {
        '1'
    } else if d == 2 {
        '2'
    } else if d == 3 {
        '3'
    } else if d == 4 {
        '4'
    } else if d == 5 {
        '5'
    } else if d == 6 {
        '6'
    } else if d == 7 {
        '7'
    } else if d == 8 {
        '8'
    } else {
        '9'
    }
}

/// `n` in decimal digits, without leading zeros.
pub open spec fn decimal(n: nat) -> Seq<char>
    decreases n,
{
    if n < 10 {
        seq![digit(n as int)]
    } else {
        decimal(n / 10).push(digit(n as int % 10))
    }
}

/// The position `v`, given in thousandths, in tenths: rounded to the nearest
/// tenth, halves up.
pub open spec fn tenths(v: int) -> int {
    (v + 50) / 100
}

/// The label of the tick at `v`: its position with one decimal place.
pub open spec fn tick_label(v: int) -> Seq<char> {
    decimal((tenths(v) / 10) as nat) + seq!['.', digit(tenths(v) % 10)]
}

/// Where the label of the tick at distance `t` along `dir` is anchored:
/// beside the tick, a label margin away from the box.
pub open spec fn label_anchor(b: Bounds, dir: Direction, t: int) -> (i64, i64, i64) {
    match dir {
        Direction::X => (t as i64, 0i64, (b.z + LABEL_MARGIN) as i64),
        Direction::Y => ((b.x + LABEL_MARGIN) as i64, t as i64, 0i64),
        Direction::Z => ((b.x + LABEL_MARGIN) as i64, 0i64, t as i64),
    }
}

/// The labels of the first `n` ticks along `dir`, or the error of the first
/// label that cannot be laid out.
pub open spec fn labels_along(
    font: &FontMap,
    params: &TextParams,
    b: Bounds,
    dir: Direction,
    spacing: Spacing,
    n: nat,
) -> Result<Seq<TextVert>, FontMapError>
    decreases n,
{
    if n == 0 {
        Ok(Seq::empty())
    } else {
        match labels_along(font, params, b, dir, spacing, (n - 1) as nat) {
            Err(e) => Err(e),
            Ok(before) => match font.try_layout(
                tick_label(mark_position(spacing, n - 1)),
                params,
                label_anchor(b, dir, mark_position(spacing, n - 1)),
            ) {
                Err(e) => Err(e),
                Ok(label) => Ok(before + label),
            },
        }
    }
}

/// The labels of all ticks along `dir` if `wanted`, none otherwise.
pub open spec fn axis_labels(
    wanted: bool,
    font: &FontMap,
    params: &TextParams,
    b: Bounds,
    dir: Direction,
    spacing: Spacing,
) -> Result<Seq<TextVert>, FontMapError> {
    if wanted {
        labels_along(font, params, b, dir, spacing, line_count(extent(b, dir), spacing))
    } else {
        Ok(Seq::empty())
    }
}

/// `first` followed by `second`, or the error of the first of them that
/// failed.
pub open spec fn both(
    first: Result<Seq<TextVert>, FontMapError>,
    second: Result<Seq<TextVert>, FontMapError>,
) -> Result<Seq<TextVert>, FontMapError> {
    match first {
        Err(e) => Err(e),
        Ok(a) => match second {
            Err(e) => Err(e),
            Ok(b) => Ok(a + b),
        },
    }
}

fn digit_char(d: u64) -> (c: char)
    requires
        d < 10,
    ensures
        c == digit(d as int),
{
    if d == 0 {
        '0'
    } else if d == 1 {
        '1'
    } else if d == 2 {
        '2'
    } else if d == 3 {
        '3'
    } else if d == 4 {
        '4'
    } else if d == 5 {
        '5'
    } else if d == 6 {
        '6'
    } else if d == 7 {
        '7'
    } else if d == 8 {
        '8'
    } else {
        '9'
    }
}

fn push_decimal(n: u64, out: &mut Vec<char>)
    ensures
        final(out)@ == old(out)@ + decimal(n as nat),
    decreases n,
{
    if n >= 10 {
        push_decimal(n / 10, out);
    }
    out.push(digit_char(n % 10));
    assert(out@ =~= old(out)@ + decimal(n as nat));
}

/// The label of the tick at `v`, which is given in thousandths: its position
/// with one decimal place.
pub fn get_tick_label(v: u32) -> (label: Vec<char>)
    ensures
        label@ == tick_label(v as int),
{
    let t: u64 = (v as u64 + 50) / 100;
    let mut label: Vec<char> = Vec::new();
    push_decimal(t / 10, &mut label);
    label.push('.');
    label.push(digit_char(t % 10));
    assert(label@ =~= tick_label(v as int));
    label
}

/// Which axes get their ticks labelled.
#[derive(Clone, Copy, Debug, PartialEq, Eq, Structural)]
pub struct TickLabels {
    pub x: bool,
    pub y: bool,
    pub z: bool,
}

impl TickLabels {
    /// Labels on all three axes.
    pub fn new() -> (labels: Self)
        ensures
            labels == (TickLabels { x: true, y: true, z: true }),
    {
        TickLabels { x: true, y: true, z: true }
    }
}

/// How the spacing along the axes is shown.
#[derive(Clone, Copy, Debug, PartialEq, Eq, Structural)]
pub enum TickStyle {
    /// Short marks that stick out of two faces of the box.
    Tick,
    /// Lines across the three faces of the box that meet at the origin.
    Grid,
    /// Nothing.
    Blank,
}


/// The ticks of a plot: how the spacing along the axes is shown and labelled.
#[derive(Debug, PartialEq, Eq)]
pub struct Ticks {
    pub style: TickStyle,
    /// Colour of the lines, as the bit patterns of four 32-bit floats.
    pub color: [u32; 4],
    /// How many ticks the longest axis gets.
    pub count: i32,
    pub text: TextParams,
    pub labels: TickLabels,
}

fn anchor(b: &Bounds, dir: Direction, t: i64) -> (p: (i64, i64, i64))
    requires
        0 <= t <= i32::MAX,
    ensures
        p == label_anchor(*b, dir, t as int),
{
    match dir {
        Direction::X => (t, 0, b.z as i64 + LABEL_MARGIN),
        Direction::Y => (b.x as i64 + LABEL_MARGIN, t, 0),
        Direction::Z => (b.x as i64 + LABEL_MARGIN, 0, t),
    }
}

fn push_labels_along(
    wanted: bool,
    font: &FontMap,
    params: &TextParams,
    b: &Bounds,
    dir: Direction,
    spacing: Spacing,
    verts: &mut Vec<TextVert>,
) -> (r: Result<(), FontMapError>)
    ensures
        match axis_labels(wanted, font, params, *b, dir, spacing) {
            Ok(labels) => r is Ok && final(verts)@ == old(verts)@ + labels,
            Err(e) => r == Err::<(), FontMapError>(e),
        },
{
    if !wanted {
        assert(verts@ =~= old(verts)@ + Seq::<TextVert>::empty());
        return Ok(());
    }
    let n = get_marks_along(b, dir, spacing);
    let mut i: i64 = 0;
    assert(verts@ =~= old(verts)@ + Seq::<TextVert>::empty());
    while i < n
        invariant
            wanted,
            0 <= i <= n,
            n == line_count(extent(*b, dir), spacing),
            labels_along(font, params, *b, dir, spacing, i as nat) is Ok,
            verts@ == old(verts)@ + labels_along(font, params, *b, dir, spacing, i as nat)->Ok_0,
        decreases n - i,
    {
        let t = get_mark_position(spacing, i, Ghost(extent(*b, dir)));
        let label = get_tick_label(t as u32);
        match font.lay_out(&label, params, anchor(b, dir, t)) {
            Ok(mut laid) => {
                verts.append(&mut laid);
                assert(verts@ =~= old(verts)@ + labels_along(
                    font,
                    params,
                    *b,
                    dir,
                    spacing,
                    (i + 1) as nat,
                )->Ok_0);
            },
            Err(e) => {
                proof {
                    assert(labels_along(font, params, *b, dir, spacing, (i + 1) as nat)
                        == Err::<Seq<TextVert>, FontMapError>(e));
                    lemma_labels_fail_on(font, params, *b, dir, spacing, (i + 1) as nat, n as nat);
                }
                return Err(e);
            },
        }
        i += 1;
    }
    Ok(())
}

/// Labels that cannot be laid out for the first `m` ticks cannot be laid out
/// for more ticks either, and fail with the same error.
pub proof fn lemma_labels_fail_on(
    font: &FontMap,
    params: &TextParams,
    b: Bounds,
    dir: Direction,
    spacing: Spacing,
    m: nat,
    n: nat,
)
    requires
        m <= n,
        labels_along(font, params, b, dir, spacing, m) is Err,
    ensures
        labels_along(font, params, b, dir, spacing, n) == labels_along(
            font,
            params,
            b,
            dir,
            spacing,
            m,
        ),
    decreases n,
{
    if m < n {
        lemma_labels_fail_on(font, params, b, dir, spacing, m, (n - 1) as nat);
    }
}

impl Ticks {
    /// Ten grey tick marks along the longest axis, labelled on all axes in
    /// the default font at a third of its size.
    pub fn new() -> (ticks: Self)
        ensures
            ticks.style == TickStyle::Tick,
            ticks.color[0] == HALF_BITS,
            ticks.color[1] == HALF_BITS,
            ticks.color[2] == HALF_BITS,
            ticks.color[3] == ONE_BITS,
            ticks.count == 10,
            ticks.text.size == 120,
            ticks.text.kearning == 0,
            ticks.text.font@ == crate::text::DEFAULT_FONT@,
            ticks.labels == (TickLabels { x: true, y: true, z: true }),
    {
        let mut text_params = TextParams::new();
        text_params.size = 120;
        Ticks {
            style: TickStyle::Tick,
            color: [HALF_BITS, HALF_BITS, HALF_BITS, ONE_BITS],
            count: 10,
            text: text_params,
            labels: TickLabels::new(),
        }
    }

    /// The lines of the ticks: the edges of the box at the origin, then the
    /// marks of the chosen style.
    pub open spec fn lines(&self, b: Bounds) -> Seq<PosVert> {
        blank(b) + marks(self.style, b, spacing(b, self.count))
    }

    /// The labels of the ticks: those along x, then y, then z, each only if
    /// wanted. The error of the first label that cannot be laid out.
    pub open spec fn text(&self, b: Bounds, font: &FontMap) -> Result<Seq<TextVert>, FontMapError> {
        let s = spacing(b, self.count);
        both(
            both(
                axis_labels(self.labels.x, font, &self.text, b, Direction::X, s),
                axis_labels(self.labels.y, font, &self.text, b, Direction::Y, s),
            ),
            axis_labels(self.labels.z, font, &self.text, b, Direction::Z, s),
        )
    }

    /// The labels of the ticks, laid out beside them.
    pub fn get_text(&self, bounds: &Bounds, font: &FontMap) -> (r: Result<Vec<TextVert>, TicksError>)
        ensures
            match self.text(*bounds, font) {
                Ok(verts) => r is Ok && r->Ok_0@ == verts,
                Err(e) => r == Err::<Vec<TextVert>, TicksError>(TicksError::FontMap(e)),
            },
    {
        let mut verts: Vec<TextVert> = Vec::new();
        let spacing = get_spacing(bounds, self.count);
        match push_labels_along(
            self.labels.x,
            font,
            &self.text,
            bounds,
            Direction::X,
            spacing,
            &mut verts,
        ) {
            Ok(()) => {},
            Err(e) => {
                return Err(TicksError::FontMap(e));
            },
        }
        match push_labels_along(
            self.labels.y,
            font,
            &self.text,
            bounds,
            Direction::Y,
            spacing,
            &mut verts,
        ) {
            Ok(()) => {},
            Err(e) => {
                return Err(TicksError::FontMap(e));
            },
        }
        match push_labels_along(
            self.labels.z,
            font,
            &self.text,
            bounds,
            Direction::Z,
            spacing,
            &mut verts,
        ) {
            Ok(()) => {},
            Err(e) => {
                return Err(TicksError::FontMap(e));
            },
        }
        assert(verts@ =~= self.text(*bounds, font)->Ok_0);
        Ok(verts)
    }

    /// The lines of the ticks.
    pub fn get_lines(&self, bounds: &Bounds) -> (verts: Vec<PosVert>)
        ensures
            verts@ == self.lines(*bounds),
            self.count >= 0 ==> verts@.len() <= 6 + mark_len(self.style) * 3 * self.count,
    {
        let mut verts = get_blank(bounds);
        let spacing = get_spacing(bounds, self.count);
        let mut marks = get_marks(self.style, bounds, spacing);
        verts.append(&mut marks);
        proof {
            if self.count >= 0 {
                lemma_marks_bound(self.style, *bounds, self.count);
            }
        }
        verts
    }

    /// The tick marks of the box, `spacing` apart.
    pub fn get_tick_verts(b: &Bounds, spacing: Spacing) -> (verts: Vec<PosVert>)
        ensures
            verts@ == marks(TickStyle::Tick, *b, spacing),
    {
        get_marks(TickStyle::Tick, b, spacing)
    }

    /// The grid lines of the box, `spacing` apart.
    pub fn get_grid_verts(b: &Bounds, spacing: Spacing) -> (verts: Vec<PosVert>)
        ensures
            verts@ == marks(TickStyle::Grid, *b, spacing),
    {
        get_marks(TickStyle::Grid, b, spacing)
    }
}


impl Ticks {
    /// Whether `plan` is the plan of the ticks' scene with the given lines
    /// and label vertices: one program that draws the lines in the ticks'
    /// colour, and one that draws the labels from the font's texture. The
    /// passes count their vertices in 32 bits, as the graphics API does.
    pub open spec fn planned(
        &self,
        plan: &ScenePlan,
        mvp: [u32; 16],
        scale: u32,
        font: &FontMap,
        lines: Seq<PosVert>,
        text: Seq<TextVert>,
    ) -> bool {
        &&& plan.programs@.len() == 2
        &&& plan.programs@[0].is("./shaders/solid_vert.glsl"@, "./shaders/solid_frag.glsl"@)
        &&& plan.programs@[1].is("./shaders/text_vert.glsl"@, "./shaders/text_frag.glsl"@)
        &&& plan.buffers@.len() == 2
        &&& plan.buffers@[0].holds_points(0, lines)
        &&& plan.buffers@[1].holds_text(1, text)
        &&& plan.textures@ =~= seq![font.spec_texture()]
        &&& plan.matrices@.len() == 2
        &&& plan.matrices@[0].is(0, "mvp"@, seq![mvp])
        &&& plan.matrices@[1].is(1, "mvp"@, seq![mvp])
        &&& plan.vectors@.len() == 2
        &&& plan.vectors@[0].is(0, "color"@, seq![self.color])
        &&& plan.vectors@[1].is(1, "scale"@, seq![[scale, 0u32, 0u32, 0u32]])
        &&& plan.passes@.len() == 2
        &&& plan.passes@[0].is(
            DrawType::Lines,
            0,
            lines.len() as i32 as int,
            0,
            0,
            None,
            seq![(0usize, 0usize)],
            seq![(0usize, 0usize)],
        )
        &&& plan.passes@[1].is(
            DrawType::Triangles,
            0,
            text.len() as i32 as int,
            1,
            1,
            Some(0usize),
            seq![(1usize, 0usize)],
            seq![(1usize, 0usize)],
        )
    }

    /// Plans the scene of the ticks: their lines, then their labels.
    ///
    /// `mvp` is the matrix that takes the plotted volume to the screen and
    /// `scale` the factor from atlas to screen size for the labels, both as
    /// bit patterns of 32-bit floats. Fails if a label cannot be laid out.
    pub fn get_scene(&self, mvp: [u32; 16], scale: u32, bounds: &Bounds, font: &FontMap) -> (r:
        Result<ScenePlan, TicksError>)
        ensures
            match self.text(*bounds, font) {
                Ok(text) => r matches Ok(plan) && plan.well_indexed() && self.planned(
                    &plan,
                    mvp,
                    scale,
                    font,
                    self.lines(*bounds),
                    text,
                ),
                Err(e) => r matches Err(TicksError::FontMap(f)) && f == e,
            },
    {
        let line_verts = self.get_lines(bounds);
        let text_verts = match self.get_text(bounds, font) {
            Ok(verts) => verts,
            Err(e) => {
                return Err(e);
            },
        };
        let line_count = #[verifier::truncate] (line_verts.len() as i32);
        let text_count = #[verifier::truncate] (text_verts.len() as i32);

        let programs = vec![
            ProgramFiles { vertex: "./shaders/solid_vert.glsl", fragment: "./shaders/solid_frag.glsl" },
            ProgramFiles { vertex: "./shaders/text_vert.glsl", fragment: "./shaders/text_frag.glsl" },
        ];
        let buffers = vec![BufferPlan::points(0, line_verts), BufferPlan::text(1, text_verts)];
        let matrices = vec![
            MatrixPlan { program: 0, name: "mvp", values: vec![mvp] },
            MatrixPlan { program: 1, name: "mvp", values: vec![mvp] },
        ];
        let vectors = vec![
            VectorPlan { program: 0, name: "color", values: vec![self.color] },
            VectorPlan { program: 1, name: "scale", values: vec![[scale, 0u32, 0u32, 0u32]] },
        ];
        let passes = vec![
            DrawPass::new(
                DrawType::Lines,
                0,
                line_count,
                DrawInds {
                    program: 0,
                    vao: 0,
                    texture: None,
                    matrix: vec![(0usize, 0usize)],
                    vector: vec![(0usize, 0usize)],
                },
            ),
            DrawPass::new(
                DrawType::Triangles,
                0,
                text_count,
                DrawInds {
                    program: 1,
                    vao: 1,
                    texture: Some(0),
                    matrix: vec![(1usize, 0usize)],
                    vector: vec![(1usize, 0usize)],
                },
            ),
        ];
        let plan = ScenePlan {
            programs,
            buffers,
            textures: vec![font.texture()],
            matrices,
            vectors,
            passes,
        };
        Ok(plan)
    }
}

} // verus!
