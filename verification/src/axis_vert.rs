//! Line geometry of the plotted box: its border, tick marks and grid lines.
//!
//! Every function returns line segments as consecutive pairs of vertices.

use vstd::prelude::*;
use crate::plot::Bounds;
use crate::ticks::TickStyle;
use crate::vertices::{pos_vert, PosVert};

verus! {

/// Length of a tick mark: a fiftieth of the plot's unit length.
pub const TICK_SIZE: i64 = 20;

/// One of the three axes.
#[derive(Clone, Copy, Debug, PartialEq, Eq, Structural)]
pub enum Direction {
    X,
    Y,
    Z,
}

/// The extent of the box along `dir`.
pub open spec fn extent(b: Bounds, dir: Direction) -> int {
    match dir {
        Direction::X => b.x as int,
        Direction::Y => b.y as int,
        Direction::Z => b.z as int,
    }
}

/// The distance between neighbouring marks, as an exact fraction: `length`
/// divided into `parts`.
#[derive(Clone, Copy, Debug, PartialEq, Eq, Structural)]
pub struct Spacing {
    pub length: i32,
    pub parts: i32,
}

/// The spacing of `tick_count` marks along the longest axis: the largest
/// extent divided by their number.
pub open spec fn spacing(b: Bounds, tick_count: i32) -> Spacing {
    Spacing { length: b.spec_max() as i32, parts: tick_count }
}

/// How many marks an axis of length `extent` gets: the extent divided by the
/// spacing, rounded down. None where the extent or either part of the
/// spacing is not positive.
pub open spec fn line_count(extent: int, spacing: Spacing) -> nat {
    if extent > 0 && spacing.length > 0 && spacing.parts > 0 {
        (extent * spacing.parts / spacing.length as int) as nat
    } else {
        0
    }
}

/// Where mark `i` lies, counting from 0 at the origin: `i` times the
/// spacing, rounded down to a whole unit.
pub open spec fn mark_position(spacing: Spacing, i: int) -> int {
    spacing.length * i / spacing.parts as int
}

/// An axis no longer than the length that is divided gets no more marks than
/// there are parts: with the spacing of `tick_count` marks along the longest
/// axis, no axis gets more than `tick_count`.
pub proof fn lemma_line_count_bound(extent: int, spacing: Spacing)
    requires
        extent <= spacing.length,
    ensures
        line_count(extent, spacing) <= spacing.parts || line_count(extent, spacing) == 0,
        spacing.parts >= 0 ==> line_count(extent, spacing) <= spacing.parts,
        extent == spacing.length && extent > 0 && spacing.parts > 0 ==> line_count(
            extent,
            spacing,
        ) == spacing.parts,
{
    if extent > 0 && spacing.length > 0 && spacing.parts > 0 {
        let l = spacing.length as int;
        let p = spacing.parts as int;
        assert(extent * p <= l * p) by (nonlinear_arith)
            requires
                extent <= l,
                p > 0,
        ;
        vstd::arithmetic::div_mod::lemma_multiply_divide_le(extent * p, l, p);
        if extent == l {
            vstd::arithmetic::div_mod::lemma_div_multiples_vanish(p, l);
        }
    }
}

/// Every mark of an axis lies within it.
pub proof fn lemma_mark_within(extent: int, spacing: Spacing, i: int)
    requires
        0 <= i < line_count(extent, spacing),
    ensures
        0 <= spacing.length * i <= extent * spacing.parts,
        0 <= mark_position(spacing, i) < extent,
{
    let l = spacing.length as int;
    let p = spacing.parts as int;
    let q = extent * p / l;
    assert(0 <= extent * p) by (nonlinear_arith)
        requires
            extent > 0,
            p > 0,
    ;
    assert(q * l <= extent * p) by (nonlinear_arith)
        requires
            q == extent * p / l,
            extent * p >= 0,
            l > 0,
    ;
    assert(l * i + l <= q * l) by (nonlinear_arith)
        requires
            i + 1 <= q,
            l > 0,
    ;
    assert(0 <= l * i) by (nonlinear_arith)
        requires
            i >= 0,
            l > 0,
    ;
    assert(l * i < p * extent) by (nonlinear_arith)
        requires
            l * i + l <= extent * p,
            l > 0,
    ;
    vstd::arithmetic::div_mod::lemma_multiply_divide_lt(l * i, p, extent);
    vstd::arithmetic::div_mod::lemma_div_pos_is_pos(l * i, p);
}

/// The tick mark at distance `t` from the origin along `dir`. Marks along x
/// stick out of the face at `z`, marks along y and z out of the face at `x`.
pub open spec fn tick_at(b: Bounds, dir: Direction, t: int) -> Seq<PosVert> {
    match dir {
        Direction::X => seq![pos_vert(t, 0, b.z as int), pos_vert(t, 0, b.z + TICK_SIZE)],
        Direction::Y => seq![pos_vert(b.x as int, t, 0), pos_vert(b.x + TICK_SIZE, t, 0)],
        Direction::Z => seq![pos_vert(b.x as int, 0, t), pos_vert(b.x + TICK_SIZE, 0, t)],
    }
}

/// The two grid lines at distance `t` from the origin along `dir`: one across
/// each of the two faces that `dir` runs along.
pub open spec fn grid_at(b: Bounds, dir: Direction, t: int) -> Seq<PosVert> {
    match dir {
        Direction::X => seq![
            pos_vert(t, 0, 0),
            pos_vert(t, b.y as int, 0),
            pos_vert(t, 0, 0),
            pos_vert(t, 0, b.z as int),
        ],
        Direction::Y => seq![
            pos_vert(0, t, 0),
            pos_vert(b.x as int, t, 0),
            pos_vert(0, t, 0),
            pos_vert(0, t, b.z as int),
        ],
        Direction::Z => seq![
            pos_vert(0, 0, t),
            pos_vert(b.x as int, 0, t),
            pos_vert(0, 0, t),
            pos_vert(0, b.y as int, t),
        ],
    }
}

/// What `style` draws at distance `t` from the origin along `dir`.
pub open spec fn mark_at(style: TickStyle, b: Bounds, dir: Direction, t: int) -> Seq<PosVert> {
    match style {
        TickStyle::Tick => tick_at(b, dir, t),
        TickStyle::Grid => grid_at(b, dir, t),
        TickStyle::Blank => Seq::empty(),
    }
}

/// How many vertices `style` takes for one mark.
pub open spec fn mark_len(style: TickStyle) -> nat {
    match style {
        TickStyle::Tick => 2,
        TickStyle::Grid => 4,
        TickStyle::Blank => 0,
    }
}

/// The first `n` marks along `dir`, `spacing` apart from the origin on.
pub open spec fn marks_along(
    style: TickStyle,
    b: Bounds,
    dir: Direction,
    spacing: Spacing,
    n: nat,
) -> Seq<PosVert>
    decreases n,
{
    if n == 0 {
        Seq::empty()
    } else {
        marks_along(style, b, dir, spacing, (n - 1) as nat) + mark_at(
            style,
            b,
            dir,
            mark_position(spacing, n - 1),
        )
    }
}

/// All marks of the box: those along x, then y, then z.
pub open spec fn marks(style: TickStyle, b: Bounds, spacing: Spacing) -> Seq<PosVert> {
    marks_along(style, b, Direction::X, spacing, line_count(b.x as int, spacing)) + marks_along(
        style,
        b,
        Direction::Y,
        spacing,
        line_count(b.y as int, spacing),
    ) + marks_along(style, b, Direction::Z, spacing, line_count(b.z as int, spacing))
}

/// `n` marks take `n` times the vertices of one.
pub proof fn lemma_marks_along_len(
    style: TickStyle,
    b: Bounds,
    dir: Direction,
    spacing: Spacing,
    n: nat,
)
    ensures
        marks_along(style, b, dir, spacing, n).len() == mark_len(style) * n,
    decreases n,
{
    if n > 0 {
        lemma_marks_along_len(style, b, dir, spacing, (n - 1) as nat);
        assert(mark_len(style) * n == mark_len(style) * (n - 1) + mark_len(style))
            by (nonlinear_arith);
    }
}

/// The number of vertices of all marks of the box: the vertices of one mark,
/// times the marks of the three axes together.
pub proof fn lemma_marks_len(style: TickStyle, b: Bounds, spacing: Spacing)
    ensures
        marks(style, b, spacing).len() == mark_len(style) * (line_count(b.x as int, spacing)
            + line_count(b.y as int, spacing) + line_count(b.z as int, spacing)),
{
    let nx = line_count(b.x as int, spacing);
    let ny = line_count(b.y as int, spacing);
    let nz = line_count(b.z as int, spacing);
    lemma_marks_along_len(style, b, Direction::X, spacing, nx);
    lemma_marks_along_len(style, b, Direction::Y, spacing, ny);
    lemma_marks_along_len(style, b, Direction::Z, spacing, nz);
    assert(mark_len(style) * (nx + ny + nz) == mark_len(style) * nx + mark_len(style) * ny
        + mark_len(style) * nz) by (nonlinear_arith);
}

/// With the spacing of `tick_count` marks along the longest axis, the box
/// has no more than `tick_count` marks on each of its three axes.
pub proof fn lemma_marks_bound(style: TickStyle, b: Bounds, tick_count: i32)
    requires
        tick_count >= 0,
    ensures
        line_count(b.x as int, spacing(b, tick_count)) <= tick_count,
        line_count(b.y as int, spacing(b, tick_count)) <= tick_count,
        line_count(b.z as int, spacing(b, tick_count)) <= tick_count,
        marks(style, b, spacing(b, tick_count)).len() <= mark_len(style) * 3 * tick_count,
{
    let s = spacing(b, tick_count);
    lemma_line_count_bound(b.x as int, s);
    lemma_line_count_bound(b.y as int, s);
    lemma_line_count_bound(b.z as int, s);
    lemma_marks_len(style, b, s);
    let total = line_count(b.x as int, s) + line_count(b.y as int, s) + line_count(b.z as int, s);
    assert(mark_len(style) * total <= mark_len(style) * 3 * tick_count) by (nonlinear_arith)
        requires
            total <= 3 * tick_count,
    ;
}

/// The twelve vertices of the border: the six edges of the box that do not
/// touch the origin, as one closed path.
pub open spec fn axis_border(b: Bounds) -> Seq<PosVert> {
    seq![
        pos_vert(b.x as int, b.y as int, 0),
        pos_vert(b.x as int, 0, 0),
        pos_vert(b.x as int, 0, 0),
        pos_vert(b.x as int, 0, b.z as int),
        pos_vert(b.x as int, 0, b.z as int),
        pos_vert(0, 0, b.z as int),
        pos_vert(0, 0, b.z as int),
        pos_vert(0, b.y as int, b.z as int),
        pos_vert(0, b.y as int, b.z as int),
        pos_vert(0, b.y as int, 0),
        pos_vert(0, b.y as int, 0),
        pos_vert(b.x as int, b.y as int, 0),
    ]
}

/// The six vertices of the three edges of the box that meet at the origin.
pub open spec fn blank(b: Bounds) -> Seq<PosVert> {
    seq![
        pos_vert(0, 0, 0),
        pos_vert(b.x as int, 0, 0),
        pos_vert(0, 0, 0),
        pos_vert(0, b.y as int, 0),
        pos_vert(0, 0, 0),
        pos_vert(0, 0, b.z as int),
    ]
}

fn vert(x: i64, y: i64, z: i64) -> (v: PosVert)
    ensures
        v == pos_vert(x as int, y as int, z as int),
{
    PosVert { position: (x, y, z) }
}

/// The border of the box.
pub fn get_axis_border(b: &Bounds) -> (verts: Vec<PosVert>)
    ensures
        verts@ == axis_border(*b),
{
    let x = b.x as i64;
    let y = b.y as i64;
    let z = b.z as i64;
    let mut verts: Vec<PosVert> = Vec::new();
    verts.push(vert(x, y, 0));
    verts.push(vert(x, 0, 0));
    verts.push(vert(x, 0, 0));
    verts.push(vert(x, 0, z));
    verts.push(vert(x, 0, z));
    verts.push(vert(0, 0, z));
    verts.push(vert(0, 0, z));
    verts.push(vert(0, y, z));
    verts.push(vert(0, y, z));
    verts.push(vert(0, y, 0));
    verts.push(vert(0, y, 0));
    verts.push(vert(x, y, 0));
    assert(verts@ =~= axis_border(*b));
    verts
}

/// The three edges of the box that meet at the origin.
pub fn get_blank(b: &Bounds) -> (verts: Vec<PosVert>)
    ensures
        verts@ == blank(*b),
{
    let mut verts: Vec<PosVert> = Vec::new();
    verts.push(vert(0, 0, 0));
    verts.push(vert(b.x as i64, 0, 0));
    verts.push(vert(0, 0, 0));
    verts.push(vert(0, b.y as i64, 0));
    verts.push(vert(0, 0, 0));
    verts.push(vert(0, 0, b.z as i64));
    assert(verts@ =~= blank(*b));
    verts
}

/// The spacing of `tick_count` marks along the longest axis.
pub fn get_spacing(b: &Bounds, tick_count: i32) -> (s: Spacing)
    ensures
        s == spacing(*b, tick_count),
{
    Spacing { length: b.max(), parts: tick_count }
}

fn get_line_count(extent: i32, spacing: Spacing) -> (n: i64)
    ensures
        n == line_count(extent as int, spacing),
        0 <= n,
{
    if extent > 0 && spacing.length > 0 && spacing.parts > 0 {
        assert(0 <= extent * spacing.parts <= 0x7fff_ffff * 0x7fff_ffff) by (nonlinear_arith)
            requires
                0 < extent <= 0x7fff_ffff,
                0 < spacing.parts <= 0x7fff_ffff,
        ;
        proof {
            vstd::arithmetic::div_mod::lemma_div_pos_is_pos(
                extent * spacing.parts,
                spacing.length as int,
            );
            vstd::arithmetic::div_mod::lemma_div_is_ordered(
                0,
                extent * spacing.parts,
                spacing.length as int,
            );
        }
        (extent as i64 * spacing.parts as i64) / spacing.length as i64
    } else {
        0
    }
}

fn push_mark(style: TickStyle, b: &Bounds, dir: Direction, t: i64, verts: &mut Vec<PosVert>)
    requires
        0 <= t <= i32::MAX,
    ensures
        final(verts)@ == old(verts)@ + mark_at(style, *b, dir, t as int),
{
    let x = b.x as i64;
    let y = b.y as i64;
    let z = b.z as i64;
    match style {
        TickStyle::Tick => {
            match dir {
                Direction::X => {
                    verts.push(vert(t, 0, z));
                    verts.push(vert(t, 0, z + TICK_SIZE));
                },
                Direction::Y => {
                    verts.push(vert(x, t, 0));
                    verts.push(vert(x + TICK_SIZE, t, 0));
                },
                Direction::Z => {
                    verts.push(vert(x, 0, t));
                    verts.push(vert(x + TICK_SIZE, 0, t));
                },
            }
        },
        TickStyle::Grid => {
            match dir {
                Direction::X => {
                    verts.push(vert(t, 0, 0));
                    verts.push(vert(t, y, 0));
                    verts.push(vert(t, 0, 0));
                    verts.push(vert(t, 0, z));
                },
                Direction::Y => {
                    verts.push(vert(0, t, 0));
                    verts.push(vert(x, t, 0));
                    verts.push(vert(0, t, 0));
                    verts.push(vert(0, t, z));
                },
                Direction::Z => {
                    verts.push(vert(0, 0, t));
                    verts.push(vert(x, 0, t));
                    verts.push(vert(0, 0, t));
                    verts.push(vert(0, y, t));
                },
            }
        },
        TickStyle::Blank => {},
    }
    assert(verts@ =~= old(verts)@ + mark_at(style, *b, dir, t as int));
}

/// The number of marks along `dir`.
pub(crate) fn get_marks_along(b: &Bounds, dir: Direction, spacing: Spacing) -> (n: i64)
    ensures
        n == line_count(extent(*b, dir), spacing),
        0 <= n,
{
    let length = match dir {
        Direction::X => b.x,
        Direction::Y => b.y,
        Direction::Z => b.z,
    };
    get_line_count(length, spacing)
}

/// Where mark `i` of the `n` marks along an axis of length `extent` lies.
pub(crate) fn get_mark_position(spacing: Spacing, i: i64, Ghost(extent): Ghost<int>) -> (t: i64)
    requires
        0 <= i < line_count(extent, spacing),
        extent <= i32::MAX,
    ensures
        t == mark_position(spacing, i as int),
        0 <= t < extent,
{
    proof {
        lemma_mark_within(extent, spacing, i as int);
        assert(extent * spacing.parts <= 0x7fff_ffff * 0x7fff_ffff) by (nonlinear_arith)
            requires
                0 < extent <= 0x7fff_ffff,
                0 < spacing.parts <= 0x7fff_ffff,
        ;
    }
    (spacing.length as i64 * i) / spacing.parts as i64
}

fn push_marks_along(
    style: TickStyle,
    b: &Bounds,
    dir: Direction,
    spacing: Spacing,
    verts: &mut Vec<PosVert>,
)
    ensures
        final(verts)@ == old(verts)@ + marks_along(
            style,
            *b,
            dir,
            spacing,
            line_count(extent(*b, dir), spacing),
        ),
{
    let n = get_marks_along(b, dir, spacing);
    let mut i: i64 = 0;
    assert(verts@ =~= old(verts)@ + marks_along(style, *b, dir, spacing, 0));
    while i < n
        invariant
            0 <= i <= n,
            n == line_count(extent(*b, dir), spacing),
            verts@ == old(verts)@ + marks_along(style, *b, dir, spacing, i as nat),
        decreases n - i,
    {
        let t = get_mark_position(spacing, i, Ghost(extent(*b, dir)));
        push_mark(style, b, dir, t, verts);
        assert(verts@ =~= old(verts)@ + marks_along(style, *b, dir, spacing, (i + 1) as nat));
        i += 1;
    }
}

/// All marks of style `style` of the box, `spacing` apart.
pub fn get_marks(style: TickStyle, b: &Bounds, spacing: Spacing) -> (verts: Vec<PosVert>)
    ensures
        verts@ == marks(style, *b, spacing),
        verts@.len() == mark_len(style) * (line_count(b.x as int, spacing) + line_count(
            b.y as int,
            spacing,
        ) + line_count(b.z as int, spacing)),
{
    let mut verts: Vec<PosVert> = Vec::new();
    push_marks_along(style, b, Direction::X, spacing, &mut verts);
    push_marks_along(style, b, Direction::Y, spacing, &mut verts);
    push_marks_along(style, b, Direction::Z, spacing, &mut verts);
    proof {
        assert(verts@ =~= marks(style, *b, spacing));
        lemma_marks_len(style, *b, spacing);
    }
    verts
}

/// The tick marks of the box, `spacing` apart: one pair of vertices for each.
pub fn get_ticks(b: &Bounds, spacing: Spacing) -> (lines: Vec<PosVert>)
    ensures
        lines@ == marks(TickStyle::Tick, *b, spacing),
        lines@.len() == 2 * (line_count(b.x as int, spacing) + line_count(b.y as int, spacing)
            + line_count(b.z as int, spacing)),
{
    get_marks(TickStyle::Tick, b, spacing)
}

/// The grid lines of the box, `spacing` apart: two pairs of vertices for each
/// mark.
pub fn get_grid(b: &Bounds, spacing: Spacing) -> (lines: Vec<PosVert>)
    ensures
        lines@ == marks(TickStyle::Grid, *b, spacing),
        lines@.len() == 4 * (line_count(b.x as int, spacing) + line_count(b.y as int, spacing)
            + line_count(b.z as int, spacing)),
{
    get_marks(TickStyle::Grid, b, spacing)
}

/// The lines of the box in two groups, each to be drawn in a colour of its
/// own: the border, and the edges at the origin. Tick marks go with the
/// border, grid lines with the edges at the origin. No axis gets more than
/// `tick_count` marks.
pub fn get_axis_verts(bounds: &Bounds, style: &TickStyle, tick_count: i32) -> (r: (
    Vec<PosVert>,
    Vec<PosVert>,
))
    ensures
        r.0@ == axis_border(*bounds) + (match *style {
            TickStyle::Tick => marks(TickStyle::Tick, *bounds, spacing(*bounds, tick_count)),
            _ => Seq::empty(),
        }),
        r.1@ == blank(*bounds) + (match *style {
            TickStyle::Grid => marks(TickStyle::Grid, *bounds, spacing(*bounds, tick_count)),
            _ => Seq::empty(),
        }),
        tick_count >= 0 ==> r.0@.len() <= 12 + 6 * tick_count,
        tick_count >= 0 ==> r.1@.len() <= 6 + 12 * tick_count,
{
    let mut border = get_axis_border(bounds);
    let mut ticks = get_blank(bounds);
    let spacing = get_spacing(bounds, tick_count);
    match style {
        TickStyle::Tick => {
            let mut marks = get_ticks(bounds, spacing);
            border.append(&mut marks);
        },
        TickStyle::Grid => {
            let mut marks = get_grid(bounds, spacing);
            ticks.append(&mut marks);
        },
        TickStyle::Blank => {},
    }
    proof {
        assert(border@ =~= axis_border(*bounds) + (match *style {
            TickStyle::Tick => marks(TickStyle::Tick, *bounds, spacing),
            _ => Seq::empty(),
        }));
        assert(ticks@ =~= blank(*bounds) + (match *style {
            TickStyle::Grid => marks(TickStyle::Grid, *bounds, spacing),
            _ => Seq::empty(),
        }));
        if tick_count >= 0 {
            lemma_marks_bound(TickStyle::Tick, *bounds, tick_count);
            lemma_marks_bound(TickStyle::Grid, *bounds, tick_count);
        }
    }
    (border, ticks)
}

} // verus!
