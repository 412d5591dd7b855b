//! The font atlas: where each glyph of the character set is drawn on the
//! atlas texture, and the quad that shows it.

use vstd::prelude::*;
use crate::gl_wrap::{
    Bind, Buffer, Drop, DrawType, FramebufferError, GlCall, Program, Texture, TextureFramebuffer,
    VertexArray,
};
use crate::text::{half, last_index_of, FontMap, FONT_SIZE, VERT_PER_CHAR};
use crate::vertices::{BitmapVert, PIXEL};

verus! {

/// The characters that are baked into an atlas, in the order of their cells.
pub const CHAR_SET: &'static str =
    "abcdefghijklmnopqrstuvwxyzABCDEFGHIJKLMNOPQRSTUVWXYZ0123456789.";

/// Glyphs are rasterized at this multiple of the font size.
pub const FONT_SUPERSAMPLE: i32 = 3;

/// Width of the atlas: 1024 pixels.
pub const MAP_WIDTH: i32 = 12288;

/// Height of the atlas: 512 pixels.
pub const MAP_HEIGHT: i32 = 6144;

/// Vertices of the strip that a glyph is drawn onto the atlas with.
pub const NUM_VERTEX: i32 = 4;

/// Distance of the first cell's centre from the edges of the atlas.
pub open spec fn margin() -> int {
    FONT_SIZE as int / 2
}

/// Height of a row of cells: a quarter more than the font size, to leave
/// room for descenders.
pub open spec fn line_height() -> int {
    FONT_SIZE as int * 5 / 4
}

/// Cells in a row of the atlas.
pub open spec fn chars_per_row() -> int {
    MAP_WIDTH as int / FONT_SIZE as int
}

/// How far quads reach down into the row below the baseline to take in
/// descenders.
pub open spec fn avg_alignment() -> int {
    margin() / 2
}

/// Where the cell of the `i`-th character lies on the atlas, from its left
/// edge.
pub open spec fn grid_x(i: int) -> int {
    (i % chars_per_row()) * FONT_SIZE as int + margin()
}

/// Where the cell of the `i`-th character lies on the atlas, from its top
/// edge.
pub open spec fn grid_y(i: int) -> int {
    (i / chars_per_row()) * line_height() + margin()
}

/// A rasterized glyph.
#[derive(Clone, Debug, PartialEq, Eq)]
pub struct Glyph {
    /// Width of the bitmap in pixels.
    pub width: u16,
    /// Height of the bitmap in pixels.
    pub height: u16,
    /// The lowest point of the outline relative to the baseline, in twelfths
    /// of a pixel of the bitmap.
    pub ymin: i32,
    /// Coverage of each pixel, row by row.
    pub bitmap: Vec<u8>,
}

impl Glyph {
    /// The bitmap has one byte for each pixel.
    pub open spec fn valid(&self) -> bool {
        self.bitmap@.len() == self.width * self.height
    }

    /// The size of the glyph on the atlas.
    pub open spec fn char_size(&self) -> (i32, i32) {
        (
            (self.width * PIXEL / FONT_SUPERSAMPLE as int) as i32,
            (self.height * PIXEL / FONT_SUPERSAMPLE as int) as i32,
        )
    }

    /// How far the glyph is moved from the centre of its cell to stand on
    /// the baseline, rounded down.
    pub open spec fn char_alignment(&self) -> int {
        self.ymin as int / FONT_SUPERSAMPLE as int
    }
}

/// The bitmap `bytes` with each byte repeated for the red, green, blue and
/// alpha channel.
pub open spec fn rgba(bytes: Seq<u8>) -> Seq<u8> {
    Seq::new(4 * bytes.len(), |i: int| bytes[i / 4])
}

/// The quad of width `w` and height `h` about the origin that shows the part
/// of the atlas between `tnx` and `tpx` and between `tny` and `tpy`, as two
/// triangles. Halves are rounded down.
pub open spec fn quad(w: int, h: int, tpx: int, tnx: int, tpy: int, tny: int) -> Seq<BitmapVert> {
    let w2 = w / 2;
    let h2 = h / 2;
    seq![
        bitmap_vert(w2, h2, tpx, tpy),
        bitmap_vert(-w2, h2, tnx, tpy),
        bitmap_vert(-w2, -h2, tnx, tny),
        bitmap_vert(-w2, -h2, tnx, tny),
        bitmap_vert(w2, -h2, tpx, tny),
        bitmap_vert(w2, h2, tpx, tpy),
    ]
}

/// The corner at `(x, y)` that shows the point `(tx, ty)` of the atlas.
pub open spec fn bitmap_vert(x: int, y: int, tx: int, ty: int) -> BitmapVert {
    BitmapVert { position: (x as i32, y as i32), texcoord: (tx as i32, ty as i32) }
}

/// The quad of `glyph` when it is the `i`-th of the character set: as wide
/// as the glyph, as high as a row, showing the cell about its centre.
pub open spec fn glyph_quad(i: int, glyph: Glyph) -> Seq<BitmapVert> {
    let w2 = glyph.char_size().0 / 2;
    let h2 = line_height() / 2;
    quad(
        glyph.char_size().0 as int,
        line_height(),
        grid_x(i) + w2,
        grid_x(i) - w2,
        grid_y(i) + h2 + avg_alignment(),
        grid_y(i) - h2 + avg_alignment(),
    )
}

/// The quads of the first `n` glyphs, one after the other.
pub open spec fn atlas_verts(glyphs: Seq<Glyph>, n: nat) -> Seq<BitmapVert>
    decreases n,
{
    if n == 0 {
        Seq::empty()
    } else {
        atlas_verts(glyphs, (n - 1) as nat) + glyph_quad(n - 1, glyphs[n - 1])
    }
}

/// The quads of `n` glyphs have six vertices each, and the `j`-th vertex of
/// the `i`-th quad is the `j`-th vertex of the quad of the `i`-th glyph.
pub proof fn lemma_atlas_verts_index(glyphs: Seq<Glyph>, n: nat, i: int, j: int)
    requires
        0 <= i < n,
        0 <= j < VERT_PER_CHAR,
    ensures
        atlas_verts(glyphs, n).len() == VERT_PER_CHAR * n,
        atlas_verts(glyphs, n)[VERT_PER_CHAR * i + j] == glyph_quad(i, glyphs[i])[j],
    decreases n,
{
    lemma_atlas_verts_len(glyphs, n);
    lemma_atlas_verts_len(glyphs, (n - 1) as nat);
    if i < n - 1 {
        lemma_atlas_verts_index(glyphs, (n - 1) as nat, i, j);
    }
}

/// The quads of `n` glyphs have six vertices each.
pub proof fn lemma_atlas_verts_len(glyphs: Seq<Glyph>, n: nat)
    ensures
        atlas_verts(glyphs, n).len() == VERT_PER_CHAR * n,
    decreases n,
{
    if n > 0 {
        lemma_atlas_verts_len(glyphs, (n - 1) as nat);
    }
}

/// The last occurrence of a character in a sequence is an occurrence of it.
pub proof fn lemma_last_index_of(chars: Seq<char>, c: char)
    ensures
        last_index_of(chars, c) matches Some(i) ==> 0 <= i < chars.len() && chars[i] == c,
    decreases chars.len(),
{
    if chars.len() > 0 && chars.last() != c {
        lemma_last_index_of(chars.drop_last(), c);
    }
}

/// What it takes to draw one glyph onto the atlas.
#[derive(Debug, PartialEq, Eq)]
pub struct GlyphDraw {
    /// The bitmap, four channels per pixel.
    pub rgba: Vec<u8>,
    /// Width of the bitmap in pixels.
    pub width: i32,
    /// Height of the bitmap in pixels.
    pub height: i32,
    /// Size of the glyph on the atlas.
    pub char_size: (i32, i32),
    /// Where the glyph is drawn on the atlas.
    pub offset: (i32, i32),
}

impl GlyphDraw {
    /// Draws `glyph` as the `i`-th of the character set.
    pub open spec fn draws(&self, i: int, glyph: Glyph) -> bool {
        &&& self.rgba@ == rgba(glyph.bitmap@)
        &&& self.width == glyph.width
        &&& self.height == glyph.height
        &&& self.char_size == glyph.char_size()
        &&& self.offset == (grid_x(i) as i32, (grid_y(i) + glyph.char_alignment()) as i32)
    }
}

/// Repeats each byte of a bitmap for the red, green, blue and alpha channel.
pub fn rgba_from_bytes(bytes: &Vec<u8>) -> (out: Vec<u8>)
    ensures
        out@ == rgba(bytes@),
{
    let mut out: Vec<u8> = Vec::new();
    let mut i: usize = 0;
    while i < bytes.len()
        invariant
            i <= bytes@.len(),
            out@.len() == 4 * i,
            forall|k: int| 0 <= k < out@.len() ==> out@[k] == bytes@[k / 4],
        decreases bytes@.len() - i,
    {
        let b = bytes[i];
        out.push(b);
        out.push(b);
        out.push(b);
        out.push(b);
        i += 1;
    }
    assert(out@ =~= rgba(bytes@));
    out
}

fn corner(x: i32, y: i32, tx: i32, ty: i32) -> (v: BitmapVert)
    ensures
        v == bitmap_vert(x as int, y as int, tx as int, ty as int),
{
    BitmapVert { position: (x, y), texcoord: (tx, ty) }
}

/// The quad of width `w` and height `h` about the origin that shows the part
/// of the atlas between `tnx` and `tpx` and between `tny` and `tpy`.
pub fn get_quad(w: i32, h: i32, tpx: i32, tnx: i32, tpy: i32, tny: i32) -> (verts: Vec<BitmapVert>)
    ensures
        verts@ == quad(w as int, h as int, tpx as int, tnx as int, tpy as int, tny as int),
        verts@.len() == VERT_PER_CHAR,
{
    let w2 = half(w as i64) as i32;
    let h2 = half(h as i64) as i32;
    let mut verts: Vec<BitmapVert> = Vec::new();
    verts.push(corner(w2, h2, tpx, tpy));
    verts.push(corner(-w2, h2, tnx, tpy));
    verts.push(corner(-w2, -h2, tnx, tny));
    verts.push(corner(-w2, -h2, tnx, tny));
    verts.push(corner(w2, -h2, tpx, tny));
    verts.push(corner(w2, h2, tpx, tpy));
    assert(verts@ =~= quad(w as int, h as int, tpx as int, tnx as int, tpy as int, tny as int));
    verts
}

/// A third of `x`, rounded down.
fn third(x: i32) -> (t: i32)
    ensures
        t == x as int / 3,
{
    if x >= 0 {
        x / 3
    } else {
        let up: i64 = (2 - x as i64) / 3;
        (-up) as i32
    }
}

/// Why an atlas could not be set up.
#[derive(Debug, PartialEq, Eq)]
pub enum FontMapperError {
    /// The atlas's render target could not be completed.
    Framebuffer(FramebufferError),
    /// The font's data could not be read as a font; the message says why.
    Font(String),
}

/// Uniform locations of the program that draws glyphs onto the atlas.
#[derive(Clone, Copy, Debug, PartialEq, Eq, Structural)]
pub struct FontMapperUniforms {
    pub char_size: i32,
    pub offset: i32,
}

/// Everything that baking an atlas takes: the calls before the glyphs are
/// drawn, what to draw for each glyph, the calls after, and the atlas that
/// results.
pub struct FontMapBuild {
    /// Makes the atlas the render target and clears it.
    pub before: Vec<GlCall>,
    /// The glyphs, in the order of the character set. Each is uploaded as a
    /// texture of its own and then drawn by the calls of
    /// `FontMapper::draw_glyph`, one glyph after the other.
    pub draws: Vec<GlyphDraw>,
    /// Returns to the window and releases the render target.
    pub after: Vec<GlCall>,
    /// The finished atlas.
    pub map: FontMap,
}

/// Bakes font atlases.
pub struct FontMapper {
    program: Program,
    vao: VertexArray,
    buffer: Buffer,
    uniforms: FontMapperUniforms,
    chars: Vec<char>,
    window_size: (i32, i32),
}

impl FontMapper {
    #[verifier::type_invariant]
    spec fn inv(self) -> bool {
        self.chars@ == CHAR_SET@ && self.chars@.len() == 63
    }

    pub closed spec fn spec_program(&self) -> Program {
        self.program
    }

    pub closed spec fn spec_vao(&self) -> VertexArray {
        self.vao
    }

    pub closed spec fn spec_buffer(&self) -> Buffer {
        self.buffer
    }

    pub closed spec fn spec_uniforms(&self) -> FontMapperUniforms {
        self.uniforms
    }

    pub closed spec fn spec_window_size(&self) -> (i32, i32) {
        self.window_size
    }

    /// The characters that are baked, in the order of their cells.
    pub closed spec fn spec_chars(&self) -> Seq<char> {
        self.chars@
    }

    /// A mapper that draws with `program` the strip held by `vao` and
    /// `buffer`, for a window of the given size.
    pub fn new(
        program: Program,
        vao: VertexArray,
        buffer: Buffer,
        uniforms: FontMapperUniforms,
        window_width: i32,
        window_height: i32,
    ) -> (mapper: Self)
        ensures
            mapper.spec_program() == program,
            mapper.spec_vao() == vao,
            mapper.spec_buffer() == buffer,
            mapper.spec_uniforms() == uniforms,
            mapper.spec_window_size() == (window_width, window_height),
            mapper.spec_chars() == CHAR_SET@,
    {
        let mut chars: Vec<char> = Vec::new();
        proof {
            reveal_strlit("abcdefghijklmnopqrstuvwxyzABCDEFGHIJKLMNOPQRSTUVWXYZ0123456789.");
            assert(CHAR_SET@.take(0) =~= Seq::empty());
        }
        for c in it: CHAR_SET.chars()
            invariant
                it.seq() == CHAR_SET@,
                chars@ == CHAR_SET@.take(it.index() as int),
        {
            chars.push(c);
            assert(chars@ =~= CHAR_SET@.take(it.index() + 1));
        }
        proof {
            assert(CHAR_SET@.take(CHAR_SET@.len() as int) =~= CHAR_SET@);
        }
        FontMapper {
            program,
            vao,
            buffer,
            uniforms,
            chars,
            window_size: (window_width, window_height),
        }
    }

    /// The characters that are baked, in the order of their cells.
    pub fn chars(&self) -> (chars: &Vec<char>)
        ensures
            chars@ == self.spec_chars(),
            chars@ == CHAR_SET@,
    {
        proof {
            use_type_invariant(self);
        }
        &self.chars
    }

    /// Uniform locations of the program that draws the glyphs.
    pub fn uniforms(&self) -> (uniforms: FontMapperUniforms)
        ensures
            uniforms == self.spec_uniforms(),
    {
        self.uniforms
    }

    /// The calls that make the atlas the render target and clear it.
    pub open spec fn before_calls(&self, framebuffer: TextureFramebuffer) -> Seq<GlCall> {
        framebuffer.bind_calls() + self.spec_program().bind_calls() + self.spec_vao().bind_calls()
            + seq![GlCall::ClearColor { color: [0u32, 0u32, 0u32, 0u32] }, GlCall::ClearColorBuffer]
    }

    /// The calls that return to the window and release the render target.
    pub open spec fn after_calls(framebuffer: TextureFramebuffer) -> Seq<GlCall> {
        framebuffer.bind_default_calls() + framebuffer.drop_calls()
    }

    /// The calls that draw one glyph onto the atlas and release it.
    ///
    /// `texture` holds the glyph's bitmap and is the texture in use, as it
    /// is once the bitmap was uploaded. The glyph's size and offset are set,
    /// the strip of `NUM_VERTEX` vertices is drawn once, and the texture is
    /// deleted.
    pub open spec fn glyph_calls(&self, draw: GlyphDraw, texture: Texture) -> Seq<GlCall> {
        seq![
            GlCall::Uniform2fv { location: self.spec_uniforms().char_size, value: draw.char_size },
            GlCall::Uniform2fv { location: self.spec_uniforms().offset, value: draw.offset },
            GlCall::DrawArrays { mode: DrawType::TriangleStrip, first: 0, count: NUM_VERTEX },
            GlCall::DeleteTexture { texture: texture.id },
        ]
    }

    /// Records the calls that draw one glyph onto the atlas and release it.
    /// `texture` is the texture that the glyph's bitmap was uploaded to.
    pub fn draw_glyph(&self, draw: &GlyphDraw, texture: &Texture, gpu: &mut Vec<GlCall>)
        ensures
            final(gpu)@ == old(gpu)@ + self.glyph_calls(*draw, *texture),
    {
        gpu.push(GlCall::Uniform2fv { location: self.uniforms.char_size, value: draw.char_size });
        gpu.push(GlCall::Uniform2fv { location: self.uniforms.offset, value: draw.offset });
        gpu.push(GlCall::DrawArrays { mode: DrawType::TriangleStrip, first: 0, count: NUM_VERTEX });
        texture.drop(gpu);
        assert(gpu@ =~= old(gpu)@ + self.glyph_calls(*draw, *texture));
    }

    /// Whether `glyphs` can be baked: there is one for each character, and
    /// each has a bitmap of its size.
    pub open spec fn bakes(&self, glyphs: Seq<Glyph>) -> bool {
        &&& glyphs.len() == self.spec_chars().len()
        &&& forall|i: int| 0 <= i < glyphs.len() ==> (#[trigger] glyphs[i]).valid()
    }

    /// Lays the rasterized glyphs of the character set out on the atlas.
    ///
    /// `glyphs[i]` is the glyph of the `i`-th character, `framebuffer` the
    /// render target whose texture becomes the atlas. Returns `None` unless
    /// `glyphs` can be baked.
    pub fn gen_font_map(&self, glyphs: &Vec<Glyph>, framebuffer: &TextureFramebuffer) -> (r: Option<
        FontMapBuild,
    >)
        ensures
            r is Some <==> self.bakes(glyphs@),
            r matches Some(build) ==> {
                &&& build.before@ == self.before_calls(*framebuffer)
                &&& build.after@ == Self::after_calls(*framebuffer)
                &&& build.draws@.len() == self.spec_chars().len()
                &&& forall|i: int|
                    0 <= i < build.draws@.len() ==> (#[trigger] build.draws@[i]).draws(i, glyphs@[i])
                &&& build.map.spec_texture() == framebuffer.texture
                &&& build.map.spec_verts() == atlas_verts(glyphs@, glyphs@.len())
                &&& build.map.spec_verts().len() == VERT_PER_CHAR * self.spec_chars().len()
                &&& build.map.symmetric()
                &&& forall|c: char| #[trigger]
                    build.map.index(c) == match last_index_of(self.spec_chars(), c) {
                        Some(i) => Some(VERT_PER_CHAR * i),
                        None => None,
                    }
            },
    {
        proof {
            use_type_invariant(self);
        }
        if glyphs.len() != self.chars.len() {
            return None;
        }
        let mut before: Vec<GlCall> = Vec::new();
        framebuffer.bind(&mut before);
        self.program.bind(&mut before);
        self.vao.bind(&mut before);
        before.push(GlCall::ClearColor { color: [0u32, 0u32, 0u32, 0u32] });
        before.push(GlCall::ClearColorBuffer);
        assert(before@ =~= self.before_calls(*framebuffer));

        let edge: i32 = FONT_SIZE / 2;
        let row_height: i32 = FONT_SIZE * 5 / 4;
        let char_per_row: i32 = MAP_WIDTH / FONT_SIZE;
        let descent: i32 = edge / 2;

        let mut vertices: Vec<BitmapVert> = Vec::new();
        let mut draws: Vec<GlyphDraw> = Vec::new();
        let mut i: usize = 0;
        while i < glyphs.len()
            invariant
                i <= glyphs@.len(),
                glyphs@.len() == 63,
                edge == margin(),
                row_height == line_height(),
                char_per_row == chars_per_row(),
                descent == avg_alignment(),
                forall|k: int| 0 <= k < i ==> (#[trigger] glyphs@[k]).valid(),
                draws@.len() == i,
                forall|k: int| 0 <= k < i ==> (#[trigger] draws@[k]).draws(k, glyphs@[k]),
                vertices@ == atlas_verts(glyphs@, i as nat),
                vertices@.len() == VERT_PER_CHAR * i,
            decreases glyphs@.len() - i,
        {
            let glyph = &glyphs[i];
            assert(edge == 180 && row_height == 450 && char_per_row == 34 && descent == 90);
            assert(glyph.width * glyph.height <= 0xffff * 0xffff) by (nonlinear_arith)
                requires
                    0 <= glyph.width <= 0xffff,
                    0 <= glyph.height <= 0xffff,
            ;
            let pixels: u64 = glyph.width as u64 * glyph.height as u64;
            if glyph.bitmap.len() as u64 != pixels {
                return None;
            }
            let index = i as i32;
            let grid_x: i32 = (index % char_per_row) * FONT_SIZE + edge;
            let grid_y: i32 = (index / char_per_row) * row_height + edge;
            let char_alignment = third(glyph.ymin);
            let char_size: (i32, i32) = (
                glyph.width as i32 * PIXEL / FONT_SUPERSAMPLE,
                glyph.height as i32 * PIXEL / FONT_SUPERSAMPLE,
            );
            draws.push(
                GlyphDraw {
                    rgba: rgba_from_bytes(&glyph.bitmap),
                    width: glyph.width as i32,
                    height: glyph.height as i32,
                    char_size,
                    offset: (grid_x, grid_y + char_alignment),
                },
            );

            let w2 = char_size.0 / 2;
            let h2 = row_height / 2;
            let tpx = grid_x + w2;
            let tnx = grid_x - w2;
            let tpy = grid_y + h2 + descent;
            let tny = grid_y - h2 + descent;
            let mut quad = get_quad(char_size.0, row_height, tpx, tnx, tpy, tny);
            vertices.append(&mut quad);
            i += 1;
        }
        let mut after: Vec<GlCall> = Vec::new();
        framebuffer.bind_default(&mut after);
        framebuffer.drop(&mut after);
        assert(after@ =~= Self::after_calls(*framebuffer));

        match FontMap::new(framebuffer.texture, vertices, &self.chars) {
            Some(map) => {
                proof {
                    assert forall|c: char| (#[trigger] map.index(c)) is Some implies {
                        let q = map.index(c)->0;
                        let w = map.spec_verts()[q].position.0;
                        &&& 0 <= q
                        &&& q + VERT_PER_CHAR <= map.spec_verts().len()
                        &&& w >= 0
                        &&& map.spec_verts()[q + 1].position.0 == -w
                        &&& forall|j: int|
                            0 <= j < VERT_PER_CHAR ==> -w <= (#[trigger] map.spec_verts()[q
                                + j]).position.0 <= w
                    } by {
                        lemma_last_index_of(self.chars@, c);
                        if map.index(c) is Some {
                            let at = last_index_of(self.chars@, c)->0;
                            assert(map.index(c)->0 == VERT_PER_CHAR * at);
                            lemma_atlas_verts_index(glyphs@, glyphs@.len(), at, 0);
                            lemma_atlas_verts_index(glyphs@, glyphs@.len(), at, 1);
                            lemma_atlas_verts_index(glyphs@, glyphs@.len(), at, 2);
                            lemma_atlas_verts_index(glyphs@, glyphs@.len(), at, 3);
                            lemma_atlas_verts_index(glyphs@, glyphs@.len(), at, 4);
                            lemma_atlas_verts_index(glyphs@, glyphs@.len(), at, 5);
                        }
                    }
                }
                Some(FontMapBuild { before, draws, after, map })
            },
            None => None,
        }
    }

    /// Wraps the render target of an atlas. `id` names the framebuffer,
    /// `texture` the texture of the atlas's size that it draws into, and
    /// `complete` is what its completeness check reported.
    pub fn new_tex_fb(&self, id: u32, texture: Texture, complete: bool) -> (r: Result<
        TextureFramebuffer,
        FontMapperError,
    >)
        ensures
            complete ==> r == Ok::<TextureFramebuffer, FontMapperError>(
                TextureFramebuffer {
                    id,
                    texture,
                    width: (MAP_WIDTH / PIXEL) as i32,
                    height: (MAP_HEIGHT / PIXEL) as i32,
                    window_width: self.spec_window_size().0,
                    window_height: self.spec_window_size().1,
                },
            ),
            !complete ==> r == Err::<TextureFramebuffer, FontMapperError>(
                FontMapperError::Framebuffer(FramebufferError::CreationError),
            ),
    {
        match TextureFramebuffer::new(
            id,
            texture,
            complete,
            MAP_WIDTH / PIXEL,
            MAP_HEIGHT / PIXEL,
            self.window_size.0,
            self.window_size.1,
        ) {
            Ok(framebuffer) => Ok(framebuffer),
            Err(e) => Err(FontMapperError::Framebuffer(e)),
        }
    }

    /// What a font parser's answer means for the mapper: the font, or the
    /// parser's message as a font error.
    pub fn font_result<F>(parsed: Result<F, String>) -> (r: Result<F, FontMapperError>)
        ensures
            match parsed {
                Ok(font) => r == Ok::<F, FontMapperError>(font),
                Err(message) => r == Err::<F, FontMapperError>(FontMapperError::Font(message)),
            },
    {
        match parsed {
            Ok(font) => Ok(font),
            Err(message) => Err(FontMapperError::Font(message)),
        }
    }
}

impl Drop for FontMapper {
    open spec fn drop_calls(&self) -> Seq<GlCall> {
        self.spec_program().drop_calls() + self.spec_vao().drop_calls()
            + self.spec_buffer().drop_calls()
    }

    fn drop(&self, gpu: &mut Vec<GlCall>) {
        self.program.drop(gpu);
        self.vao.drop(gpu);
        self.buffer.drop(gpu);
        assert(gpu@ =~= old(gpu)@ + self.drop_calls());
    }
}

} // verus!
