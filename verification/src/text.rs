//! Text layout: from a label and an anchor to positioned glyph quads.

use vstd::prelude::*;
use std::collections::HashMap;
use crate::gl_wrap::{Drop, GlCall, Texture};
use crate::vertices::{bmp_to_text_vert, text_vert, BitmapVert, TextVert};

verus! {

/// Vertices per glyph: two triangles that form a quad.
pub const VERT_PER_CHAR: usize = 6;

/// The font that labels are set in unless another is chosen.
pub const DEFAULT_FONT: &'static str = "./resources/Ubuntu-Regular.ttf";

/// The size at which glyphs are baked into the atlas: 30 pixels.
pub const FONT_SIZE: i32 = 360;

/// The longest label that can be part of a scene, in characters. The
/// vertices of three such labels can be counted in 32 bits.
pub const MAX_LABEL_LEN: usize = 0x400_0000;

/// Why a label could not be laid out.
#[derive(Clone, Copy, Debug, PartialEq, Eq)]
pub enum FontMapError {
    /// The label holds a character that the atlas does not.
    Character(char),
}

/// How labels are set.
#[derive(Clone, Debug, PartialEq, Eq)]
pub struct TextParams {
    /// Path of the font file.
    pub font: String,
    /// Font size, which is also the width of a space.
    pub size: i32,
    /// Extra distance between neighbouring characters; negative to tighten.
    pub kearning: i32,
}

impl TextParams {
    /// The default font at the size of the atlas, with no extra spacing.
    pub fn new() -> (params: Self)
        ensures
            params.font@ == DEFAULT_FONT@,
            params.size == FONT_SIZE,
            params.kearning == 0,
    {
        TextParams { font: DEFAULT_FONT.to_string(), size: FONT_SIZE, kearning: 0 }
    }
}

/// `vert`, moved by `dx` along the line of text.
pub open spec fn shifted(vert: TextVert, dx: int) -> TextVert {
    TextVert {
        position: vert.position,
        offset: ((vert.offset.0 + dx) as i128, vert.offset.1),
        texcoord: vert.texcoord,
    }
}

/// The index in `chars` of the last occurrence of `c`.
pub open spec fn last_index_of(chars: Seq<char>, c: char) -> Option<int>
    decreases chars.len(),
{
    if chars.len() == 0 {
        None
    } else if chars.last() == c {
        Some(chars.len() - 1)
    } else {
        last_index_of(chars.drop_last(), c)
    }
}

/// A font atlas: the texture that holds the glyphs, the quad of each glyph,
/// and where the quad of each character starts.
pub struct FontMap {
    texture: Texture,
    verts: Vec<BitmapVert>,
    inds: HashMap<u32, usize>,
}

impl FontMap {
    #[verifier::type_invariant]
    spec fn inv(self) -> bool {
        forall|k: u32| #[trigger]
            self.inds@.contains_key(k) ==> self.inds@[k] + VERT_PER_CHAR <= self.verts@.len()
    }

    /// The texture that holds the glyphs.
    pub closed spec fn spec_texture(&self) -> Texture {
        self.texture
    }

    /// The quads of all glyphs, six vertices each.
    pub closed spec fn spec_verts(&self) -> Seq<BitmapVert> {
        self.verts@
    }

    /// Where the quad of `c` starts among the vertices, if the atlas holds `c`.
    pub closed spec fn index(&self, c: char) -> Option<int> {
        if self.inds@.contains_key(c as u32) {
            Some(self.inds@[c as u32] as int)
        } else {
            None
        }
    }

    /// An atlas that holds the glyphs of `chars`: the quad of `chars[i]` is
    /// `verts[6 * i..6 * i + 6]`. `None` unless there are six vertices for
    /// each character.
    pub fn new(texture: Texture, verts: Vec<BitmapVert>, chars: &Vec<char>) -> (r: Option<Self>)
        ensures
            r is Some <==> verts@.len() == VERT_PER_CHAR * chars@.len(),
            r matches Some(map) ==> {
                &&& map.spec_texture() == texture
                &&& map.spec_verts() == verts@
                &&& forall|c: char| #[trigger]
                    map.index(c) == match last_index_of(chars@, c) {
                        Some(i) => Some(VERT_PER_CHAR * i),
                        None => None,
                    }
            },
    {
        let len = verts.len();
        if chars.len() > usize::MAX / VERT_PER_CHAR || len != VERT_PER_CHAR * chars.len() {
            return None;
        }
        let mut inds: HashMap<u32, usize> = HashMap::new();
        let mut i: usize = 0;
        proof {
            assert(chars@.take(0) =~= Seq::empty());
        }
        while i < chars.len()
            invariant
                i <= chars@.len(),
                chars@.len() <= usize::MAX / VERT_PER_CHAR,
                verts@.len() == VERT_PER_CHAR * chars@.len(),
                forall|c: char|
                    match #[trigger] last_index_of(chars@.take(i as int), c) {
                        Some(j) => 0 <= j < i && inds@.contains_key(c as u32) && inds@[c as u32]
                            == VERT_PER_CHAR * j,
                        None => !inds@.contains_key(c as u32),
                    },
                forall|k: u32| #[trigger]
                    inds@.contains_key(k) ==> inds@[k] + VERT_PER_CHAR <= verts@.len(),
            decreases chars@.len() - i,
        {
            inds.insert(chars[i] as u32, VERT_PER_CHAR * i);
            proof {
                let ci = chars@[i as int];
                assert(chars@.take(i + 1).drop_last() =~= chars@.take(i as int));
                assert(chars@.take(i + 1).last() == ci);
                assert forall|c: char|
                    match #[trigger] last_index_of(chars@.take(i + 1), c) {
                        Some(j) => 0 <= j < i + 1 && inds@.contains_key(c as u32) && inds@[c as u32]
                            == VERT_PER_CHAR * j,
                        None => !inds@.contains_key(c as u32),
                    } by {
                    if c != ci {
                        assert(last_index_of(chars@.take(i + 1), c) == last_index_of(
                            chars@.take(i as int),
                            c,
                        ));
                        if c as u32 == ci as u32 {
                            vstd::utf8::char_u32_cast(c, c as u32);
                            vstd::utf8::char_u32_cast(ci, c as u32);
                        }
                    }
                }
            }
            i += 1;
        }
        proof {
            assert(chars@.take(i as int) =~= chars@);
        }
        Some(FontMap { texture, verts, inds })
    }

    /// The texture that holds the glyphs.
    pub fn texture(&self) -> (t: Texture)
        ensures
            t == self.spec_texture(),
    {
        self.texture
    }

    /// The quads of all glyphs, six vertices each.
    pub fn verts(&self) -> (v: &Vec<BitmapVert>)
        ensures
            v@ == self.spec_verts(),
    {
        &self.verts
    }

    /// Where the quad of `c` starts among the vertices, if the atlas holds `c`.
    pub fn get_index(&self, c: char) -> (r: Option<usize>)
        ensures
            match r {
                Some(i) => self.index(c) == Some(i as int) && i + VERT_PER_CHAR <= self.spec_verts().len(),
                None => self.index(c) is None,
            },
    {
        proof {
            use_type_invariant(self);
        }
        match self.inds.get(&(c as u32)) {
            Some(i) => Some(*i),
            None => None,
        }
    }
}

impl Drop for FontMap {
    open spec fn drop_calls(&self) -> Seq<GlCall> {
        self.spec_texture().drop_calls()
    }

    fn drop(&self, gpu: &mut Vec<GlCall>) {
        self.texture.drop(gpu);
    }
}

/// How far the line of text can move for one character, in either direction.
pub open spec fn advance_bound() -> int {
    0x2_0000_0000
}

/// The number of characters of `label` that are not spaces.
pub open spec fn glyph_count(label: Seq<char>) -> nat
    decreases label.len(),
{
    if label.len() == 0 {
        0
    } else if label.last() == ' ' {
        glyph_count(label.drop_last())
    } else {
        glyph_count(label.drop_last()) + 1
    }
}

impl FontMap {
    /// Whether `c` can stand in a label: it is a space, or the atlas holds it.
    pub open spec fn supports(&self, c: char) -> bool {
        c == ' ' || self.index(c) is Some
    }

    /// The first character of `label` that cannot stand in a label.
    pub open spec fn first_unsupported(&self, label: Seq<char>) -> Option<char>
        decreases label.len(),
    {
        if label.len() == 0 {
            None
        } else {
            match self.first_unsupported(label.drop_last()) {
                Some(c) => Some(c),
                None => if self.supports(label.last()) {
                    None
                } else {
                    Some(label.last())
                },
            }
        }
    }

    /// Half the width that `c` takes in a line: the x-coordinate of the first
    /// vertex of its quad, and the extra spacing.
    pub open spec fn char_spacing(&self, c: char, params: &TextParams) -> int {
        self.spec_verts()[self.index(c)->0].position.0 + params.kearning
    }

    /// How far `c` moves the line on: a space by the font size, any other
    /// character by twice its spacing.
    pub open spec fn advance(&self, c: char, params: &TextParams) -> int {
        if c == ' ' {
            params.size as int
        } else {
            2 * self.char_spacing(c, params)
        }
    }

    /// The width of `label` when set in a line.
    pub open spec fn width(&self, label: Seq<char>, params: &TextParams) -> int
        decreases label.len(),
    {
        if label.len() == 0 {
            0
        } else {
            self.width(label.drop_last(), params) + self.advance(label.last(), params)
        }
    }

    /// The quad of `c`, anchored at `position`, its centre `x` along the line.
    pub open spec fn glyph(&self, c: char, position: (i64, i64, i64), x: int) -> Seq<TextVert> {
        Seq::new(
            VERT_PER_CHAR as nat,
            |j: int| shifted(text_vert(self.spec_verts()[self.index(c)->0 + j], position), x),
        )
    }

    /// The quads of `label` set in a line that starts at the anchor: the
    /// centre of each glyph lies its spacing behind the end of what precedes
    /// it. Spaces take room and have no quad.
    pub open spec fn placed(
        &self,
        label: Seq<char>,
        params: &TextParams,
        position: (i64, i64, i64),
    ) -> Seq<TextVert>
        decreases label.len(),
    {
        if label.len() == 0 {
            Seq::empty()
        } else if label.last() == ' ' {
            self.placed(label.drop_last(), params, position)
        } else {
            self.placed(label.drop_last(), params, position) + self.glyph(
                label.last(),
                position,
                self.width(label.drop_last(), params) + self.char_spacing(label.last(), params),
            )
        }
    }

    /// The quads of `label`, centred about the anchor: the line of `placed`,
    /// moved back by half its width, rounded down.
    pub open spec fn layout(
        &self,
        label: Seq<char>,
        params: &TextParams,
        position: (i64, i64, i64),
    ) -> Seq<TextVert> {
        self.placed(label, params, position).map_values(
            |v: TextVert| shifted(v, -(self.width(label, params) / 2)),
        )
    }

    /// The outcome of laying `label` out: the error that names its first
    /// unsupported character, or else its layout.
    pub open spec fn try_layout(
        &self,
        label: Seq<char>,
        params: &TextParams,
        position: (i64, i64, i64),
    ) -> Result<Seq<TextVert>, FontMapError> {
        match self.first_unsupported(label) {
            Some(c) => Err(FontMapError::Character(c)),
            None => Ok(self.layout(label, params, position)),
        }
    }

    /// Whether `r` is what `get_verts` returns for a label.
    pub open spec fn laid_out(
        &self,
        label: Seq<char>,
        params: &TextParams,
        position: (i64, i64, i64),
        r: Result<Vec<TextVert>, FontMapError>,
    ) -> bool {
        match self.try_layout(label, params, position) {
            Err(e) => r == Err::<Vec<TextVert>, FontMapError>(e),
            Ok(verts) => r is Ok && r->Ok_0@ == verts,
        }
    }

    /// Lays `label` out in a line and centres it about `position`.
    ///
    /// Fails on the first character that is neither a space nor in the atlas,
    /// and then returns no vertex at all.
    pub fn get_verts(&self, label: &str, params: &TextParams, position: (i64, i64, i64)) -> (r:
        Result<Vec<TextVert>, FontMapError>)
        ensures
            self.laid_out(label@, params, position, r),
            r matches Ok(verts) ==> verts@.len() == VERT_PER_CHAR * glyph_count(label@),
    {
        let mut chars: Vec<char> = Vec::new();
        proof {
            assert(label@.take(0) =~= Seq::empty());
        }
        for c in it: label.chars()
            invariant
                it.seq() == label@,
                chars@ == label@.take(it.index() as int),
        {
            chars.push(c);
            assert(chars@ =~= label@.take(it.index() + 1));
        }
        proof {
            assert(label@.take(label@.len() as int) =~= label@);
        }
        self.lay_out(&chars, params, position)
    }

    /// Lays the characters of `label` out in a line and centres it about
    /// `position`, as `get_verts` does for a string.
    pub fn lay_out(&self, label: &Vec<char>, params: &TextParams, position: (i64, i64, i64)) -> (r:
        Result<Vec<TextVert>, FontMapError>)
        ensures
            self.laid_out(label@, params, position, r),
            r matches Ok(verts) ==> verts@.len() == VERT_PER_CHAR * glyph_count(label@),
    {
        let mut vertices: Vec<TextVert> = Vec::new();
        let mut offset: i128 = 0;
        proof {
            use_type_invariant(self);
            assert(label@.take(0) =~= Seq::empty());
        }
        let total = self.verts.len();
        let mut n: usize = 0;
        while n < label.len()
            invariant
                n <= label@.len(),
                total == self.verts@.len(),
                forall|k: u32| #[trigger]
                    self.inds@.contains_key(k) ==> self.inds@[k] + VERT_PER_CHAR
                        <= self.verts@.len(),
                self.first_unsupported(label@.take(n as int)) is None,
                vertices@ == self.placed(label@.take(n as int), params, position),
                vertices@.len() == VERT_PER_CHAR * glyph_count(label@.take(n as int)),
                offset == self.width(label@.take(n as int), params),
                -n * advance_bound() <= offset <= n * advance_bound(),
                forall|j: int|
                    0 <= j < vertices@.len() ==> -0x4_0000_0000_0000_0000_0000_0000 <= (
                    #[trigger] vertices@[j]).offset.0 <= 0x4_0000_0000_0000_0000_0000_0000,
            decreases label@.len() - n,
        {
            let c = label[n];
            let ghost i = n as int;
            proof {
                assert(label@.take(i + 1).drop_last() =~= label@.take(i));
                assert(label@.take(i + 1).last() == c);
            }
            if c == ' ' {
                offset = offset + params.size as i128;
            } else {
                let vert_ind = match self.get_index(c) {
                    Some(ind) => ind,
                    None => {
                        proof {
                            self.lemma_unsupported_prefix(label@, i + 1);
                        }
                        return Err(FontMapError::Character(c));
                    },
                };
                let char_spacing = self.verts[vert_ind].position.0 as i128 + params.kearning as i128;
                offset = offset + char_spacing;
                let ghost quad = self.glyph(c, position, offset as int);
                let ghost placed = vertices@;
                let mut j: usize = 0;
                while j < VERT_PER_CHAR
                    invariant
                        j <= VERT_PER_CHAR,
                        vert_ind + VERT_PER_CHAR <= total,
                        total == self.verts@.len(),
                        self.index(c) == Some(vert_ind as int),
                        quad == self.glyph(c, position, offset as int),
                        -0x2_0000_0000_0000_0000_0000_0000 <= offset
                            <= 0x2_0000_0000_0000_0000_0000_0000,
                        vertices@ == placed + quad.take(j as int),
                        forall|j: int|
                            0 <= j < vertices@.len() ==> -0x4_0000_0000_0000_0000_0000_0000 <= (
                            #[trigger] vertices@[j]).offset.0 <= 0x4_0000_0000_0000_0000_0000_0000,
                    decreases VERT_PER_CHAR - j,
                {
                    let vert = bmp_to_text_vert(self.verts[vert_ind + j], position);
                    vertices.push(
                        TextVert {
                            position: vert.position,
                            offset: (vert.offset.0 + offset, vert.offset.1),
                            texcoord: vert.texcoord,
                        },
                    );
                    assert(vertices@ =~= placed + quad.take(j + 1));
                    j += 1;
                }
                proof {
                    assert(quad.take(VERT_PER_CHAR as int) =~= quad);
                }
                offset = offset + char_spacing;
            }
            n += 1;
        }
        proof {
            assert(label@.take(label@.len() as int) =~= label@);
        }
        let mid_width = half_wide(offset);
        let ghost placed = vertices@;
        let mut k: usize = 0;
        while k < vertices.len()
            invariant
                k <= vertices@.len(),
                vertices@.len() == placed.len(),
                -0x2_0000_0000_0000_0000_0000_0000 <= mid_width
                    <= 0x2_0000_0000_0000_0000_0000_0000,
                forall|j: int|
                    0 <= j < placed.len() ==> -0x4_0000_0000_0000_0000_0000_0000 <= (#[trigger] placed[j]).offset.0
                        <= 0x4_0000_0000_0000_0000_0000_0000,
                forall|j: int| 0 <= j < k ==> vertices@[j] == shifted(placed[j], -mid_width),
                forall|j: int| k <= j < vertices@.len() ==> vertices@[j] == placed[j],
            decreases vertices@.len() - k,
        {
            let vert = vertices[k];
            assert(vert == placed[k as int]);
            vertices.set(
                k,
                TextVert {
                    position: vert.position,
                    offset: (vert.offset.0 - mid_width, vert.offset.1),
                    texcoord: vert.texcoord,
                },
            );
            k += 1;
        }
        assert(vertices@ =~= self.layout(label@, params, position));
        Ok(vertices)
    }

    /// An unsupported character among the first `n` of a label is the first
    /// unsupported character of the whole label.
    pub proof fn lemma_unsupported_prefix(&self, label: Seq<char>, n: int)
        requires
            0 <= n <= label.len(),
            self.first_unsupported(label.take(n)) is Some,
        ensures
            self.first_unsupported(label) == self.first_unsupported(label.take(n)),
        decreases label.len() - n,
    {
        if n < label.len() {
            assert(label.take(n + 1).drop_last() =~= label.take(n));
            self.lemma_unsupported_prefix(label, n + 1);
        } else {
            assert(label.take(n) =~= label);
        }
    }
}

/// A label has no more characters that are not spaces than it has
/// characters.
pub proof fn lemma_glyph_count_bound(label: Seq<char>)
    ensures
        glyph_count(label) <= label.len(),
    decreases label.len(),
{
    if label.len() > 0 {
        lemma_glyph_count_bound(label.drop_last());
    }
}

/// A layout has six vertices for each character of the label that is not a
/// space.
pub proof fn lemma_layout_len(
    map: &FontMap,
    label: Seq<char>,
    params: &TextParams,
    position: (i64, i64, i64),
)
    ensures
        map.placed(label, params, position).len() == VERT_PER_CHAR * glyph_count(label),
        map.layout(label, params, position).len() == VERT_PER_CHAR * glyph_count(label),
    decreases label.len(),
{
    if label.len() > 0 {
        lemma_layout_len(map, label.drop_last(), params, position);
    }
}

/// Layout is a function of its inputs: whatever `get_verts` returns for one
/// label, one set of parameters and one anchor, it returns every time.
pub proof fn lemma_layout_is_repeatable(
    map: &FontMap,
    label: Seq<char>,
    params: &TextParams,
    position: (i64, i64, i64),
    first: Result<Vec<TextVert>, FontMapError>,
    second: Result<Vec<TextVert>, FontMapError>,
)
    requires
        map.laid_out(label, params, position, first),
        map.laid_out(label, params, position, second),
    ensures
        match (first, second) {
            (Ok(a), Ok(b)) => a@ == b@,
            (Err(a), Err(b)) => a == b,
            _ => false,
        },
{
}

/// A label with an unsupported character has no layout: the error names the
/// first such character, and no vertex is returned.
pub proof fn lemma_unsupported_fails(
    map: &FontMap,
    label: Seq<char>,
    params: &TextParams,
    position: (i64, i64, i64),
    r: Result<Vec<TextVert>, FontMapError>,
    i: int,
)
    requires
        map.laid_out(label, params, position, r),
        0 <= i < label.len(),
        !map.supports(label[i]),
    ensures
        r is Err,
        r->Err_0 matches FontMapError::Character(c) && !map.supports(c),
    decreases label.len(),
{
    lemma_first_unsupported(map, label, i);
}

/// The first unsupported character of a label is one of its characters and
/// is unsupported; there is one as soon as any character is unsupported.
pub proof fn lemma_first_unsupported(map: &FontMap, label: Seq<char>, i: int)
    requires
        0 <= i < label.len(),
        !map.supports(label[i]),
    ensures
        map.first_unsupported(label) matches Some(c) && !map.supports(c),
    decreases label.len(),
{
    if i < label.len() - 1 {
        assert(label.drop_last()[i] == label[i]);
        lemma_first_unsupported(map, label.drop_last(), i);
    } else if map.first_unsupported(label.drop_last()) is Some {
        lemma_first_unsupported_is_unsupported(map, label.drop_last());
    }
}

proof fn lemma_first_unsupported_is_unsupported(map: &FontMap, label: Seq<char>)
    requires
        map.first_unsupported(label) is Some,
    ensures
        !map.supports(map.first_unsupported(label)->0),
    decreases label.len(),
{
    if label.len() > 0 && map.first_unsupported(label.drop_last()) is Some {
        lemma_first_unsupported_is_unsupported(map, label.drop_last());
    }
}

/// The number of spaces that `label` starts with.
pub open spec fn leading_spaces(label: Seq<char>) -> nat
    decreases label.len(),
{
    if label.len() == 0 {
        0
    } else if leading_spaces(label.drop_last()) == label.len() - 1 && label.last() == ' ' {
        leading_spaces(label.drop_last()) + 1
    } else {
        leading_spaces(label.drop_last())
    }
}

/// The number of spaces that `label` ends with.
pub open spec fn trailing_spaces(label: Seq<char>) -> nat
    decreases label.len(),
{
    if label.len() == 0 {
        0
    } else if label.last() == ' ' {
        trailing_spaces(label.drop_last()) + 1
    } else {
        0
    }
}

/// The room that the spaces take that `label` starts with, each `size` wide.
pub open spec fn leading_width(label: Seq<char>, size: int) -> int
    decreases label.len(),
{
    if label.len() == 0 {
        0
    } else if leading_spaces(label.drop_last()) == label.len() - 1 && label.last() == ' ' {
        leading_width(label.drop_last(), size) + size
    } else {
        leading_width(label.drop_last(), size)
    }
}

/// The room that the spaces take that `label` ends with, each `size` wide.
pub open spec fn trailing_width(label: Seq<char>, size: int) -> int
    decreases label.len(),
{
    if label.len() == 0 {
        0
    } else if label.last() == ' ' {
        trailing_width(label.drop_last(), size) + size
    } else {
        0
    }
}

/// Spaces take their number times their width.
pub proof fn lemma_spaces_width(label: Seq<char>, size: int)
    ensures
        leading_width(label, size) == leading_spaces(label) * size,
        trailing_width(label, size) == trailing_spaces(label) * size,
    decreases label.len(),
{
    if label.len() > 0 {
        lemma_spaces_width(label.drop_last(), size);
        let lead = leading_spaces(label.drop_last()) as int;
        let trail = trailing_spaces(label.drop_last()) as int;
        assert((lead + 1) * size == lead * size + size) by (nonlinear_arith);
        assert((trail + 1) * size == trail * size + size) by (nonlinear_arith);
        assert(0 * size == 0) by (nonlinear_arith);
    } else {
        assert(0 * size == 0) by (nonlinear_arith);
    }
}

/// The smallest x-offset among `verts`.
pub open spec fn min_x(verts: Seq<TextVert>) -> int
    decreases verts.len(),
{
    if verts.len() == 0 {
        0
    } else if verts.len() == 1 {
        verts[0].offset.0 as int
    } else if verts.last().offset.0 < min_x(verts.drop_last()) {
        verts.last().offset.0 as int
    } else {
        min_x(verts.drop_last())
    }
}

/// The largest x-offset among `verts`.
pub open spec fn max_x(verts: Seq<TextVert>) -> int
    decreases verts.len(),
{
    if verts.len() == 0 {
        0
    } else if verts.len() == 1 {
        verts[0].offset.0 as int
    } else if verts.last().offset.0 > max_x(verts.drop_last()) {
        verts.last().offset.0 as int
    } else {
        max_x(verts.drop_last())
    }
}

proof fn lemma_min_x_is(verts: Seq<TextVert>, lo: int, at: int)
    requires
        0 <= at < verts.len(),
        verts[at].offset.0 == lo,
        forall|j: int| 0 <= j < verts.len() ==> (#[trigger] verts[j]).offset.0 >= lo,
    ensures
        min_x(verts) == lo,
    decreases verts.len(),
{
    if verts.len() > 1 {
        let init = verts.drop_last();
        assert forall|j: int| 0 <= j < init.len() implies (#[trigger] init[j]).offset.0 >= lo by {
            assert(init[j] == verts[j]);
        }
        if at < verts.len() - 1 {
            assert(init[at] == verts[at]);
            lemma_min_x_is(init, lo, at);
        } else {
            lemma_min_x_bounds(init, lo);
        }
    }
}

proof fn lemma_min_x_bounds(verts: Seq<TextVert>, lo: int)
    requires
        verts.len() > 0,
        forall|j: int| 0 <= j < verts.len() ==> (#[trigger] verts[j]).offset.0 >= lo,
    ensures
        min_x(verts) >= lo,
    decreases verts.len(),
{
    if verts.len() > 1 {
        let init = verts.drop_last();
        assert forall|j: int| 0 <= j < init.len() implies (#[trigger] init[j]).offset.0 >= lo by {
            assert(init[j] == verts[j]);
        }
        lemma_min_x_bounds(init, lo);
    }
}

proof fn lemma_max_x_is(verts: Seq<TextVert>, hi: int, at: int)
    requires
        0 <= at < verts.len(),
        verts[at].offset.0 == hi,
        forall|j: int| 0 <= j < verts.len() ==> (#[trigger] verts[j]).offset.0 <= hi,
    ensures
        max_x(verts) == hi,
    decreases verts.len(),
{
    if verts.len() > 1 {
        let init = verts.drop_last();
        assert forall|j: int| 0 <= j < init.len() implies (#[trigger] init[j]).offset.0 <= hi by {
            assert(init[j] == verts[j]);
        }
        if at < verts.len() - 1 {
            assert(init[at] == verts[at]);
            lemma_max_x_is(init, hi, at);
        } else {
            lemma_max_x_bounds(init, hi);
        }
    }
}

proof fn lemma_max_x_bounds(verts: Seq<TextVert>, hi: int)
    requires
        verts.len() > 0,
        forall|j: int| 0 <= j < verts.len() ==> (#[trigger] verts[j]).offset.0 <= hi,
    ensures
        max_x(verts) <= hi,
    decreases verts.len(),
{
    if verts.len() > 1 {
        let init = verts.drop_last();
        assert forall|j: int| 0 <= j < init.len() implies (#[trigger] init[j]).offset.0 <= hi by {
            assert(init[j] == verts[j]);
        }
        lemma_max_x_bounds(init, hi);
    }
}

impl FontMap {
    /// Every quad is as wide to the left of its centre as to the right: its
    /// first vertex lies at its right edge, its second at its left edge, and
    /// the others between them.
    pub open spec fn symmetric(&self) -> bool {
        forall|c: char|
            (#[trigger] self.index(c)) matches Some(i) ==> {
                let w = self.spec_verts()[i].position.0;
                &&& 0 <= i
                &&& i + VERT_PER_CHAR <= self.spec_verts().len()
                &&& w >= 0
                &&& self.spec_verts()[i + 1].position.0 == -w
                &&& forall|j: int|
                    0 <= j < VERT_PER_CHAR ==> -w <= (#[trigger] self.spec_verts()[i + j]).position.0
                        <= w
            }
    }

    /// What the centring law asks of a label: the atlas holds its
    /// characters, nothing moves the line backwards, and it starts with as
    /// many spaces as it ends with.
    pub open spec fn centrable(&self, label: Seq<char>, params: &TextParams) -> bool {
        &&& label.len() <= usize::MAX
        &&& self.first_unsupported(label) is None
        &&& self.forward(label, params)
        &&& leading_spaces(label) == trailing_spaces(label)
    }

    /// Nothing moves the line backwards: the font size is not negative, and
    /// neither is the spacing of any character of the label.
    pub open spec fn forward(&self, label: Seq<char>, params: &TextParams) -> bool {
        &&& params.size >= 0
        &&& forall|i: int|
            0 <= i < label.len() && label[i] != ' ' ==> self.char_spacing(
                #[trigger] label[i],
                params,
            ) >= 0
    }

    /// The forward condition of a label holds of the label without its last
    /// character, and so does support.
    proof fn lemma_front(&self, label: Seq<char>, params: &TextParams)
        requires
            label.len() > 0,
            self.first_unsupported(label) is None,
            self.forward(label, params),
        ensures
            self.first_unsupported(label.drop_last()) is None,
            self.forward(label.drop_last(), params),
            self.supports(label.last()),
            self.advance(label.last(), params) >= 0,
    {
        let init = label.drop_last();
        assert forall|i: int| 0 <= i < init.len() && init[i] != ' ' implies self.char_spacing(
            #[trigger] init[i],
            params,
        ) >= 0 by {
            assert(init[i] == label[i]);
        }
        assert(label[label.len() - 1] == label.last());
    }

    /// A width is not negative, no more than the label allows, and takes in
    /// the spaces the label starts with and those it ends with.
    proof fn lemma_width_range(&self, label: Seq<char>, params: &TextParams)
        requires
            self.first_unsupported(label) is None,
            self.forward(label, params),
        ensures
            0 <= leading_width(label, params.size as int) <= self.width(label, params),
            0 <= trailing_width(label, params.size as int) <= self.width(label, params),
            self.width(label, params) <= label.len() * advance_bound(),
        decreases label.len(),
    {
        if label.len() > 0 {
            self.lemma_front(label, params);
            self.lemma_width_range(label.drop_last(), params);
        }
    }

    /// A label without a glyph is all spaces, and only such a label is; its
    /// width is that of its spaces.
    proof fn lemma_all_spaces(&self, label: Seq<char>, params: &TextParams)
        ensures
            glyph_count(label) == 0 <==> leading_spaces(label) == label.len(),
            leading_spaces(label) <= label.len(),
            glyph_count(label) == 0 ==> self.width(label, params) == leading_width(
                label,
                params.size as int,
            ),
        decreases label.len(),
    {
        if label.len() > 0 {
            self.lemma_all_spaces(label.drop_last(), params);
        }
    }

    /// Every vertex of a line lies between the spaces the label starts with
    /// and the spaces it ends with, the extra spacing apart from either.
    proof fn lemma_placed_range(
        &self,
        label: Seq<char>,
        params: &TextParams,
        position: (i64, i64, i64),
    )
        requires
            self.symmetric(),
            label.len() <= usize::MAX,
            self.first_unsupported(label) is None,
            self.forward(label, params),
        ensures
            forall|j: int|
                0 <= j < self.placed(label, params, position).len() ==> leading_width(
                    label,
                    params.size as int,
                ) + params.kearning <= (#[trigger] self.placed(label, params, position)[j]).offset.0
                    <= self.width(label, params) - params.kearning - trailing_width(
                    label,
                    params.size as int,
                ),
        decreases label.len(),
    {
        if label.len() > 0 {
            let init = label.drop_last();
            let c = label.last();
            let size = params.size as int;
            let k = params.kearning as int;
            let all = self.placed(label, params, position);
            self.lemma_front(label, params);
            self.lemma_placed_range(init, params, position);
            self.lemma_width_range(init, params);
            self.lemma_width_range(label, params);
            self.lemma_all_spaces(init, params);
            lemma_layout_len(self, init, params, position);
            let lead = leading_width(init, size);
            if c == ' ' {
                assert(all == self.placed(init, params, position));
            } else {
                let i = self.index(c)->0;
                let w = self.spec_verts()[i].position.0;
                let center = self.width(init, params) + self.char_spacing(c, params);
                let quad = self.glyph(c, position, center);
                assert(all == self.placed(init, params, position) + quad);
                assert forall|j: int| 0 <= j < all.len() implies lead + k <= (
                #[trigger] all[j]).offset.0 <= self.width(label, params) - k by {
                    let before = self.placed(init, params, position).len();
                    if j >= before {
                        let q = j - before;
                        assert(all[j] == quad[q]);
                        assert(-w <= self.spec_verts()[i + q].position.0 <= w);
                    } else {
                        assert(all[j] == self.placed(init, params, position)[j]);
                    }
                }
            }
        }
    }

    /// The second vertex of a line is the left edge of its first glyph: it
    /// lies the extra spacing behind the spaces the label starts with.
    proof fn lemma_placed_first(
        &self,
        label: Seq<char>,
        params: &TextParams,
        position: (i64, i64, i64),
    )
        requires
            self.symmetric(),
            label.len() <= usize::MAX,
            self.first_unsupported(label) is None,
            self.forward(label, params),
            glyph_count(label) > 0,
        ensures
            self.placed(label, params, position).len() >= VERT_PER_CHAR,
            self.placed(label, params, position)[1].offset.0 == leading_width(
                label,
                params.size as int,
            ) + params.kearning,
        decreases label.len(),
    {
        let init = label.drop_last();
        let c = label.last();
        self.lemma_front(label, params);
        self.lemma_all_spaces(init, params);
        self.lemma_all_spaces(label, params);
        self.lemma_width_range(init, params);
        lemma_layout_len(self, init, params, position);
        if glyph_count(init) > 0 {
            self.lemma_placed_first(init, params, position);
            assert(self.placed(label, params, position)[1] == self.placed(
                init,
                params,
                position,
            )[1]);
        } else {
            let i = self.index(c)->0;
            let w = self.spec_verts()[i].position.0;
            let center = self.width(init, params) + self.char_spacing(c, params);
            let quad = self.glyph(c, position, center);
            assert(self.placed(init, params, position) =~= Seq::empty());
            assert(self.placed(label, params, position) =~= quad);
            assert(self.spec_verts()[i + 1].position.0 == -w);
        }
    }

    /// The first vertex of the last glyph of a line is its right edge: it
    /// lies the extra spacing before the spaces the label ends with.
    proof fn lemma_placed_last(
        &self,
        label: Seq<char>,
        params: &TextParams,
        position: (i64, i64, i64),
    )
        requires
            self.symmetric(),
            label.len() <= usize::MAX,
            self.first_unsupported(label) is None,
            self.forward(label, params),
            glyph_count(label) > 0,
        ensures
            self.placed(label, params, position).len() >= VERT_PER_CHAR,
            self.placed(label, params, position)[self.placed(label, params, position).len()
                - VERT_PER_CHAR].offset.0 == self.width(label, params) - params.kearning
                - trailing_width(label, params.size as int),
        decreases label.len(),
    {
        let init = label.drop_last();
        let c = label.last();
        let size = params.size as int;
        self.lemma_front(label, params);
        self.lemma_width_range(init, params);
        lemma_layout_len(self, init, params, position);
        lemma_layout_len(self, label, params, position);
        if c == ' ' {
            self.lemma_placed_last(init, params, position);
        } else {
            let center = self.width(init, params) + self.char_spacing(c, params);
            let quad = self.glyph(c, position, center);
            let all = self.placed(label, params, position);
            assert(all == self.placed(init, params, position) + quad);
            assert(all[all.len() - VERT_PER_CHAR] == quad[0]);
        }
    }

    /// A laid-out label is centred about its anchor: if nothing moves the
    /// line backwards and the label starts with as many spaces as it ends
    /// with, its leftmost and its rightmost vertex lie equally far from the
    /// anchor, up to the unit that halving an odd width loses.
    pub proof fn lemma_layout_is_centred(
        &self,
        label: Seq<char>,
        params: &TextParams,
        position: (i64, i64, i64),
    )
        requires
            self.symmetric(),
            self.centrable(label, params),
        ensures
            0 <= min_x(self.layout(label, params, position)) + max_x(
                self.layout(label, params, position),
            ) <= 1,
            glyph_count(label) > 0 ==> min_x(self.layout(label, params, position)) + max_x(
                self.layout(label, params, position),
            ) == self.width(label, params) % 2,
    {
        lemma_layout_len(self, label, params, position);
        if glyph_count(label) > 0 {
            let placed = self.placed(label, params, position);
            let laid = self.layout(label, params, position);
            let width = self.width(label, params);
            let mid = width / 2;
            let low = leading_width(label, params.size as int) + params.kearning;
            let high = width - params.kearning - trailing_width(label, params.size as int);
            lemma_spaces_width(label, params.size as int);
            self.lemma_width_range(label, params);
            self.lemma_placed_range(label, params, position);
            self.lemma_placed_first(label, params, position);
            self.lemma_placed_last(label, params, position);
            let at = placed.len() - VERT_PER_CHAR;
            assert forall|j: int| 0 <= j < laid.len() implies low - mid <= (
            #[trigger] laid[j]).offset.0 <= high - mid by {
                assert(laid[j] == shifted(placed[j], -mid));
            }
            assert(laid[1] == shifted(placed[1], -mid));
            assert(laid[at] == shifted(placed[at], -mid));
            lemma_min_x_is(laid, low - mid, 1);
            lemma_max_x_is(laid, high - mid, at);
        }
    }
}

/// In a label without an unsupported character, every character is
/// supported.
pub proof fn lemma_all_supported(map: &FontMap, label: Seq<char>, i: int)
    requires
        0 <= i < label.len(),
        map.first_unsupported(label) is None,
    ensures
        map.supports(label[i]),
{
    if !map.supports(label[i]) {
        lemma_first_unsupported(map, label, i);
    }
}

/// Half of `x`, rounded down.
fn half_wide(x: i128) -> (h: i128)
    requires
        -0x2_0000_0000_0000_0000_0000_0000 <= x <= 0x2_0000_0000_0000_0000_0000_0000,
    ensures
        h == x / 2,
{
    if x >= 0 {
        x / 2
    } else {
        -((1 - x) / 2)
    }
}

/// Half of `x`, rounded down.
pub(crate) fn half(x: i64) -> (h: i64)
    requires
        -0x4000_0000_0000_0000 <= x <= 0x4000_0000_0000_0000,
    ensures
        h == x / 2,
{
    if x >= 0 {
        x / 2
    } else {
        -((1 - x) / 2)
    }
}

} // verus!
