use plot3d::font_map::{
    get_quad, rgba_from_bytes, FontMapper, FontMapperError, FontMapperUniforms, Glyph, GlyphDraw,
    CHAR_SET, FONT_SUPERSAMPLE, MAP_HEIGHT, MAP_WIDTH, NUM_VERTEX,
};
use plot3d::gl_wrap::{
    Buffer, Drop, DrawType, FramebufferError, GlCall, Program, Texture, TextureFramebuffer,
    VertexArray,
};
use plot3d::vertices::{BitmapVert, PIXEL};

fn mapper() -> FontMapper {
    FontMapper::new(
        Program { id: 1 },
        VertexArray { id: 2 },
        Buffer { id: 3 },
        FontMapperUniforms { char_size: 4, offset: 5 },
        800,
        600,
    )
}

fn framebuffer() -> TextureFramebuffer {
    TextureFramebuffer::new(6, Texture { id: 7 }, true, 1024, 512, 800, 600).unwrap()
}

fn glyph(i: usize) -> Glyph {
    let width = 6 + 3 * (i % 3) as u16;
    let height = 9 + (i % 2) as u16;
    Glyph {
        width,
        height,
        ymin: -7 + i as i32,
        bitmap: (0..width as usize * height as usize).map(|p| (p + i) as u8).collect(),
    }
}

fn glyphs() -> Vec<Glyph> {
    (0..63).map(glyph).collect()
}

fn vert(x: i32, y: i32, tx: i32, ty: i32) -> BitmapVert {
    BitmapVert { position: (x, y), texcoord: (tx, ty) }
}

#[test]
fn the_character_set_has_63_distinct_characters() {
    let chars: Vec<char> = CHAR_SET.chars().collect();
    assert_eq!(chars.len(), 63);
    for i in 0..chars.len() {
        for j in 0..i {
            assert_ne!(chars[i], chars[j]);
        }
    }
    assert_eq!(mapper().chars(), &chars);
    assert_eq!(FONT_SUPERSAMPLE, 3);
    assert_eq!(MAP_WIDTH, 1024 * PIXEL);
    assert_eq!(MAP_HEIGHT, 512 * PIXEL);
    assert_eq!(NUM_VERTEX, 4);
}

#[test]
fn every_character_gets_one_index_and_six_vertices() {
    let mapper = mapper();
    let build = mapper.gen_font_map(&glyphs(), &framebuffer()).unwrap();
    assert_eq!(build.map.verts().len(), 6 * 63);
    assert_eq!(build.draws.len(), 63);
    for (i, c) in CHAR_SET.chars().enumerate() {
        assert_eq!(build.map.get_index(c), Some(6 * i));
    }
    assert_eq!(build.map.get_index(' '), None);
    assert_eq!(build.map.get_index('?'), None);
    assert_eq!(build.map.texture(), Texture { id: 7 });
}

#[test]
fn quads_show_the_cell_of_their_glyph() {
    let build = mapper().gen_font_map(&glyphs(), &framebuffer()).unwrap();
    let verts = build.map.verts();
    // 'a': first cell, 6 pixels wide
    assert_eq!(
        verts[0..6],
        [
            vert(12, 225, 192, 495),
            vert(-12, 225, 168, 495),
            vert(-12, -225, 168, 45),
            vert(-12, -225, 168, 45),
            vert(12, -225, 192, 45),
            vert(12, 225, 192, 495),
        ]
    );
    // 'b': second cell, 9 pixels wide
    assert_eq!(verts[6], vert(18, 225, 558, 495));
    assert_eq!(verts[7], vert(-18, 225, 522, 495));
    // the 34th character is the last of the first row: 33 * 360 + 180
    assert_eq!(verts[6 * 33], vert(12, 225, 12072, 495));
    // the 35th character starts the second row, 450 further down
    assert_eq!(verts[6 * 34], vert(18, 225, 198, 945));
    assert_eq!(verts[6 * 34 + 2], vert(-18, -225, 162, 495));
    // the last character, '.', is the 29th of the second row
    assert_eq!(verts[6 * 62], vert(24, 225, 28 * 360 + 180 + 24, 945));
}

#[test]
fn glyphs_are_drawn_at_their_cell_on_the_baseline() {
    let build = mapper().gen_font_map(&glyphs(), &framebuffer()).unwrap();
    let first = &build.draws[0];
    assert_eq!(first.width, 6);
    assert_eq!(first.height, 9);
    assert_eq!(first.char_size, (24, 36));
    // ymin -7: a third, rounded down, is -3
    assert_eq!(first.offset, (180, 177));
    assert_eq!(first.rgba.len(), 4 * 6 * 9);
    assert_eq!(first.rgba[0..8], [0, 0, 0, 0, 1, 1, 1, 1]);
    let second = &build.draws[1];
    assert_eq!(second.char_size, (36, 40));
    // ymin -6: -2
    assert_eq!(second.offset, (540, 178));
    assert_eq!(second.rgba[0..4], [1, 1, 1, 1]);
    let row_two = &build.draws[34];
    // ymin 27: 9
    assert_eq!(row_two.offset, (180, 639));
    let below = &build.draws[5];
    // ymin -2: a third, rounded down, is -1
    assert_eq!(below.offset, (5 * 360 + 180, 179));
}

#[test]
fn baking_is_framed_by_the_render_target() {
    let build = mapper().gen_font_map(&glyphs(), &framebuffer()).unwrap();
    assert_eq!(
        build.before,
        vec![
            GlCall::BindFramebuffer { framebuffer: 6 },
            GlCall::Viewport { width: 1024, height: 512 },
            GlCall::UseProgram { program: 1 },
            GlCall::BindVertexArray { array: 2 },
            GlCall::ClearColor { color: [0, 0, 0, 0] },
            GlCall::ClearColorBuffer,
        ]
    );
    assert_eq!(
        build.after,
        vec![
            GlCall::BindFramebuffer { framebuffer: 0 },
            GlCall::Viewport { width: 800, height: 600 },
            GlCall::DeleteFramebuffer { framebuffer: 6 },
        ]
    );
}

#[test]
fn each_glyph_is_drawn_once_and_its_texture_deleted() {
    let mapper = mapper();
    let build = mapper.gen_font_map(&glyphs(), &framebuffer()).unwrap();
    let mut gpu = vec![GlCall::ClearColorBuffer];
    mapper.draw_glyph(&build.draws[0], &Texture { id: 40 }, &mut gpu);
    mapper.draw_glyph(&build.draws[34], &Texture { id: 41 }, &mut gpu);
    assert_eq!(
        gpu,
        vec![
            GlCall::ClearColorBuffer,
            GlCall::Uniform2fv { location: 4, value: (24, 36) },
            GlCall::Uniform2fv { location: 5, value: (180, 177) },
            GlCall::DrawArrays { mode: DrawType::TriangleStrip, first: 0, count: 4 },
            GlCall::DeleteTexture { texture: 40 },
            GlCall::Uniform2fv { location: 4, value: (36, 36) },
            GlCall::Uniform2fv { location: 5, value: (180, 639) },
            GlCall::DrawArrays { mode: DrawType::TriangleStrip, first: 0, count: 4 },
            GlCall::DeleteTexture { texture: 41 },
        ]
    );
}

#[test]
fn baking_wants_one_sound_glyph_for_each_character() {
    let mapper = mapper();
    let mut short = glyphs();
    short.pop();
    assert!(mapper.gen_font_map(&short, &framebuffer()).is_none());
    let mut long = glyphs();
    long.push(glyph(0));
    assert!(mapper.gen_font_map(&long, &framebuffer()).is_none());
    let mut torn = glyphs();
    torn[40].bitmap.pop();
    assert!(mapper.gen_font_map(&torn, &framebuffer()).is_none());
    let mut empty = glyphs();
    empty[3] = Glyph { width: 0, height: 0, ymin: 0, bitmap: vec![] };
    let build = mapper.gen_font_map(&empty, &framebuffer()).unwrap();
    assert_eq!(build.draws[3].char_size, (0, 0));
    assert_eq!(build.map.verts()[18], vert(0, 225, 3 * 360 + 180, 495));
}

#[test]
fn widest_glyph_fits() {
    let mut wide = glyphs();
    wide[0] = Glyph { width: 65535, height: 1, ymin: i32::MIN, bitmap: vec![0; 65535] };
    let build = mapper().gen_font_map(&wide, &framebuffer()).unwrap();
    assert_eq!(build.draws[0].char_size, (262140, 4));
    assert_eq!(build.draws[0].offset, (180, 180 - 715827883));
    assert_eq!(build.map.verts()[0], vert(131070, 225, 131250, 495));
    assert_eq!(build.map.verts()[1], vert(-131070, 225, -130890, 495));
}

#[test]
fn rgba_repeats_each_byte_four_times() {
    assert_eq!(rgba_from_bytes(&vec![]), Vec::<u8>::new());
    assert_eq!(rgba_from_bytes(&vec![7]), vec![7, 7, 7, 7]);
    assert_eq!(rgba_from_bytes(&vec![1, 0, 255]), vec![1, 1, 1, 1, 0, 0, 0, 0, 255, 255, 255, 255]);
}

#[test]
fn quad_is_two_triangles_about_the_origin() {
    assert_eq!(
        get_quad(24, 450, 192, 168, 495, 45),
        vec![
            vert(12, 225, 192, 495),
            vert(-12, 225, 168, 495),
            vert(-12, -225, 168, 45),
            vert(-12, -225, 168, 45),
            vert(12, -225, 192, 45),
            vert(12, 225, 192, 495),
        ]
    );
    assert_eq!(get_quad(5, 3, 0, 0, 0, 0)[0], vert(2, 1, 0, 0));
    assert_eq!(get_quad(5, 3, 0, 0, 0, 0)[2], vert(-2, -1, 0, 0));
    assert_eq!(get_quad(-5, -4, 1, 2, 3, 4)[0], vert(-3, -2, 1, 3));
    assert_eq!(get_quad(-5, -4, 1, 2, 3, 4)[2], vert(3, 2, 2, 4));
    assert_eq!(get_quad(i32::MIN, i32::MAX, 0, 0, 0, 0)[1], vert(1073741824, 1073741823, 0, 0));
}

#[test]
fn render_target_has_the_size_of_the_atlas() {
    let mapper = mapper();
    assert_eq!(
        mapper.new_tex_fb(11, Texture { id: 12 }, true),
        Ok(TextureFramebuffer {
            id: 11,
            texture: Texture { id: 12 },
            width: 1024,
            height: 512,
            window_width: 800,
            window_height: 600,
        })
    );
    assert_eq!(
        mapper.new_tex_fb(11, Texture { id: 12 }, false),
        Err(FontMapperError::Framebuffer(FramebufferError::CreationError))
    );
}

#[test]
fn mapper_releases_program_layout_and_buffer() {
    let mut gpu = Vec::new();
    mapper().drop(&mut gpu);
    assert_eq!(
        gpu,
        vec![
            GlCall::DeleteProgram { program: 1 },
            GlCall::DeleteVertexArray { array: 2 },
            GlCall::DeleteBuffer { buffer: 3 },
        ]
    );
    assert_eq!(mapper().uniforms(), FontMapperUniforms { char_size: 4, offset: 5 });
}

fn parse(bytes: &[u8]) -> Result<fontdue::Font, FontMapperError> {
    let parsed = fontdue::Font::from_bytes(bytes, fontdue::FontSettings::default());
    FontMapper::font_result(parsed.map_err(|message| message.to_string()))
}

#[test]
fn bytes_that_are_no_font_give_the_parsers_message() {
    match parse(b"this is no font at all") {
        Err(FontMapperError::Font(message)) => assert_eq!(
            message,
            "Face data must start with 0x00010000, 0x74727565, 0x4F54544F or 0x74746366."
        ),
        _ => panic!("a font was made of text"),
    }
    match parse(&[0, 1, 0, 0]) {
        Err(FontMapperError::Font(message)) => {
            assert_eq!(message, "An attempt to read out of bounds detected.")
        }
        _ => panic!("a font was made of four bytes"),
    }
    assert!(parse(&[]).is_err());
}

#[test]
fn parser_outcome_becomes_a_font_error() {
    assert_eq!(
        FontMapper::font_result::<u8>(Err("no head".to_string())),
        Err(FontMapperError::Font("no head".to_string()))
    );
    assert_eq!(FontMapper::font_result(Ok(7u8)), Ok(7));
}

#[test]
fn glyph_draw_compares_by_value() {
    let a = GlyphDraw { rgba: vec![1; 4], width: 1, height: 1, char_size: (4, 4), offset: (180, 180) };
    let b = GlyphDraw { rgba: vec![1; 4], width: 1, height: 1, char_size: (4, 4), offset: (180, 180) };
    assert_eq!(a, b);
}
