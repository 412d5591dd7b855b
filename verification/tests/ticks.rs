use plot3d::axis_vert::Spacing;
use plot3d::font_map::{FontMapper, FontMapperUniforms, Glyph};
use plot3d::gl_wrap::{
    Buffer, DrawType, GlCall, Program, Texture, TextureFramebuffer, VertexArray,
};
use plot3d::plan::{Attribute, ProgramFiles, VertexData};
use plot3d::plot::Bounds;
use plot3d::text::{FontMap, FontMapError, TextParams};
use plot3d::ticks::{
    get_tick_label, TickLabels, TickStyle, Ticks, TicksError, HALF_BITS, LABEL_MARGIN, ONE_BITS,
};
use plot3d::vertices::{BitmapVert, PosVert};

fn glyph(i: usize) -> Glyph {
    let width = 6 + 3 * (i % 3) as u16;
    Glyph { width, height: 9, ymin: -7, bitmap: vec![0; width as usize * 9] }
}

fn font() -> FontMap {
    let mapper = FontMapper::new(
        Program { id: 1 },
        VertexArray { id: 2 },
        Buffer { id: 3 },
        FontMapperUniforms { char_size: 4, offset: 5 },
        800,
        600,
    );
    let glyphs: Vec<Glyph> = (0..63).map(glyph).collect();
    let framebuffer =
        TextureFramebuffer::new(6, Texture { id: 7 }, true, 1024, 512, 800, 600).unwrap();
    mapper.gen_font_map(&glyphs, &framebuffer).unwrap().map
}

fn label(v: i64) -> String {
    get_tick_label(v as u32).into_iter().collect()
}

#[test]
fn tick_labels_are_on_for_all_axes() {
    let labels = TickLabels::new();
    assert!(labels.x && labels.y && labels.z);
}

#[test]
fn new_ticks_are_grey_marks_with_small_labels() {
    let ticks = Ticks::new();
    assert_eq!(ticks.style, TickStyle::Tick);
    assert_eq!(ticks.color, [HALF_BITS, HALF_BITS, HALF_BITS, ONE_BITS]);
    assert_eq!(ticks.color, [0.5f32.to_bits(), 0.5f32.to_bits(), 0.5f32.to_bits(), 1.0f32.to_bits()]);
    assert_eq!(ticks.count, 10);
    assert_eq!(ticks.text.size, 120);
    assert_eq!(ticks.text.kearning, 0);
    assert_eq!(ticks.text.font, "./resources/Ubuntu-Regular.ttf");
    assert_eq!(ticks.labels, TickLabels { x: true, y: true, z: true });
    assert_eq!(LABEL_MARGIN, 100);
}

#[test]
fn tick_label_has_one_decimal_place() {
    assert_eq!(label(0), "0.0");
    assert_eq!(label(100), "0.1");
    assert_eq!(label(900), "0.9");
    assert_eq!(label(1000), "1.0");
    assert_eq!(label(1200), "1.2");
    assert_eq!(label(12345), "12.3");
    assert_eq!(label(130), "0.1");
    assert_eq!(label(260), "0.3");
    assert_eq!(label(49), "0.0");
    assert_eq!(label(50), "0.1");
    assert_eq!(label(250), "0.3");
    assert_eq!(label(949), "0.9");
    assert_eq!(label(950), "1.0");
    assert_eq!(label(99999), "100.0");
    assert_eq!(label(i32::MAX as i64), "2147483.6");
    assert_eq!(label(u32::MAX as i64), "4294967.3");
}

#[test]
fn lines_are_the_inner_edges_and_the_marks_of_the_style() {
    let b = Bounds::new(1000, 1000, 1000);
    let mut ticks = Ticks::new();
    let lines = ticks.get_lines(&b);
    assert_eq!(lines.len(), 6 + 60);
    assert_eq!(lines[5], PosVert { position: (0, 0, 1000) });
    assert_eq!(lines[6..], Ticks::get_tick_verts(&b, Spacing { length: 1000, parts: 10 })[..]);
    ticks.style = TickStyle::Grid;
    let lines = ticks.get_lines(&b);
    assert_eq!(lines.len(), 6 + 120);
    assert_eq!(lines[6..], Ticks::get_grid_verts(&b, Spacing { length: 1000, parts: 10 })[..]);
    ticks.style = TickStyle::Blank;
    assert_eq!(ticks.get_lines(&b).len(), 6);
    ticks.style = TickStyle::Tick;
    ticks.count = 4;
    assert_eq!(ticks.get_lines(&b).len(), 6 + 2 * 12);
}

#[test]
fn every_tick_gets_a_label_beside_it() {
    let b = Bounds::new(1000, 1000, 1000);
    let ticks = Ticks::new();
    let font = font();
    let text = ticks.get_text(&b, &font).unwrap();
    // 30 labels of three glyphs
    assert_eq!(text.len(), 30 * 3 * 6);
    assert!(text[0..18].iter().all(|v| v.position == (0, 0, 1100)));
    assert!(text[18..36].iter().all(|v| v.position == (100, 0, 1100)));
    assert!(text[180..198].iter().all(|v| v.position == (1100, 0, 0)));
    assert!(text[198..216].iter().all(|v| v.position == (1100, 100, 0)));
    assert!(text[360..378].iter().all(|v| v.position == (1100, 0, 0)));
    assert!(text[522..540].iter().all(|v| v.position == (1100, 0, 900)));
    let params = TextParams { font: String::new(), size: 120, kearning: 0 };
    assert_eq!(text[0..18], font.get_verts("0.0", &params, (0, 0, 1100)).unwrap()[..]);
    assert_eq!(text[18..36], font.get_verts("0.1", &params, (100, 0, 1100)).unwrap()[..]);
    assert_eq!(text[342..360], font.get_verts("0.9", &params, (1100, 900, 0)).unwrap()[..]);
    // "0.0": half widths 18, 24, 18; width 120
    assert_eq!(text[0].offset, (-24, 225));
    assert_eq!(text[17].offset, (60, 225));
}

#[test]
fn only_wanted_axes_are_labelled() {
    let b = Bounds::new(1000, 1300, 800);
    let mut ticks = Ticks::new();
    let font = font();
    assert_eq!(ticks.get_text(&b, &font).unwrap().len(), (7 + 10 + 6) * 18);
    ticks.labels.y = false;
    let text = ticks.get_text(&b, &font).unwrap();
    assert_eq!(text.len(), (7 + 6) * 18);
    assert_eq!(text[7 * 18].position, (1100, 0, 0));
    assert_eq!(text[8 * 18].position, (1100, 0, 130));
    ticks.labels.x = false;
    ticks.labels.z = false;
    assert!(ticks.get_text(&b, &font).unwrap().is_empty());
    ticks.labels = TickLabels::new();
    ticks.count = 0;
    assert!(ticks.get_text(&b, &font).unwrap().is_empty());
}

#[test]
fn a_font_without_digits_cannot_label_ticks() {
    let b = Bounds::new(1000, 1000, 1000);
    let corner = BitmapVert { position: (4, 4), texcoord: (0, 0) };
    let letters = FontMap::new(Texture { id: 1 }, vec![corner; 6], &vec!['a']).unwrap();
    let mut ticks = Ticks::new();
    assert_eq!(ticks.get_text(&b, &letters), Err(TicksError::FontMap(FontMapError::Character('0'))));
    let zero = FontMap::new(Texture { id: 1 }, vec![corner; 6], &vec!['0']).unwrap();
    assert_eq!(ticks.get_text(&b, &zero), Err(TicksError::FontMap(FontMapError::Character('.'))));
    let no_one = FontMap::new(Texture { id: 1 }, vec![corner; 12], &vec!['0', '.']).unwrap();
    assert_eq!(ticks.get_text(&b, &no_one), Err(TicksError::FontMap(FontMapError::Character('1'))));
    ticks.count = 1;
    assert_eq!(ticks.get_text(&b, &no_one).map(|v| v.len()), Ok(3 * 18));
    ticks.count = 10;
    assert!(ticks.get_scene([0; 16], 0, &b, &letters).is_err());
    ticks.labels = TickLabels { x: false, y: false, z: false };
    assert!(ticks.get_scene([0; 16], 0, &b, &letters).is_ok());
}

#[test]
fn scene_plan_names_shaders_attributes_and_uniforms() {
    let b = Bounds::new(1000, 1000, 1000);
    let ticks = Ticks::new();
    let font = font();
    let mvp: [u32; 16] = core::array::from_fn(|i| i as u32 + 100);
    let plan = ticks.get_scene(mvp, 77, &b, &font).unwrap();
    assert_eq!(
        plan.programs,
        vec![
            ProgramFiles { vertex: "./shaders/solid_vert.glsl", fragment: "./shaders/solid_frag.glsl" },
            ProgramFiles { vertex: "./shaders/text_vert.glsl", fragment: "./shaders/text_frag.glsl" },
        ]
    );
    assert_eq!(plan.buffers.len(), 2);
    assert_eq!(plan.buffers[0].program, 0);
    assert_eq!(plan.buffers[0].data, VertexData::Position(ticks.get_lines(&b)));
    assert_eq!(plan.buffers[0].attributes, vec![Attribute { name: "position", size: 3, offset: 0 }]);
    assert_eq!(plan.buffers[1].program, 1);
    assert_eq!(plan.buffers[1].data, VertexData::Text(ticks.get_text(&b, &font).unwrap()));
    assert_eq!(
        plan.buffers[1].attributes,
        vec![
            Attribute { name: "position", size: 3, offset: 0 },
            Attribute { name: "offset", size: 2, offset: 3 },
            Attribute { name: "a_texCoord", size: 2, offset: 5 },
        ]
    );
    assert_eq!(plan.textures, vec![Texture { id: 7 }]);
    assert_eq!(plan.matrices.len(), 2);
    assert_eq!((plan.matrices[0].program, plan.matrices[0].name), (0, "mvp"));
    assert_eq!((plan.matrices[1].program, plan.matrices[1].name), (1, "mvp"));
    assert_eq!(plan.matrices[0].values, vec![mvp]);
    assert_eq!(plan.matrices[1].values, vec![mvp]);
    assert_eq!(plan.vectors.len(), 2);
    assert_eq!((plan.vectors[0].program, plan.vectors[0].name), (0, "color"));
    assert_eq!(plan.vectors[0].values, vec![ticks.color]);
    assert_eq!((plan.vectors[1].program, plan.vectors[1].name), (1, "scale"));
    assert_eq!(plan.vectors[1].values, vec![[77, 0, 0, 0]]);
    assert_eq!(plan.passes.len(), 2);
    assert_eq!(plan.passes[0].draw_type, DrawType::Lines);
    assert_eq!((plan.passes[0].start, plan.passes[0].count), (0, 66));
    assert_eq!(plan.passes[1].draw_type, DrawType::Triangles);
    assert_eq!((plan.passes[1].start, plan.passes[1].count), (0, 540));
    assert_eq!(plan.passes[1].inds.texture, Some(0));
}

#[test]
fn planned_scene_draws_lines_then_labels() {
    let b = Bounds::new(1000, 1000, 1000);
    let ticks = Ticks::new();
    let mvp = [9u32; 16];
    let plan = ticks.get_scene(mvp, 77, &b, &font()).unwrap();
    let scene = plan
        .build(
            vec![Program { id: 21 }, Program { id: 22 }],
            vec![VertexArray { id: 31 }, VertexArray { id: 32 }],
            vec![Buffer { id: 41 }, Buffer { id: 42 }],
            vec![50, 51],
            vec![60, 61],
        )
        .unwrap();
    let mut gpu = Vec::new();
    assert_eq!(scene.draw(&mut gpu), Ok(()));
    assert_eq!(
        gpu,
        vec![
            GlCall::UseProgram { program: 21 },
            GlCall::BindVertexArray { array: 31 },
            GlCall::UniformMatrix4fv { location: 50, value: mvp },
            GlCall::Uniform4fv { location: 60, value: ticks.color },
            GlCall::DrawArrays { mode: DrawType::Lines, first: 0, count: 66 },
            GlCall::UseProgram { program: 22 },
            GlCall::BindVertexArray { array: 32 },
            GlCall::BindTexture { texture: 7 },
            GlCall::UniformMatrix4fv { location: 51, value: mvp },
            GlCall::Uniform4fv { location: 61, value: [77, 0, 0, 0] },
            GlCall::DrawArrays { mode: DrawType::Triangles, first: 0, count: 540 },
        ]
    );
}
