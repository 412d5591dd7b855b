use plot3d::axis::{Axis, AxisError, AxisLabels, LabelOrientation, LABEL_MARGIN, MINUS_ONE_BITS};
use plot3d::axis_vert::get_axis_border;
use plot3d::font_map::{FontMapper, FontMapperUniforms, Glyph};
use plot3d::gl_wrap::{
    Buffer, DrawType, GlCall, Program, Texture, TextureFramebuffer, UniformError, VertexArray,
};
use plot3d::plan::{BuildError, ProgramFiles, VertexData};
use plot3d::plot::Bounds;
use plot3d::text::{FontMap, FontMapError, MAX_LABEL_LEN};
use plot3d::ticks::ONE_BITS;

fn glyph(i: usize) -> Glyph {
    let width = 6 + 3 * (i % 3) as u16;
    Glyph { width, height: 9, ymin: -7, bitmap: vec![0; width as usize * 9] }
}

fn font() -> FontMap {
    let mapper = FontMapper::new(
        Program { id: 1 },
        VertexArray { id: 2 },
        Buffer { id: 3 },
        FontMapperUniforms { char_size: 4, offset: 5 },
        800,
        600,
    );
    let glyphs: Vec<Glyph> = (0..63).map(glyph).collect();
    let framebuffer =
        TextureFramebuffer::new(6, Texture { id: 7 }, true, 1024, 512, 800, 600).unwrap();
    mapper.gen_font_map(&glyphs, &framebuffer).unwrap().map
}

#[test]
fn new_axis_is_white_with_default_labels() {
    let axis = Axis::new();
    assert_eq!(axis.color, [ONE_BITS; 4]);
    assert_eq!(axis.color, [1.0f32.to_bits(); 4]);
    assert_eq!(axis.labels.x, "x axis");
    assert_eq!(axis.labels.y, "y axis");
    assert_eq!(axis.labels.z, "z axis");
    assert_eq!(axis.labels.param.font, "./resources/Ubuntu-Regular.ttf");
    assert_eq!(axis.labels.param.size, 168);
    assert_eq!(axis.labels.param.kearning, 0);
    assert!(axis.labels.check_fits());
    assert_eq!(AxisLabels::new(), axis.labels);
    assert_eq!(MINUS_ONE_BITS, (-1.0f32).to_bits());
    assert_eq!(LABEL_MARGIN, 150);
    assert!(MAX_LABEL_LEN > 1000);
}

#[test]
fn axis_lines_are_the_border() {
    let b = Bounds::new(1000, 1300, 800);
    assert_eq!(Axis::get_verts(&b), get_axis_border(&b));
    assert_eq!(Axis::get_verts(&b).len(), 12);
}

#[test]
fn labels_sit_beside_the_middle_of_their_axis() {
    let orient = Axis::get_label_orient(&Bounds::new(1000, 1300, 800));
    assert_eq!(
        orient.x,
        LabelOrientation { pos: (500, 0, 950), align: [ONE_BITS, 0, 0, ONE_BITS] }
    );
    assert_eq!(
        orient.y,
        LabelOrientation { pos: (1150, 650, 0), align: [0, MINUS_ONE_BITS, 0, ONE_BITS] }
    );
    assert_eq!(
        orient.z,
        LabelOrientation { pos: (1150, 0, 400), align: [0, 0, ONE_BITS, ONE_BITS] }
    );
    let odd = Axis::get_label_orient(&Bounds::new(1001, 3, -5));
    assert_eq!(odd.x.pos, (500, 0, 145));
    assert_eq!(odd.y.pos, (1151, 1, 0));
    assert_eq!(odd.z.pos, (1151, 0, -3));
    let far = Axis::get_label_orient(&Bounds::new(i32::MAX, i32::MIN, i32::MAX));
    assert_eq!(far.x.pos, (1073741823, 0, i32::MAX as i64 + 150));
    assert_eq!(far.y.pos, (i32::MAX as i64 + 150, -1073741824, 0));
}

#[test]
fn scene_plan_draws_the_border_and_one_pass_for_each_label() {
    let b = Bounds::new(1000, 1300, 800);
    let mut axis = Axis::new();
    axis.labels.y = "height".to_string();
    axis.labels.z = "t".to_string();
    let font = font();
    let mvp = [3u32; 16];
    let plan = axis.get_scene(mvp, 88, &b, &font).unwrap();
    assert_eq!(
        plan.programs,
        vec![
            ProgramFiles { vertex: "./shaders/solid_vert.glsl", fragment: "./shaders/solid_frag.glsl" },
            ProgramFiles {
                vertex: "./shaders/text_align_vert.glsl",
                fragment: "./shaders/text_frag.glsl"
            },
        ]
    );
    assert_eq!(plan.buffers[0].data, VertexData::Position(get_axis_border(&b)));
    let mut text = font.get_verts("x axis", &axis.labels.param, (500, 0, 950)).unwrap();
    text.extend(font.get_verts("height", &axis.labels.param, (1150, 650, 0)).unwrap());
    text.extend(font.get_verts("t", &axis.labels.param, (1150, 0, 400)).unwrap());
    assert_eq!(text.len(), 30 + 36 + 6);
    assert_eq!(plan.buffers[1].data, VertexData::Text(text));
    assert_eq!(plan.textures, vec![Texture { id: 7 }]);
    let names: Vec<(usize, &str)> = plan.vectors.iter().map(|u| (u.program, u.name)).collect();
    assert_eq!(names, vec![(0, "color"), (1, "scale"), (1, "alignment")]);
    assert_eq!(plan.vectors[0].values, vec![[ONE_BITS; 4]]);
    assert_eq!(plan.vectors[1].values, vec![[88, 0, 0, 0]]);
    assert_eq!(
        plan.vectors[2].values,
        vec![
            [ONE_BITS, 0, 0, ONE_BITS],
            [0, MINUS_ONE_BITS, 0, ONE_BITS],
            [0, 0, ONE_BITS, ONE_BITS]
        ]
    );
    let ranges: Vec<(DrawType, i32, i32)> =
        plan.passes.iter().map(|p| (p.draw_type, p.start, p.count)).collect();
    assert_eq!(
        ranges,
        vec![
            (DrawType::Lines, 0, 12),
            (DrawType::Triangles, 0, 30),
            (DrawType::Triangles, 30, 36),
            (DrawType::Triangles, 66, 6),
        ]
    );
    assert_eq!(plan.passes[2].inds.vector, vec![(1, 0), (2, 1)]);
    assert_eq!(plan.passes[3].inds.matrix, vec![(1, 0)]);
}

#[test]
fn planned_scene_sets_the_alignment_of_each_label() {
    let b = Bounds::new(1000, 1000, 1000);
    let axis = Axis::new();
    let mvp = [3u32; 16];
    let plan = axis.get_scene(mvp, 88, &b, &font()).unwrap();
    let scene = plan
        .build(
            vec![Program { id: 21 }, Program { id: 22 }],
            vec![VertexArray { id: 31 }, VertexArray { id: 32 }],
            vec![Buffer { id: 41 }, Buffer { id: 42 }],
            vec![50, 51],
            vec![60, 61, 62],
        )
        .unwrap();
    let mut gpu = Vec::new();
    assert_eq!(scene.draw(&mut gpu), Ok(()));
    let label = |first: i32, align: [u32; 4]| {
        vec![
            GlCall::UseProgram { program: 22 },
            GlCall::BindVertexArray { array: 32 },
            GlCall::BindTexture { texture: 7 },
            GlCall::UniformMatrix4fv { location: 51, value: mvp },
            GlCall::Uniform4fv { location: 61, value: [88, 0, 0, 0] },
            GlCall::Uniform4fv { location: 62, value: align },
            GlCall::DrawArrays { mode: DrawType::Triangles, first, count: 30 },
        ]
    };
    let mut expected = vec![
        GlCall::UseProgram { program: 21 },
        GlCall::BindVertexArray { array: 31 },
        GlCall::UniformMatrix4fv { location: 50, value: mvp },
        GlCall::Uniform4fv { location: 60, value: [ONE_BITS; 4] },
        GlCall::DrawArrays { mode: DrawType::Lines, first: 0, count: 12 },
    ];
    expected.extend(label(0, [ONE_BITS, 0, 0, ONE_BITS]));
    expected.extend(label(30, [0, MINUS_ONE_BITS, 0, ONE_BITS]));
    expected.extend(label(60, [0, 0, ONE_BITS, ONE_BITS]));
    assert_eq!(gpu, expected);
}

#[test]
fn a_uniform_missing_from_the_shader_fails_the_build() {
    let plan = Axis::new().get_scene([0; 16], 0, &Bounds::new(1, 1, 1), &font()).unwrap();
    let built = plan.build(
        vec![Program { id: 21 }, Program { id: 22 }],
        vec![VertexArray { id: 31 }, VertexArray { id: 32 }],
        vec![Buffer { id: 41 }, Buffer { id: 42 }],
        vec![50, 51],
        vec![60, 61, -1],
    );
    assert!(matches!(built, Err(BuildError::Uniform(UniformError::Unresolved))));
}

#[test]
fn a_label_with_an_unsupported_character_fails_the_scene() {
    let b = Bounds::new(1000, 1000, 1000);
    let font = font();
    let mut axis = Axis::new();
    axis.labels.z = "z (m)".to_string();
    assert!(matches!(
        axis.get_scene([0; 16], 0, &b, &font),
        Err(AxisError::Font(FontMapError::Character('(')))
    ));
    axis.labels.y = "y?".to_string();
    assert!(matches!(
        axis.get_scene([0; 16], 0, &b, &font),
        Err(AxisError::Font(FontMapError::Character('?')))
    ));
    axis.labels.x = "x-".to_string();
    assert!(matches!(
        axis.get_scene([0; 16], 0, &b, &font),
        Err(AxisError::Font(FontMapError::Character('-')))
    ));
}

#[test]
fn empty_labels_make_empty_passes() {
    let mut axis = Axis::new();
    axis.labels.x = String::new();
    axis.labels.y = "   ".to_string();
    let plan = axis.get_scene([0; 16], 0, &Bounds::new(1, 1, 1), &font()).unwrap();
    let ranges: Vec<(i32, i32)> = plan.passes.iter().map(|p| (p.start, p.count)).collect();
    assert_eq!(ranges, vec![(0, 12), (0, 0), (0, 0), (0, 30)]);
}
