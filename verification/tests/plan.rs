use plot3d::gl_wrap::{Buffer, DrawType, GlCall, Program, Texture, UniformError, VertexArray};
use plot3d::plan::{
    Attribute, BufferPlan, BuildError, MatrixPlan, ProgramFiles, ScenePlan, VectorPlan, VertexData,
    COMPONENT_SIZE,
};
use plot3d::scene::{DrawInds, DrawPass};
use plot3d::vertices::{PosVert, TextVert};

fn plan() -> ScenePlan {
    ScenePlan {
        programs: vec![
            ProgramFiles { vertex: "a.vert", fragment: "a.frag" },
            ProgramFiles { vertex: "b.vert", fragment: "b.frag" },
        ],
        buffers: vec![BufferPlan::points(1, vec![PosVert { position: (1, 2, 3) }; 4])],
        textures: vec![Texture { id: 70 }],
        matrices: vec![
            MatrixPlan { program: 0, name: "m0", values: vec![[1; 16]] },
            MatrixPlan { program: 1, name: "m1", values: vec![[2; 16], [3; 16]] },
        ],
        vectors: vec![
            VectorPlan { program: 1, name: "v0", values: vec![[4; 4]] },
            VectorPlan { program: 0, name: "v1", values: vec![[5; 4]] },
            VectorPlan { program: 1, name: "v2", values: vec![[6; 4], [7; 4]] },
        ],
        passes: vec![DrawPass::new(
            DrawType::TriangleStrip,
            1,
            3,
            DrawInds {
                program: 1,
                vao: 0,
                texture: Some(0),
                matrix: vec![(1, 1)],
                vector: vec![(0, 0), (2, 1)],
            },
        )],
    }
}

fn build(
    plan: ScenePlan,
    programs: u32,
    vaos: u32,
    buffers: u32,
    matrices: i32,
    vectors: i32,
) -> Result<(), BuildError> {
    plan.build(
        (0..programs).map(|i| Program { id: 10 + i }).collect(),
        (0..vaos).map(|i| VertexArray { id: 20 + i }).collect(),
        (0..buffers).map(|i| Buffer { id: 30 + i }).collect(),
        (0..matrices).map(|i| 40 + i).collect(),
        (0..vectors).map(|i| 50 + i).collect(),
    )
    .map(|_| ())
}

#[test]
fn built_scene_keeps_the_order_of_the_plan() {
    let mut scene = plan()
        .build(
            vec![Program { id: 10 }, Program { id: 11 }],
            vec![VertexArray { id: 20 }],
            vec![Buffer { id: 30 }],
            vec![40, 41],
            vec![50, 51, 52],
        )
        .unwrap();
    let mut gpu = Vec::new();
    assert_eq!(scene.draw(&mut gpu), Ok(()));
    assert_eq!(
        gpu,
        vec![
            GlCall::UseProgram { program: 11 },
            GlCall::BindVertexArray { array: 20 },
            GlCall::BindTexture { texture: 70 },
            GlCall::UniformMatrix4fv { location: 41, value: [3; 16] },
            GlCall::Uniform4fv { location: 50, value: [4; 4] },
            GlCall::Uniform4fv { location: 52, value: [7; 4] },
            GlCall::DrawArrays { mode: DrawType::TriangleStrip, first: 1, count: 3 },
        ]
    );
    let mut gpu = Vec::new();
    scene.drop(&mut gpu);
    assert_eq!(
        gpu,
        vec![
            GlCall::DeleteProgram { program: 10 },
            GlCall::DeleteProgram { program: 11 },
            GlCall::DeleteVertexArray { array: 20 },
            GlCall::DeleteTexture { texture: 70 },
            GlCall::DeleteBuffer { buffer: 30 },
        ]
    );
}

#[test]
fn build_wants_one_handle_for_each_planned_resource() {
    assert_eq!(build(plan(), 2, 1, 1, 2, 3), Ok(()));
    assert_eq!(build(plan(), 1, 1, 1, 2, 3), Err(BuildError::Mismatch));
    assert_eq!(build(plan(), 3, 1, 1, 2, 3), Err(BuildError::Mismatch));
    assert_eq!(build(plan(), 2, 0, 1, 2, 3), Err(BuildError::Mismatch));
    assert_eq!(build(plan(), 2, 1, 2, 2, 3), Err(BuildError::Mismatch));
    assert_eq!(build(plan(), 2, 1, 1, 1, 3), Err(BuildError::Mismatch));
    assert_eq!(build(plan(), 2, 1, 1, 2, 4), Err(BuildError::Mismatch));
}

#[test]
fn build_rejects_what_points_outside_the_plan() {
    let mut p = plan();
    p.matrices[1].program = 2;
    assert_eq!(build(p, 2, 1, 1, 2, 3), Err(BuildError::Mismatch));
    let mut p = plan();
    p.vectors[0].program = 9;
    assert_eq!(build(p, 2, 1, 1, 2, 3), Err(BuildError::Mismatch));
    let mut p = plan();
    p.buffers[0].program = 2;
    assert_eq!(build(p, 2, 1, 1, 2, 3), Err(BuildError::Mismatch));
    let mut p = plan();
    p.passes[0].inds.vao = 1;
    assert_eq!(build(p, 2, 1, 1, 2, 3), Err(BuildError::Mismatch));
    let mut p = plan();
    p.passes[0].inds.matrix = vec![(1, 2)];
    assert_eq!(build(p, 2, 1, 1, 2, 3), Err(BuildError::Mismatch));
    let mut p = plan();
    p.passes[0].inds.vector = vec![(3, 0)];
    assert_eq!(build(p, 2, 1, 1, 2, 3), Err(BuildError::Mismatch));
    let mut p = plan();
    p.textures.clear();
    assert_eq!(build(p, 2, 1, 1, 2, 3), Err(BuildError::Mismatch));
}

#[test]
fn a_uniform_missing_from_its_shader_fails_the_build() {
    let handles = || {
        (
            vec![Program { id: 10 }, Program { id: 11 }],
            vec![VertexArray { id: 20 }],
            vec![Buffer { id: 30 }],
        )
    };
    let missing = Err(BuildError::Uniform(UniformError::Unresolved));
    let (p, v, b) = handles();
    assert_eq!(plan().build(p, v, b, vec![40, -1], vec![50, 51, 52]).map(|_| ()), missing);
    let (p, v, b) = handles();
    assert_eq!(plan().build(p, v, b, vec![40, 41], vec![-1, 51, 52]).map(|_| ()), missing);
    let (p, v, b) = handles();
    assert_eq!(plan().build(p, v, b, vec![-7, 41], vec![50, 51, -1]).map(|_| ()), missing);
    // a uniform that no pass uses has to be there all the same
    let (p, v, b) = handles();
    assert_eq!(plan().build(p, v, b, vec![40, 41], vec![50, -1, 52]).map(|_| ()), missing);
    // handles that do not fit the plan come first
    let (p, v, b) = handles();
    assert_eq!(
        plan().build(p, v, b, vec![-1], vec![50, 51, 52]).map(|_| ()),
        Err(BuildError::Mismatch)
    );
    // a missing uniform comes before a pass that names what is not there
    let mut wrong = plan();
    wrong.passes[0].inds.vao = 1;
    let (p, v, b) = handles();
    assert_eq!(wrong.build(p, v, b, vec![40, -1], vec![50, 51, 52]).map(|_| ()), missing);
}

#[test]
fn vertex_layouts_count_in_components_of_four_bytes() {
    assert_eq!(COMPONENT_SIZE, 4);
    let points = BufferPlan::points(0, vec![PosVert { position: (0, 0, 0) }; 5]);
    assert_eq!(points.data.stride(), 12);
    assert_eq!(points.attributes, vec![Attribute { name: "position", size: 3, offset: 0 }]);
    let corner = TextVert { position: (0, 0, 0), offset: (0, 0), texcoord: (0, 0) };
    let text = BufferPlan::text(3, vec![corner; 2]);
    assert_eq!(text.program, 3);
    assert_eq!(text.data, VertexData::Text(vec![corner; 2]));
    assert_eq!(text.data.stride(), 28);
    let offsets: Vec<i64> = text.attributes.iter().map(|a| a.byte_offset()).collect();
    assert_eq!(offsets, vec![0, 12, 20]);
    assert_eq!(Attribute { name: "far", size: 1, offset: i32::MAX }.byte_offset(), 8589934588);
}
