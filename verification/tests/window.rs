use plot3d::gl_wrap::{
    Buffer, DrawType, GlCall, Program, Texture, UniformError, UniformVec, VertexArray,
};
use plot3d::scene::{DrawInds, DrawPass, Scene};
use plot3d::window::{destroy, redraw, run, ControlFlow, Reaction, WindowEvent};

fn scene(id: u32, location: i32) -> Scene {
    let program = Program { id };
    Scene::new(
        vec![DrawPass::new(
            DrawType::Lines,
            0,
            id as i32,
            DrawInds { program: 0, vao: 0, texture: None, matrix: vec![], vector: vec![(0, 0)] },
        )],
        vec![program],
        vec![VertexArray { id: id + 1 }],
        vec![Buffer { id: id + 2 }],
        vec![Texture { id: id + 3 }],
        vec![],
        vec![UniformVec { program: id, location, values: vec![[id; 4]] }],
    )
    .unwrap()
}

fn drawn(id: u32) -> Vec<GlCall> {
    vec![
        GlCall::UseProgram { program: id },
        GlCall::BindVertexArray { array: id + 1 },
        GlCall::Uniform4fv { location: 0, value: [id; 4] },
        GlCall::DrawArrays { mode: DrawType::Lines, first: 0, count: id as i32 },
    ]
}

fn released(id: u32) -> Vec<GlCall> {
    vec![
        GlCall::DeleteProgram { program: id },
        GlCall::DeleteVertexArray { array: id + 1 },
        GlCall::DeleteTexture { texture: id + 3 },
        GlCall::DeleteBuffer { buffer: id + 2 },
    ]
}

#[test]
fn a_frame_clears_and_draws_the_scenes_in_order() {
    let scenes = vec![scene(10, 0), scene(20, 0), scene(30, 0)];
    let mut gpu = Vec::new();
    assert_eq!(redraw(&scenes, &mut gpu), Ok(()));
    let mut expected = vec![GlCall::ClearColorBuffer];
    expected.extend(drawn(10));
    expected.extend(drawn(20));
    expected.extend(drawn(30));
    assert_eq!(gpu, expected);
    let mut gpu = Vec::new();
    assert_eq!(redraw(&vec![], &mut gpu), Ok(()));
    assert_eq!(gpu, vec![GlCall::ClearColorBuffer]);
}

#[test]
fn a_frame_stops_at_the_scene_that_cannot_be_drawn() {
    let scenes = vec![scene(10, 0), scene(20, -1), scene(30, 0)];
    let mut gpu = Vec::new();
    assert_eq!(redraw(&scenes, &mut gpu), Err(UniformError::Unresolved));
    let mut expected = vec![GlCall::ClearColorBuffer];
    expected.extend(drawn(10));
    expected.extend(vec![GlCall::UseProgram { program: 20 }, GlCall::BindVertexArray { array: 21 }]);
    assert_eq!(gpu, expected);
}

#[test]
fn the_end_of_the_loop_tears_every_scene_down() {
    let mut scenes = vec![scene(10, 0), scene(20, 0)];
    let mut gpu = Vec::new();
    destroy(&mut scenes, &mut gpu);
    let mut expected = released(10);
    expected.extend(released(20));
    assert_eq!(gpu, expected);
    assert!(scenes.is_empty());
    destroy(&mut scenes, &mut gpu);
    assert_eq!(gpu, expected);
}

#[test]
fn events_decide_what_the_loop_does() {
    let mut scenes = vec![scene(10, 0)];
    let mut gpu = Vec::new();
    assert_eq!(
        run(WindowEvent::Other, &mut scenes, &mut gpu),
        Ok(Reaction { flow: ControlFlow::Wait, swap: false })
    );
    assert_eq!(
        run(WindowEvent::CloseRequested, &mut scenes, &mut gpu),
        Ok(Reaction { flow: ControlFlow::Exit, swap: false })
    );
    assert!(gpu.is_empty());
    assert_eq!(scenes.len(), 1);
    assert_eq!(
        run(WindowEvent::RedrawRequested, &mut scenes, &mut gpu),
        Ok(Reaction { flow: ControlFlow::Wait, swap: true })
    );
    let mut expected = vec![GlCall::ClearColorBuffer];
    expected.extend(drawn(10));
    assert_eq!(gpu, expected);
    assert_eq!(
        run(WindowEvent::LoopDestroyed, &mut scenes, &mut gpu),
        Ok(Reaction { flow: ControlFlow::Wait, swap: false })
    );
    expected.extend(released(10));
    assert_eq!(gpu, expected);
    assert!(scenes.is_empty());
    let mut broken = vec![scene(20, -1)];
    assert_eq!(
        run(WindowEvent::RedrawRequested, &mut broken, &mut gpu),
        Err(UniformError::Unresolved)
    );
}
