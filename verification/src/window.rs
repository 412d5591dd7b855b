//! What the window's event loop does with the scenes it shows.

use vstd::prelude::*;
use crate::gl_wrap::{GlCall, UniformError};
use crate::scene::{failure, issued, lemma_run_concat, Scene, SceneView};

verus! {

/// What happened to the window.
#[derive(Clone, Copy, Debug, PartialEq, Eq, Structural)]
pub enum WindowEvent {
    /// The user asked to close the window.
    CloseRequested,
    /// The event loop is about to end.
    LoopDestroyed,
    /// The window has to be drawn again.
    RedrawRequested,
    /// Anything else.
    Other,
}

/// What the event loop does next.
#[derive(Clone, Copy, Debug, PartialEq, Eq, Structural)]
pub enum ControlFlow {
    /// Sleep until the next event.
    Wait,
    /// End the loop.
    Exit,
}

/// What the application has to do after an event was handled.
#[derive(Clone, Copy, Debug, PartialEq, Eq, Structural)]
pub struct Reaction {
    pub flow: ControlFlow,
    /// Whether a frame was drawn and the window's buffers are to be swapped.
    pub swap: bool,
}

/// The views of `scenes`.
pub open spec fn views(scenes: Seq<Scene>) -> Seq<SceneView> {
    scenes.map_values(|s: Scene| s@)
}

/// The steps of drawing `scenes` one after the other.
pub open spec fn frame_steps(scenes: Seq<SceneView>) -> Seq<Result<GlCall, UniformError>>
    decreases scenes.len(),
{
    if scenes.len() == 0 {
        Seq::empty()
    } else {
        frame_steps(scenes.drop_last()) + scenes.last().steps()
    }
}

/// The steps of a frame: clear the window, then draw the scenes in order.
pub open spec fn redraw_steps(scenes: Seq<SceneView>) -> Seq<Result<GlCall, UniformError>> {
    seq![Ok(GlCall::ClearColorBuffer)] + frame_steps(scenes)
}

/// The calls that tear `scenes` down one after the other.
pub open spec fn teardown_calls(scenes: Seq<SceneView>) -> Seq<GlCall>
    decreases scenes.len(),
{
    if scenes.len() == 0 {
        Seq::empty()
    } else {
        teardown_calls(scenes.drop_last()) + scenes.last().drop_calls()
    }
}

/// The steps of a list of scenes are those of its front followed by those of
/// its back.
pub proof fn lemma_frame_steps_concat(front: Seq<SceneView>, back: Seq<SceneView>)
    ensures
        frame_steps(front + back) == frame_steps(front) + frame_steps(back),
    decreases back.len(),
{
    if back.len() == 0 {
        assert(front + back =~= front);
        assert(frame_steps(front) + frame_steps(back) =~= frame_steps(front));
    } else {
        lemma_frame_steps_concat(front, back.drop_last());
        assert((front + back).drop_last() =~= front + back.drop_last());
        assert((front + back).last() == back.last());
        assert(frame_steps(front) + frame_steps(back.drop_last()) + back.last().steps()
            =~= frame_steps(front) + (frame_steps(back.drop_last()) + back.last().steps()));
    }
}

/// Records a frame: clears the window and draws every scene, in the order of
/// the list. Stops at the first uniform that has no location, and reports
/// it.
pub fn redraw(scenes: &Vec<Scene>, gpu: &mut Vec<GlCall>) -> (r: Result<(), UniformError>)
    ensures
        final(gpu)@ == old(gpu)@ + issued(redraw_steps(views(scenes@))),
        match failure(redraw_steps(views(scenes@))) {
            None => r is Ok,
            Some(e) => r == Err::<(), UniformError>(e),
        },
{
    let ghost all = views(scenes@);
    let ghost clear = seq![Ok::<GlCall, UniformError>(GlCall::ClearColorBuffer)];
    gpu.push(GlCall::ClearColorBuffer);
    proof {
        crate::scene::lemma_run_all_ok(clear);
        assert(all.take(0) =~= Seq::empty());
        lemma_run_concat(clear, frame_steps(all.take(0)));
        assert(gpu@ =~= old(gpu)@ + issued(clear + frame_steps(all.take(0))));
    }
    let mut i: usize = 0;
    while i < scenes.len()
        invariant
            i <= scenes@.len(),
            all == views(scenes@),
            clear == seq![Ok::<GlCall, UniformError>(GlCall::ClearColorBuffer)],
            gpu@ == old(gpu)@ + issued(clear + frame_steps(all.take(i as int))),
            failure(clear + frame_steps(all.take(i as int))) is None,
        decreases scenes@.len() - i,
    {
        let ghost before = clear + frame_steps(all.take(i as int));
        let ghost scene = all[i as int].steps();
        let ghost rest = frame_steps(all.skip(i + 1));
        proof {
            assert(all.take(i + 1).drop_last() =~= all.take(i as int));
            assert(all.take(i + 1).last() == all[i as int]);
            assert(clear + frame_steps(all.take(i + 1)) =~= before + scene);
            lemma_run_concat(before, scene);
            lemma_frame_steps_concat(all.take(i + 1), all.skip(i + 1));
            assert(all.take(i + 1) + all.skip(i + 1) =~= all);
            assert(clear + frame_steps(all) =~= before + scene + rest);
            lemma_run_concat(before + scene, rest);
        }
        let r = scenes[i].draw(gpu);
        assert(gpu@ =~= old(gpu)@ + issued(before + scene));
        match r {
            Ok(()) => {},
            Err(e) => {
                return Err(e);
            },
        }
        i += 1;
    }
    proof {
        assert(all.take(i as int) =~= all);
    }
    Ok(())
}

/// Tears every scene down, in the order of the list, and empties the list.
pub fn destroy(scenes: &mut Vec<Scene>, gpu: &mut Vec<GlCall>)
    ensures
        final(gpu)@ == old(gpu)@ + teardown_calls(views(old(scenes)@)),
        final(scenes)@.len() == 0,
{
    let ghost all = views(scenes@);
    let ghost mut done: int = 0;
    proof {
        assert(all.take(0) =~= Seq::empty());
        assert(scenes@ =~= old(scenes)@.skip(0));
    }
    while scenes.len() > 0
        invariant
            0 <= done <= all.len(),
            all == views(old(scenes)@),
            scenes@ == old(scenes)@.skip(done),
            gpu@ == old(gpu)@ + teardown_calls(all.take(done)),
        decreases scenes@.len(),
    {
        let mut scene = scenes.remove(0);
        proof {
            assert(scene == old(scenes)@[done]);
            assert(all.take(done + 1).drop_last() =~= all.take(done));
            assert(all.take(done + 1).last() == all[done]);
            assert(scenes@ =~= old(scenes)@.skip(done + 1));
        }
        scene.drop(gpu);
        proof {
            assert(gpu@ =~= old(gpu)@ + teardown_calls(all.take(done + 1)));
            done = done + 1;
        }
    }
    proof {
        assert(all.take(done) =~= all);
    }
}

/// What `run` does on `event`: wait for the next event, unless the user
/// asked to close the window.
pub open spec fn control_flow(event: WindowEvent) -> ControlFlow {
    if event == WindowEvent::CloseRequested {
        ControlFlow::Exit
    } else {
        ControlFlow::Wait
    }
}

/// Handles one event of the window's loop.
///
/// A request to redraw records a frame and asks for the buffers to be
/// swapped; the end of the loop tears the scenes down; a request to close
/// ends the loop. A frame that cannot be drawn is an error.
pub fn run(event: WindowEvent, scenes: &mut Vec<Scene>, gpu: &mut Vec<GlCall>) -> (r: Result<
    Reaction,
    UniformError,
>)
    ensures
        match event {
            WindowEvent::RedrawRequested => {
                &&& final(scenes)@ == old(scenes)@
                &&& final(gpu)@ == old(gpu)@ + issued(redraw_steps(views(old(scenes)@)))
                &&& match failure(redraw_steps(views(old(scenes)@))) {
                    None => r == Ok::<Reaction, UniformError>(
                        Reaction { flow: ControlFlow::Wait, swap: true },
                    ),
                    Some(e) => r == Err::<Reaction, UniformError>(e),
                }
            },
            WindowEvent::LoopDestroyed => {
                &&& final(scenes)@.len() == 0
                &&& final(gpu)@ == old(gpu)@ + teardown_calls(views(old(scenes)@))
                &&& r == Ok::<Reaction, UniformError>(
                    Reaction { flow: ControlFlow::Wait, swap: false },
                )
            },
            _ => {
                &&& final(scenes)@ == old(scenes)@
                &&& final(gpu)@ == old(gpu)@
                &&& r == Ok::<Reaction, UniformError>(
                    Reaction { flow: control_flow(event), swap: false },
                )
            },
        },
{
    match event {
        WindowEvent::CloseRequested => Ok(Reaction { flow: ControlFlow::Exit, swap: false }),
        WindowEvent::LoopDestroyed => {
            destroy(scenes, gpu);
            Ok(Reaction { flow: ControlFlow::Wait, swap: false })
        },
        WindowEvent::RedrawRequested => {
            match redraw(scenes, gpu) {
                Ok(()) => Ok(Reaction { flow: ControlFlow::Wait, swap: true }),
                Err(e) => Err(e),
            }
        },
        WindowEvent::Other => Ok(Reaction { flow: ControlFlow::Wait, swap: false }),
    }
}

} // verus!
