//! Draw passes and scenes.
//!
//! A scene owns pools of GPU resources and an ordered list of draw passes.
//! A pass names the resources it needs by their index in the pools, so one
//! engine draws lines, triangles and textured quads alike.

use vstd::prelude::*;
use crate::gl_wrap::{
    Bind, Buffer, Drop, DrawType, GlCall, Program, Texture, UniformError, UniformMat, UniformVec,
    VertexArray,
};

verus! {

/// The calls that a run of `steps` issues: every step up to the first one
/// that fails.
pub open spec fn issued(steps: Seq<Result<GlCall, UniformError>>) -> Seq<GlCall>
    decreases steps.len(),
{
    if steps.len() == 0 {
        Seq::empty()
    } else if failure(steps.drop_last()) is Some {
        issued(steps.drop_last())
    } else {
        match steps.last() {
            Ok(call) => issued(steps.drop_last()).push(call),
            Err(_) => issued(steps.drop_last()),
        }
    }
}

/// The error that ends a run of `steps`: that of the first step that fails.
pub open spec fn failure(steps: Seq<Result<GlCall, UniformError>>) -> Option<UniformError>
    decreases steps.len(),
{
    if steps.len() == 0 {
        None
    } else if failure(steps.drop_last()) is Some {
        failure(steps.drop_last())
    } else {
        match steps.last() {
            Ok(_) => None,
            Err(e) => Some(e),
        }
    }
}

/// A run of `a` followed by `b` is the run of `a`, and then that of `b` unless
/// `a` failed.
pub proof fn lemma_run_concat(
    a: Seq<Result<GlCall, UniformError>>,
    b: Seq<Result<GlCall, UniformError>>,
)
    ensures
        failure(a + b) == if failure(a) is Some {
            failure(a)
        } else {
            failure(b)
        },
        issued(a + b) == if failure(a) is Some {
            issued(a)
        } else {
            issued(a) + issued(b)
        },
    decreases b.len(),
{
    if b.len() == 0 {
        assert(a + b =~= a);
        assert(issued(a) + issued(b) =~= issued(a));
    } else {
        lemma_run_concat(a, b.drop_last());
        assert((a + b).drop_last() =~= a + b.drop_last());
        assert((a + b).last() == b.last());
        if failure(a) is None && failure(b.drop_last()) is None {
            match b.last() {
                Ok(call) => {
                    assert((issued(a) + issued(b.drop_last())).push(call) =~= issued(a) + issued(
                        b.drop_last(),
                    ).push(call));
                },
                Err(_) => {},
            }
        }
    }
}

/// The resource pools that draw passes index into.
pub struct Pools {
    pub programs: Seq<Program>,
    pub vaos: Seq<VertexArray>,
    pub textures: Seq<Texture>,
    pub matrices: Seq<UniformMat>,
    pub vectors: Seq<UniformVec>,
}

/// The resources of one draw pass, each by its index in the pool of its
/// kind. A uniform is named by a pair: the index of the uniform, then the
/// index of the value to write among those it stores.
#[derive(Clone, Debug, PartialEq, Eq)]
pub struct DrawInds {
    pub program: usize,
    pub vao: usize,
    pub texture: Option<usize>,
    pub matrix: Vec<(usize, usize)>,
    pub vector: Vec<(usize, usize)>,
}

impl DrawInds {
    /// Every index lies within its pool, and every value index within the
    /// values of its uniform.
    pub open spec fn valid(&self, pools: Pools) -> bool {
        &&& self.program < pools.programs.len()
        &&& self.vao < pools.vaos.len()
        &&& self.texture matches Some(t) ==> t < pools.textures.len()
        &&& forall|k: int|
            0 <= k < self.matrix@.len() ==> {
                &&& (#[trigger] self.matrix@[k]).0 < pools.matrices.len()
                &&& self.matrix@[k].1 < pools.matrices[self.matrix@[k].0 as int].values@.len()
            }
        &&& forall|k: int|
            0 <= k < self.vector@.len() ==> {
                &&& (#[trigger] self.vector@[k]).0 < pools.vectors.len()
                &&& self.vector@[k].1 < pools.vectors[self.vector@[k].0 as int].values@.len()
            }
    }

    /// Decides `valid` against the given pools.
    pub fn is_valid(
        &self,
        programs: &[Program],
        vaos: &[VertexArray],
        textures: &[Texture],
        matrices: &[UniformMat],
        vectors: &[UniformVec],
    ) -> (b: bool)
        ensures
            b == self.valid(
                Pools {
                    programs: programs@,
                    vaos: vaos@,
                    textures: textures@,
                    matrices: matrices@,
                    vectors: vectors@,
                },
            ),
    {
        if self.program >= programs.len() || self.vao >= vaos.len() {
            return false;
        }
        if let Some(t) = self.texture {
            if t >= textures.len() {
                return false;
            }
        }
        let mut k: usize = 0;
        while k < self.matrix.len()
            invariant
                k <= self.matrix@.len(),
                forall|j: int|
                    0 <= j < k ==> {
                        &&& (#[trigger] self.matrix@[j]).0 < matrices@.len()
                        &&& self.matrix@[j].1 < matrices@[self.matrix@[j].0 as int].values@.len()
                    },
            decreases self.matrix@.len() - k,
        {
            let r = self.matrix[k];
            if r.0 >= matrices.len() {
                return false;
            }
            if r.1 >= matrices[r.0].values.len() {
                return false;
            }
            k += 1;
        }
        let mut k: usize = 0;
        while k < self.vector.len()
            invariant
                k <= self.vector@.len(),
                forall|j: int|
                    0 <= j < k ==> {
                        &&& (#[trigger] self.vector@[j]).0 < vectors@.len()
                        &&& self.vector@[j].1 < vectors@[self.vector@[j].0 as int].values@.len()
                    },
            decreases self.vector@.len() - k,
        {
            let r = self.vector[k];
            if r.0 >= vectors.len() {
                return false;
            }
            if r.1 >= vectors[r.0].values.len() {
                return false;
            }
            k += 1;
        }
        true
    }
}

/// One draw call and the resources to bind before it.
#[derive(Clone, Debug, PartialEq, Eq)]
pub struct DrawPass {
    pub draw_type: DrawType,
    pub start: i32,
    pub count: i32,
    pub inds: DrawInds,
}

impl DrawPass {
    pub fn new(draw_type: DrawType, start: i32, count: i32, inds: DrawInds) -> (pass: Self)
        ensures
            pass == (DrawPass { draw_type, start, count, inds }),
    {
        DrawPass { draw_type, start, count, inds }
    }

    /// Whether the pass draws `count` vertices from `start` on as `draw_type`,
    /// with the resources at the given indices.
    pub open spec fn is(
        &self,
        draw_type: DrawType,
        start: int,
        count: int,
        program: int,
        vao: int,
        texture: Option<usize>,
        matrix: Seq<(usize, usize)>,
        vector: Seq<(usize, usize)>,
    ) -> bool {
        &&& self.draw_type == draw_type
        &&& self.start == start
        &&& self.count == count
        &&& self.inds.program == program
        &&& self.inds.vao == vao
        &&& self.inds.texture == texture
        &&& self.inds.matrix@ =~= matrix
        &&& self.inds.vector@ =~= vector
    }

    /// The steps that make the pass's resources current: use the program,
    /// bind the vertex layout, bind the texture if there is one.
    pub open spec fn bind_steps(&self, pools: Pools) -> Seq<Result<GlCall, UniformError>> {
        seq![
            Ok(GlCall::UseProgram { program: pools.programs[self.inds.program as int].id }),
            Ok(GlCall::BindVertexArray { array: pools.vaos[self.inds.vao as int].id }),
        ] + (match self.inds.texture {
            Some(t) => seq![Ok(GlCall::BindTexture { texture: pools.textures[t as int].id })],
            None => Seq::empty(),
        })
    }

    /// The steps that write the pass's matrix uniforms, in the order in which
    /// the pass lists them.
    pub open spec fn matrix_steps(&self, pools: Pools) -> Seq<Result<GlCall, UniformError>> {
        Seq::new(
            self.inds.matrix@.len(),
            |k: int|
                pools.matrices[self.inds.matrix@[k].0 as int].set_step(
                    self.inds.matrix@[k].1 as int,
                    pools.programs[self.inds.program as int],
                ),
        )
    }

    /// The steps that write the pass's vector uniforms, in the order in which
    /// the pass lists them.
    pub open spec fn vector_steps(&self, pools: Pools) -> Seq<Result<GlCall, UniformError>> {
        Seq::new(
            self.inds.vector@.len(),
            |k: int|
                pools.vectors[self.inds.vector@[k].0 as int].set_step(
                    self.inds.vector@[k].1 as int,
                    pools.programs[self.inds.program as int],
                ),
        )
    }

    /// The draw call of the pass.
    pub open spec fn draw_call(&self) -> GlCall {
        GlCall::DrawArrays { mode: self.draw_type, first: self.start, count: self.count }
    }

    /// The steps of the pass, in order: make its resources current, write
    /// every matrix uniform and then every vector uniform, draw.
    pub open spec fn steps(&self, pools: Pools) -> Seq<Result<GlCall, UniformError>> {
        self.bind_steps(pools) + self.matrix_steps(pools) + self.vector_steps(pools) + seq![
            Ok(self.draw_call()),
        ]
    }

    fn set_matrices(&self, program: &Program, matrices: &[UniformMat], gpu: &mut Vec<GlCall>, Ghost(pools): Ghost<Pools>) -> (r: Result<(), UniformError>)
        requires
            self.inds.valid(pools),
            pools.matrices == matrices@,
            *program == pools.programs[self.inds.program as int],
        ensures
            final(gpu)@ == old(gpu)@ + issued(self.matrix_steps(pools)),
            match failure(self.matrix_steps(pools)) {
                None => r is Ok,
                Some(e) => r == Err::<(), UniformError>(e),
            },
    {
        let ghost steps = self.matrix_steps(pools);
        proof {
            assert(steps.take(0) =~= Seq::empty());
        }
        let mut k: usize = 0;
        while k < self.inds.matrix.len()
            invariant
                k <= self.inds.matrix@.len(),
                self.inds.valid(pools),
                pools.matrices == matrices@,
                *program == pools.programs[self.inds.program as int],
                steps == self.matrix_steps(pools),
                gpu@ == old(gpu)@ + issued(steps.take(k as int)),
                failure(steps.take(k as int)) is None,
            decreases self.inds.matrix@.len() - k,
        {
            let r = self.inds.matrix[k];
            proof {
                lemma_run_push(steps, k as int);
            }
            match matrices[r.0].set(r.1, program, gpu) {
                Ok(()) => {},
                Err(e) => {
                    proof {
                        lemma_run_take(steps, k + 1);
                    }
                    return Err(e);
                },
            }
            assert(old(gpu)@ + issued(steps.take(k as int)).push(steps[k as int]->Ok_0) =~= (old(
                gpu,
            )@ + issued(steps.take(k as int))).push(steps[k as int]->Ok_0));
            k += 1;
        }
        proof {
            assert(steps.take(k as int) =~= steps);
        }
        Ok(())
    }

    fn set_vectors(&self, program: &Program, vectors: &[UniformVec], gpu: &mut Vec<GlCall>, Ghost(pools): Ghost<Pools>) -> (r: Result<(), UniformError>)
        requires
            self.inds.valid(pools),
            pools.vectors == vectors@,
            *program == pools.programs[self.inds.program as int],
        ensures
            final(gpu)@ == old(gpu)@ + issued(self.vector_steps(pools)),
            match failure(self.vector_steps(pools)) {
                None => r is Ok,
                Some(e) => r == Err::<(), UniformError>(e),
            },
    {
        let ghost steps = self.vector_steps(pools);
        proof {
            assert(steps.take(0) =~= Seq::empty());
        }
        let mut k: usize = 0;
        while k < self.inds.vector.len()
            invariant
                k <= self.inds.vector@.len(),
                self.inds.valid(pools),
                pools.vectors == vectors@,
                *program == pools.programs[self.inds.program as int],
                steps == self.vector_steps(pools),
                gpu@ == old(gpu)@ + issued(steps.take(k as int)),
                failure(steps.take(k as int)) is None,
            decreases self.inds.vector@.len() - k,
        {
            let r = self.inds.vector[k];
            proof {
                lemma_run_push(steps, k as int);
            }
            match vectors[r.0].set(r.1, program, gpu) {
                Ok(()) => {},
                Err(e) => {
                    proof {
                        lemma_run_take(steps, k + 1);
                    }
                    return Err(e);
                },
            }
            assert(old(gpu)@ + issued(steps.take(k as int)).push(steps[k as int]->Ok_0) =~= (old(
                gpu,
            )@ + issued(steps.take(k as int))).push(steps[k as int]->Ok_0));
            k += 1;
        }
        proof {
            assert(steps.take(k as int) =~= steps);
        }
        Ok(())
    }

    /// Records the calls of the pass. Stops at the first uniform that has no
    /// location in the pass's program, and reports it.
    pub fn draw(
        &self,
        programs: &[Program],
        vaos: &[VertexArray],
        textures: &[Texture],
        matrices: &[UniformMat],
        vectors: &[UniformVec],
        gpu: &mut Vec<GlCall>,
    ) -> (r: Result<(), UniformError>)
        requires
            self.inds.valid(
                Pools {
                    programs: programs@,
                    vaos: vaos@,
                    textures: textures@,
                    matrices: matrices@,
                    vectors: vectors@,
                },
            ),
        ensures
            ({
                let steps = self.steps(
                    Pools {
                        programs: programs@,
                        vaos: vaos@,
                        textures: textures@,
                        matrices: matrices@,
                        vectors: vectors@,
                    },
                );
                &&& final(gpu)@ == old(gpu)@ + issued(steps)
                &&& match failure(steps) {
                    None => r is Ok,
                    Some(e) => r == Err::<(), UniformError>(e),
                }
            }),
    {
        let ghost pools = Pools {
            programs: programs@,
            vaos: vaos@,
            textures: textures@,
            matrices: matrices@,
            vectors: vectors@,
        };
        let ghost binds = self.bind_steps(pools);
        let ghost mats = self.matrix_steps(pools);
        let ghost vecs = self.vector_steps(pools);
        let ghost last = seq![Ok::<GlCall, UniformError>(self.draw_call())];
        proof {
            lemma_run_all_ok(binds);
            lemma_run_all_ok(last);
            lemma_run_concat(binds, mats);
            lemma_run_concat(binds + mats, vecs);
            lemma_run_concat(binds + mats + vecs, last);
        }
        let program = &programs[self.inds.program];
        program.bind(gpu);
        vaos[self.inds.vao].bind(gpu);
        if let Some(ind) = self.inds.texture {
            textures[ind].bind(gpu);
        }
        assert(gpu@ =~= old(gpu)@ + issued(binds));
        self.set_matrices(program, matrices, gpu, Ghost(pools))?;
        assert(gpu@ =~= old(gpu)@ + issued(binds + mats));
        self.set_vectors(program, vectors, gpu, Ghost(pools))?;
        assert(gpu@ =~= old(gpu)@ + issued(binds + mats + vecs));
        gpu.push(self.draw_call_exec());
        assert(gpu@ =~= old(gpu)@ + issued(binds + mats + vecs + last));
        Ok(())
    }

    fn draw_call_exec(&self) -> (call: GlCall)
        ensures
            call == self.draw_call(),
    {
        GlCall::DrawArrays { mode: self.draw_type, first: self.start, count: self.count }
    }
}

/// A run of steps that all succeed issues the call of each, and does not
/// fail.
pub proof fn lemma_run_all_ok(steps: Seq<Result<GlCall, UniformError>>)
    requires
        forall|k: int| 0 <= k < steps.len() ==> steps[k] is Ok,
    ensures
        failure(steps) is None,
        issued(steps) == Seq::new(steps.len(), |k: int| steps[k]->Ok_0),
    decreases steps.len(),
{
    if steps.len() > 0 {
        lemma_run_all_ok(steps.drop_last());
    }
    assert(issued(steps) =~= Seq::new(steps.len(), |k: int| steps[k]->Ok_0));
}

/// The steps of `passes`, one pass after the other in the order of the list.
pub open spec fn scene_steps(passes: Seq<DrawPass>, pools: Pools) -> Seq<Result<GlCall, UniformError>>
    decreases passes.len(),
{
    if passes.len() == 0 {
        Seq::empty()
    } else {
        scene_steps(passes.drop_last(), pools) + passes.last().steps(pools)
    }
}

/// The calls that release every resource of `pool`, in the order of the pool.
pub open spec fn delete_calls<T: Drop>(pool: Seq<T>) -> Seq<GlCall>
    decreases pool.len(),
{
    if pool.len() == 0 {
        Seq::empty()
    } else {
        delete_calls(pool.drop_last()) + pool.last().drop_calls()
    }
}

/// What a scene holds: its passes in drawing order, and its resources.
pub struct SceneView {
    pub passes: Seq<DrawPass>,
    pub pools: Pools,
    pub buffers: Seq<Buffer>,
}

impl SceneView {
    /// The scene that holds nothing.
    pub open spec fn empty() -> SceneView {
        SceneView {
            passes: Seq::empty(),
            pools: Pools {
                programs: Seq::empty(),
                vaos: Seq::empty(),
                textures: Seq::empty(),
                matrices: Seq::empty(),
                vectors: Seq::empty(),
            },
            buffers: Seq::empty(),
        }
    }

    /// Every pass names resources that the scene holds.
    pub open spec fn valid(self) -> bool {
        forall|i: int| 0 <= i < self.passes.len() ==> (#[trigger] self.passes[i]).inds.valid(self.pools)
    }

    /// The steps of drawing the scene: those of its passes, in list order.
    pub open spec fn steps(self) -> Seq<Result<GlCall, UniformError>> {
        scene_steps(self.passes, self.pools)
    }

    /// The calls of tearing the scene down: every program, then every vertex
    /// layout, then every texture, then every buffer.
    pub open spec fn drop_calls(self) -> Seq<GlCall> {
        delete_calls(self.pools.programs) + delete_calls(self.pools.vaos) + delete_calls(
            self.pools.textures,
        ) + delete_calls(self.buffers)
    }
}

/// GPU resources and the passes that draw with them. A scene is the only
/// owner of its resources: it is built once, drawn any number of times, and
/// releases them when it is dropped.
pub struct Scene {
    passes: Vec<DrawPass>,
    programs: Vec<Program>,
    vaos: Vec<VertexArray>,
    buffers: Vec<Buffer>,
    textures: Vec<Texture>,
    matrices: Vec<UniformMat>,
    vectors: Vec<UniformVec>,
}

impl View for Scene {
    type V = SceneView;

    closed spec fn view(&self) -> SceneView {
        SceneView {
            passes: self.passes@,
            pools: Pools {
                programs: self.programs@,
                vaos: self.vaos@,
                textures: self.textures@,
                matrices: self.matrices@,
                vectors: self.vectors@,
            },
            buffers: self.buffers@,
        }
    }
}

fn drop_all<T: Drop>(pool: &Vec<T>, gpu: &mut Vec<GlCall>)
    ensures
        final(gpu)@ == old(gpu)@ + delete_calls(pool@),
{
    let mut i: usize = 0;
    proof {
        assert(pool@.take(0) =~= Seq::empty());
    }
    while i < pool.len()
        invariant
            i <= pool@.len(),
            gpu@ == old(gpu)@ + delete_calls(pool@.take(i as int)),
        decreases pool@.len() - i,
    {
        proof {
            assert(pool@.take(i + 1).drop_last() =~= pool@.take(i as int));
            assert(pool@.take(i + 1).last() == pool@[i as int]);
        }
        pool[i].drop(gpu);
        i += 1;
    }
    proof {
        assert(pool@.take(i as int) =~= pool@);
    }
}

impl Scene {
    #[verifier::type_invariant]
    spec fn inv(self) -> bool {
        self@.valid()
    }

    /// Builds a scene, or `None` if a pass names a resource that the pools do
    /// not hold.
    pub fn new(
        passes: Vec<DrawPass>,
        programs: Vec<Program>,
        vaos: Vec<VertexArray>,
        buffers: Vec<Buffer>,
        textures: Vec<Texture>,
        matrices: Vec<UniformMat>,
        vectors: Vec<UniformVec>,
    ) -> (r: Option<Scene>)
        ensures
            ({
                let view = SceneView {
                    passes: passes@,
                    pools: Pools {
                        programs: programs@,
                        vaos: vaos@,
                        textures: textures@,
                        matrices: matrices@,
                        vectors: vectors@,
                    },
                    buffers: buffers@,
                };
                match r {
                    Some(scene) => view.valid() && scene@ == view,
                    None => !view.valid(),
                }
            }),
    {
        let mut i: usize = 0;
        while i < passes.len()
            invariant
                i <= passes@.len(),
                forall|j: int|
                    0 <= j < i ==> (#[trigger] passes@[j]).inds.valid(
                        Pools {
                            programs: programs@,
                            vaos: vaos@,
                            textures: textures@,
                            matrices: matrices@,
                            vectors: vectors@,
                        },
                    ),
            decreases passes@.len() - i,
        {
            if !passes[i].inds.is_valid(
                programs.as_slice(),
                vaos.as_slice(),
                textures.as_slice(),
                matrices.as_slice(),
                vectors.as_slice(),
            ) {
                return None;
            }
            i += 1;
        }
        Some(Scene { passes, programs, vaos, buffers, textures, matrices, vectors })
    }

    /// Records the calls of every pass, in list order. Stops at the first
    /// uniform that has no location in its pass's program, and reports it.
    pub fn draw(&self, gpu: &mut Vec<GlCall>) -> (r: Result<(), UniformError>)
        ensures
            final(gpu)@ == old(gpu)@ + issued(self@.steps()),
            match failure(self@.steps()) {
                None => r is Ok,
                Some(e) => r == Err::<(), UniformError>(e),
            },
    {
        proof {
            use_type_invariant(self);
            assert(self.passes@.take(0) =~= Seq::empty());
        }
        let ghost pools = self@.pools;
        let mut i: usize = 0;
        while i < self.passes.len()
            invariant
                i <= self.passes@.len(),
                self@.valid(),
                pools == self@.pools,
                gpu@ == old(gpu)@ + issued(scene_steps(self.passes@.take(i as int), pools)),
                failure(scene_steps(self.passes@.take(i as int), pools)) is None,
            decreases self.passes@.len() - i,
        {
            let ghost before = scene_steps(self.passes@.take(i as int), pools);
            let ghost pass = self.passes@[i as int].steps(pools);
            proof {
                assert(self.passes@.take(i + 1).drop_last() =~= self.passes@.take(i as int));
                assert(self.passes@.take(i + 1).last() == self.passes@[i as int]);
                lemma_run_concat(before, pass);
                lemma_scene_steps_concat(self.passes@.take(i + 1), self.passes@.skip(i + 1), pools);
                assert(self.passes@.take(i + 1) + self.passes@.skip(i + 1) =~= self.passes@);
                lemma_run_concat(before + pass, scene_steps(self.passes@.skip(i + 1), pools));
            }
            let r = self.passes[i].draw(
                self.programs.as_slice(),
                self.vaos.as_slice(),
                self.textures.as_slice(),
                self.matrices.as_slice(),
                self.vectors.as_slice(),
                gpu,
            );
            assert(gpu@ =~= old(gpu)@ + issued(before + pass));
            match r {
                Ok(()) => {},
                Err(e) => {
                    return Err(e);
                },
            }
            i += 1;
        }
        proof {
            assert(self.passes@.take(i as int) =~= self.passes@);
        }
        Ok(())
    }

    /// Releases every resource of the scene: programs, vertex layouts,
    /// textures, then buffers. The scene holds nothing afterwards, so drawing
    /// it or dropping it again records no call.
    pub fn drop(&mut self, gpu: &mut Vec<GlCall>)
        ensures
            final(gpu)@ == old(gpu)@ + old(self)@.drop_calls(),
            final(self)@ == SceneView::empty(),
    {
        drop_all(&self.programs, gpu);
        drop_all(&self.vaos, gpu);
        drop_all(&self.textures, gpu);
        drop_all(&self.buffers, gpu);
        assert(gpu@ =~= old(gpu)@ + old(self)@.drop_calls());
        self.passes = Vec::new();
        self.programs = Vec::new();
        self.vaos = Vec::new();
        self.buffers = Vec::new();
        self.textures = Vec::new();
        self.matrices = Vec::new();
        self.vectors = Vec::new();
    }
}

/// The steps of a list of passes are those of its front followed by those of
/// its back.
pub proof fn lemma_scene_steps_concat(front: Seq<DrawPass>, back: Seq<DrawPass>, pools: Pools)
    ensures
        scene_steps(front + back, pools) == scene_steps(front, pools) + scene_steps(back, pools),
    decreases back.len(),
{
    if back.len() == 0 {
        assert(front + back =~= front);
        assert(scene_steps(front, pools) + scene_steps(back, pools) =~= scene_steps(front, pools));
    } else {
        lemma_scene_steps_concat(front, back.drop_last(), pools);
        assert((front + back).drop_last() =~= front + back.drop_last());
        assert((front + back).last() == back.last());
        assert(scene_steps(front, pools) + scene_steps(back.drop_last(), pools) + back.last().steps(
            pools,
        ) =~= scene_steps(front, pools) + (scene_steps(back.drop_last(), pools)
            + back.last().steps(pools)));
    }
}

/// The calls of `passes` when each is drawn on its own, laid end to end in
/// the order of the list.
pub open spec fn calls_in_order(passes: Seq<DrawPass>, pools: Pools) -> Seq<GlCall>
    decreases passes.len(),
{
    if passes.len() == 0 {
        Seq::empty()
    } else {
        calls_in_order(passes.drop_last(), pools) + issued(passes.last().steps(pools))
    }
}

/// Drawing keeps the order of the pass list: where no pass fails, a scene
/// records the calls of its first pass, then those of its second, and so on
/// to its last.
pub proof fn lemma_draw_keeps_pass_order(passes: Seq<DrawPass>, pools: Pools)
    requires
        failure(scene_steps(passes, pools)) is None,
    ensures
        issued(scene_steps(passes, pools)) == calls_in_order(passes, pools),
        forall|i: int| 0 <= i < passes.len() ==> failure(#[trigger] passes[i].steps(pools)) is None,
    decreases passes.len(),
{
    if passes.len() > 0 {
        lemma_run_concat(scene_steps(passes.drop_last(), pools), passes.last().steps(pools));
        lemma_draw_keeps_pass_order(passes.drop_last(), pools);
        assert forall|i: int| 0 <= i < passes.len() implies failure(
            #[trigger] passes[i].steps(pools),
        ) is None by {
            if i < passes.len() - 1 {
                assert(passes[i] == passes.drop_last()[i]);
            }
        }
    }
}

/// Teardown happens once: a scene that was dropped holds nothing, so a
/// second drop records no call and drawing it records none either.
pub proof fn lemma_drop_happens_once(scene: SceneView)
    ensures
        SceneView::empty().valid(),
        SceneView::empty().drop_calls() == Seq::<GlCall>::empty(),
        scene.drop_calls() + SceneView::empty().drop_calls() == scene.drop_calls(),
        issued(SceneView::empty().steps()) == Seq::<GlCall>::empty(),
        failure(SceneView::empty().steps()) is None,
{
    assert(SceneView::empty().drop_calls() =~= Seq::<GlCall>::empty());
    assert(scene.drop_calls() + Seq::<GlCall>::empty() =~= scene.drop_calls());
}

/// What one more step adds to the run of the first `n` steps.
proof fn lemma_run_push(steps: Seq<Result<GlCall, UniformError>>, n: int)
    requires
        0 <= n < steps.len(),
        failure(steps.take(n)) is None,
    ensures
        match steps[n] {
            Ok(call) => {
                &&& issued(steps.take(n + 1)) == issued(steps.take(n)).push(call)
                &&& failure(steps.take(n + 1)) is None
            },
            Err(e) => {
                &&& issued(steps.take(n + 1)) == issued(steps.take(n))
                &&& failure(steps.take(n + 1)) == Some(e)
            },
        },
{
    assert(steps.take(n + 1).drop_last() =~= steps.take(n));
    assert(steps.take(n + 1).last() == steps[n]);
}

/// A run that failed within its first `n` steps is over: what follows adds
/// nothing.
proof fn lemma_run_take(steps: Seq<Result<GlCall, UniformError>>, n: int)
    requires
        0 <= n <= steps.len(),
    ensures
        failure(steps.take(n)) is Some ==> failure(steps) == failure(steps.take(n)) && issued(
            steps,
        ) == issued(steps.take(n)),
{
    lemma_run_concat(steps.take(n), steps.skip(n));
    assert(steps.take(n) + steps.skip(n) =~= steps);
}

} // verus!
