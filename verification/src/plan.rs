//! Scene plans: what a renderer has to create before a scene can be drawn.
//!
//! A plan names shader files, vertex data, attribute layouts and uniforms,
//! and lists the draw passes over them. Creating the resources is the
//! application's part; it hands back their handles and gets the scene.

use vstd::prelude::*;
use crate::gl_wrap::{
    Buffer, Program, Texture, UniformError, UniformMat, UniformVec, VertexArray,
};
use crate::scene::{DrawPass, Pools, Scene, SceneView};
use crate::vertices::{PosVert, TextVert};

verus! {

/// The two source files of a shader program.
#[derive(Clone, Copy, Debug, PartialEq, Eq)]
pub struct ProgramFiles {
    pub vertex: &'static str,
    pub fragment: &'static str,
}

impl ProgramFiles {
    pub open spec fn is(&self, vertex: Seq<char>, fragment: Seq<char>) -> bool {
        self.vertex@ =~= vertex && self.fragment@ =~= fragment
    }
}

/// One vertex attribute: its name in the shader, how many 32-bit components
/// it has, and how many components precede it in a vertex.
#[derive(Clone, Copy, Debug, PartialEq, Eq)]
pub struct Attribute {
    pub name: &'static str,
    pub size: i32,
    pub offset: i32,
}

impl Attribute {
    pub open spec fn is(&self, name: Seq<char>, size: int, offset: int) -> bool {
        self.name@ =~= name && self.size == size && self.offset == offset
    }
}

/// Size in bytes of one component of a vertex.
pub const COMPONENT_SIZE: i32 = 4;

impl Attribute {
    /// Where the attribute starts within a vertex, in bytes.
    pub fn byte_offset(&self) -> (bytes: i64)
        ensures
            bytes == self.offset * COMPONENT_SIZE,
    {
        let size: i64 = COMPONENT_SIZE as i64;
        assert(size == 4);
        self.offset as i64 * size
    }
}

/// The contents of a vertex buffer.
#[derive(Debug, PartialEq, Eq)]
pub enum VertexData {
    Position(Vec<PosVert>),
    Text(Vec<TextVert>),
}

impl VertexData {
    /// How many 32-bit components a vertex of this kind has: three for a
    /// point, seven for a glyph corner.
    pub open spec fn components(&self) -> int {
        match self {
            VertexData::Position(_) => 3,
            VertexData::Text(_) => 7,
        }
    }

    /// The distance in bytes from one vertex to the next.
    pub fn stride(&self) -> (bytes: i32)
        ensures
            bytes == self.components() * COMPONENT_SIZE,
    {
        match self {
            VertexData::Position(_) => 3 * COMPONENT_SIZE,
            VertexData::Text(_) => 7 * COMPONENT_SIZE,
        }
    }
}

/// A vertex buffer and the layout that reads it: the program whose
/// attributes are set, the vertices, and their attributes.
#[derive(Debug, PartialEq, Eq)]
pub struct BufferPlan {
    pub program: usize,
    pub data: VertexData,
    pub attributes: Vec<Attribute>,
}

impl BufferPlan {
    /// A buffer of points for `program`: one attribute, the position.
    pub open spec fn holds_points(&self, program: int, verts: Seq<PosVert>) -> bool {
        &&& self.program == program
        &&& self.data matches VertexData::Position(v) && v@ =~= verts
        &&& self.attributes@.len() == 1
        &&& self.attributes@[0].is("position"@, 3, 0)
    }

    /// A buffer of glyph corners for `program`: the anchor, the offset from
    /// it, and the point of the atlas.
    pub open spec fn holds_text(&self, program: int, verts: Seq<TextVert>) -> bool {
        &&& self.program == program
        &&& self.data matches VertexData::Text(v) && v@ =~= verts
        &&& self.attributes@.len() == 3
        &&& self.attributes@[0].is("position"@, 3, 0)
        &&& self.attributes@[1].is("offset"@, 2, 3)
        &&& self.attributes@[2].is("a_texCoord"@, 2, 5)
    }

    /// A buffer of points for the program at index `program`.
    pub fn points(program: usize, verts: Vec<PosVert>) -> (plan: Self)
        ensures
            plan.holds_points(program as int, verts@),
    {
        let mut attributes: Vec<Attribute> = Vec::new();
        attributes.push(Attribute { name: "position", size: 3, offset: 0 });
        BufferPlan { program, data: VertexData::Position(verts), attributes }
    }

    /// A buffer of glyph corners for the program at index `program`.
    pub fn text(program: usize, verts: Vec<TextVert>) -> (plan: Self)
        ensures
            plan.holds_text(program as int, verts@),
    {
        let mut attributes: Vec<Attribute> = Vec::new();
        attributes.push(Attribute { name: "position", size: 3, offset: 0 });
        attributes.push(Attribute { name: "offset", size: 2, offset: 3 });
        attributes.push(Attribute { name: "a_texCoord", size: 2, offset: 5 });
        BufferPlan { program, data: VertexData::Text(verts), attributes }
    }
}

/// A matrix uniform to look up: the program it belongs to, its name in the
/// shader, and its values as bit patterns of 32-bit floats.
#[derive(Debug, PartialEq, Eq)]
pub struct MatrixPlan {
    pub program: usize,
    pub name: &'static str,
    pub values: Vec<[u32; 16]>,
}

/// A vector uniform to look up: the program it belongs to, its name in the
/// shader, and its values as bit patterns of 32-bit floats.
#[derive(Debug, PartialEq, Eq)]
pub struct VectorPlan {
    pub program: usize,
    pub name: &'static str,
    pub values: Vec<[u32; 4]>,
}

impl MatrixPlan {
    pub open spec fn is(&self, program: int, name: Seq<char>, values: Seq<[u32; 16]>) -> bool {
        self.program == program && self.name@ =~= name && self.values@ =~= values
    }
}

impl VectorPlan {
    pub open spec fn is(&self, program: int, name: Seq<char>, values: Seq<[u32; 4]>) -> bool {
        self.program == program && self.name@ =~= name && self.values@ =~= values
    }
}

/// Why a plan did not become a scene.
#[derive(Clone, Copy, Debug, PartialEq, Eq)]
pub enum BuildError {
    /// A uniform of the plan is missing from its shader.
    Uniform(UniformError),
    /// The handles are not those the plan asks for, or a pass names a
    /// resource that the scene does not hold. This is a mistake of the
    /// program, not of its input.
    Mismatch,
}

/// Everything a scene is made of, before any of it exists on the GPU.
pub struct ScenePlan {
    /// The programs to build.
    pub programs: Vec<ProgramFiles>,
    /// The buffers to fill, each with a vertex layout of its own.
    pub buffers: Vec<BufferPlan>,
    /// The textures, which exist already.
    pub textures: Vec<Texture>,
    /// The matrix uniforms to look up.
    pub matrices: Vec<MatrixPlan>,
    /// The vector uniforms to look up.
    pub vectors: Vec<VectorPlan>,
    /// The passes that draw the scene.
    pub passes: Vec<DrawPass>,
}

impl ScenePlan {
    /// Whether the handles given are those the plan asks for: one program for
    /// each pair of files, one layout and one buffer for each buffer planned,
    /// one location for each uniform; and every uniform and every buffer
    /// belongs to one of the programs.
    pub open spec fn realized_by(
        &self,
        programs: Seq<Program>,
        vaos: Seq<VertexArray>,
        buffers: Seq<Buffer>,
        matrix_locations: Seq<i32>,
        vector_locations: Seq<i32>,
    ) -> bool {
        &&& programs.len() == self.programs@.len()
        &&& vaos.len() == self.buffers@.len()
        &&& buffers.len() == self.buffers@.len()
        &&& matrix_locations.len() == self.matrices@.len()
        &&& vector_locations.len() == self.vectors@.len()
        &&& forall|i: int|
            0 <= i < self.buffers@.len() ==> (#[trigger] self.buffers@[i]).program < programs.len()
        &&& forall|i: int|
            0 <= i < self.matrices@.len() ==> (#[trigger] self.matrices@[i]).program
                < programs.len()
        &&& forall|i: int|
            0 <= i < self.vectors@.len() ==> (#[trigger] self.vectors@[i]).program < programs.len()
    }

    /// The matrix uniforms of the scene: each planned uniform with the id of
    /// its program and the location found for it.
    pub open spec fn matrix_pool(&self, programs: Seq<Program>, locations: Seq<i32>) -> Seq<
        UniformMat,
    > {
        Seq::new(
            self.matrices@.len(),
            |i: int|
                UniformMat {
                    program: programs[self.matrices@[i].program as int].id,
                    location: locations[i],
                    values: self.matrices@[i].values,
                },
        )
    }

    /// The vector uniforms of the scene: each planned uniform with the id of
    /// its program and the location found for it.
    pub open spec fn vector_pool(&self, programs: Seq<Program>, locations: Seq<i32>) -> Seq<
        UniformVec,
    > {
        Seq::new(
            self.vectors@.len(),
            |i: int|
                UniformVec {
                    program: programs[self.vectors@[i].program as int].id,
                    location: locations[i],
                    values: self.vectors@[i].values,
                },
        )
    }

    /// The scene that the plan and the handles make.
    pub open spec fn scene(
        &self,
        programs: Seq<Program>,
        vaos: Seq<VertexArray>,
        buffers: Seq<Buffer>,
        matrix_locations: Seq<i32>,
        vector_locations: Seq<i32>,
    ) -> SceneView {
        SceneView {
            passes: self.passes@,
            pools: Pools {
                programs,
                vaos,
                textures: self.textures@,
                matrices: self.matrix_pool(programs, matrix_locations),
                vectors: self.vector_pool(programs, vector_locations),
            },
            buffers,
        }
    }

    /// Whether a uniform of the plan is missing from its shader: the lookup
    /// of its name gave no location.
    pub open spec fn unresolved(matrix_locations: Seq<i32>, vector_locations: Seq<i32>) -> bool {
        ||| exists|i: int| 0 <= i < matrix_locations.len() && #[trigger] matrix_locations[i] < 0
        ||| exists|i: int| 0 <= i < vector_locations.len() && #[trigger] vector_locations[i] < 0
    }

    /// Makes the scene from the handles of the resources that were created
    /// for the plan, each list in the order of the plan.
    ///
    /// Fails if the handles are not those the plan asks for; else if a
    /// uniform is missing from its shader; else if a pass names a resource
    /// that the scene does not hold.
    pub fn build(
        self,
        programs: Vec<Program>,
        vaos: Vec<VertexArray>,
        buffers: Vec<Buffer>,
        matrix_locations: Vec<i32>,
        vector_locations: Vec<i32>,
    ) -> (r: Result<Scene, BuildError>)
        ensures
            ({
                let realized = self.realized_by(
                    programs@,
                    vaos@,
                    buffers@,
                    matrix_locations@,
                    vector_locations@,
                );
                let missing = Self::unresolved(matrix_locations@, vector_locations@);
                let scene = self.scene(
                    programs@,
                    vaos@,
                    buffers@,
                    matrix_locations@,
                    vector_locations@,
                );
                match r {
                    Ok(built) => realized && !missing && scene.valid() && built@ == scene,
                    Err(BuildError::Uniform(e)) => realized && missing && e
                        == UniformError::Unresolved,
                    Err(BuildError::Mismatch) => !realized || (!missing && !scene.valid()),
                }
            }),
    {
        if programs.len() != self.programs.len() || vaos.len() != self.buffers.len()
            || buffers.len() != self.buffers.len() || matrix_locations.len() != self.matrices.len()
            || vector_locations.len() != self.vectors.len() {
            return Err(BuildError::Mismatch);
        }
        let mut i: usize = 0;
        while i < self.buffers.len()
            invariant
                i <= self.buffers@.len(),
                forall|j: int|
                    0 <= j < i ==> (#[trigger] self.buffers@[j]).program < programs@.len(),
            decreases self.buffers@.len() - i,
        {
            if self.buffers[i].program >= programs.len() {
                return Err(BuildError::Mismatch);
            }
            i += 1;
        }
        let mut i: usize = 0;
        while i < self.matrices.len()
            invariant
                i <= self.matrices@.len(),
                forall|j: int|
                    0 <= j < i ==> (#[trigger] self.matrices@[j]).program < programs@.len(),
            decreases self.matrices@.len() - i,
        {
            if self.matrices[i].program >= programs.len() {
                return Err(BuildError::Mismatch);
            }
            i += 1;
        }
        let mut i: usize = 0;
        while i < self.vectors.len()
            invariant
                i <= self.vectors@.len(),
                forall|j: int|
                    0 <= j < i ==> (#[trigger] self.vectors@[j]).program < programs@.len(),
            decreases self.vectors@.len() - i,
        {
            if self.vectors[i].program >= programs.len() {
                return Err(BuildError::Mismatch);
            }
            i += 1;
        }
        if !all_resolved(&matrix_locations) || !all_resolved(&vector_locations) {
            return Err(BuildError::Uniform(UniformError::Unresolved));
        }
        let ScenePlan {
            programs: _,
            buffers: _,
            textures,
            matrices: mut matrix_plans,
            vectors: mut vector_plans,
            passes,
        } = self;
        let ghost wanted_matrices = self.matrix_pool(programs@, matrix_locations@);
        let ghost wanted_vectors = self.vector_pool(programs@, vector_locations@);
        let mut matrices: Vec<UniformMat> = Vec::new();
        while matrix_plans.len() > 0
            invariant
                matrix_plans@.len() <= self.matrices@.len(),
                matrix_plans@ == self.matrices@.take(matrix_plans@.len() as int),
                matrix_locations@.len() == self.matrices@.len(),
                wanted_matrices == self.matrix_pool(programs@, matrix_locations@),
                matrices@ == wanted_matrices.skip(matrix_plans@.len() as int),
                forall|j: int|
                    0 <= j < self.matrices@.len() ==> (#[trigger] self.matrices@[j]).program
                        < programs@.len(),
            decreases matrix_plans@.len(),
        {
            let k = matrix_plans.len() - 1;
            let plan = matrix_plans.pop().unwrap();
            assert(plan == self.matrices@[k as int]);
            matrices.insert(
                0,
                UniformMat {
                    program: programs[plan.program].id,
                    location: matrix_locations[k],
                    values: plan.values,
                },
            );
            assert(matrix_plans@ =~= self.matrices@.take(k as int));
            assert(matrices@ =~= wanted_matrices.skip(k as int));
        }
        let mut vectors: Vec<UniformVec> = Vec::new();
        while vector_plans.len() > 0
            invariant
                vector_plans@.len() <= self.vectors@.len(),
                vector_plans@ == self.vectors@.take(vector_plans@.len() as int),
                vector_locations@.len() == self.vectors@.len(),
                wanted_vectors == self.vector_pool(programs@, vector_locations@),
                vectors@ == wanted_vectors.skip(vector_plans@.len() as int),
                forall|j: int|
                    0 <= j < self.vectors@.len() ==> (#[trigger] self.vectors@[j]).program
                        < programs@.len(),
            decreases vector_plans@.len(),
        {
            let k = vector_plans.len() - 1;
            let plan = vector_plans.pop().unwrap();
            assert(plan == self.vectors@[k as int]);
            vectors.insert(
                0,
                UniformVec {
                    program: programs[plan.program].id,
                    location: vector_locations[k],
                    values: plan.values,
                },
            );
            assert(vector_plans@ =~= self.vectors@.take(k as int));
            assert(vectors@ =~= wanted_vectors.skip(k as int));
        }
        assert(matrices@ =~= wanted_matrices);
        assert(vectors@ =~= wanted_vectors);
        match Scene::new(passes, programs, vaos, buffers, textures, matrices, vectors) {
            Some(scene) => Ok(scene),
            None => Err(BuildError::Mismatch),
        }
    }
}

/// Whether every name was found: no location is negative.
fn all_resolved(locations: &Vec<i32>) -> (b: bool)
    ensures
        b == (forall|i: int| 0 <= i < locations@.len() ==> locations@[i] >= 0),
{
    let mut i: usize = 0;
    while i < locations.len()
        invariant
            i <= locations@.len(),
            forall|j: int| 0 <= j < i ==> locations@[j] >= 0,
        decreases locations@.len() - i,
    {
        if locations[i] < 0 {
            return false;
        }
        i += 1;
    }
    true
}

impl ScenePlan {
    /// Every pass names a program, a buffer, a texture and uniform values
    /// that the plan holds.
    pub open spec fn well_indexed(&self) -> bool {
        forall|i: int|
            0 <= i < self.passes@.len() ==> {
                let inds = (#[trigger] self.passes@[i]).inds;
                &&& inds.program < self.programs@.len()
                &&& inds.vao < self.buffers@.len()
                &&& inds.texture matches Some(t) ==> t < self.textures@.len()
                &&& forall|k: int|
                    0 <= k < inds.matrix@.len() ==> {
                        &&& (#[trigger] inds.matrix@[k]).0 < self.matrices@.len()
                        &&& inds.matrix@[k].1 < self.matrices@[inds.matrix@[k].0 as int].values@.len()
                    }
                &&& forall|k: int|
                    0 <= k < inds.vector@.len() ==> {
                        &&& (#[trigger] inds.vector@[k]).0 < self.vectors@.len()
                        &&& inds.vector@[k].1 < self.vectors@[inds.vector@[k].0 as int].values@.len()
                    }
            }
    }

    /// A well-indexed plan makes a valid scene with any handles that realize
    /// it, so `build` succeeds on them unless a uniform is missing from its
    /// shader.
    pub proof fn lemma_well_indexed_builds(
        &self,
        programs: Seq<Program>,
        vaos: Seq<VertexArray>,
        buffers: Seq<Buffer>,
        matrix_locations: Seq<i32>,
        vector_locations: Seq<i32>,
    )
        requires
            self.well_indexed(),
            self.realized_by(programs, vaos, buffers, matrix_locations, vector_locations),
        ensures
            self.scene(programs, vaos, buffers, matrix_locations, vector_locations).valid(),
    {
        let view = self.scene(programs, vaos, buffers, matrix_locations, vector_locations);
        assert forall|i: int| 0 <= i < view.passes.len() implies (#[trigger] view.passes[i]).inds.valid(
            view.pools,
        ) by {
            let inds = self.passes@[i].inds;
            assert forall|k: int| 0 <= k < inds.matrix@.len() implies {
                &&& (#[trigger] inds.matrix@[k]).0 < view.pools.matrices.len()
                &&& inds.matrix@[k].1 < view.pools.matrices[inds.matrix@[k].0 as int].values@.len()
            } by {}
            assert forall|k: int| 0 <= k < inds.vector@.len() implies {
                &&& (#[trigger] inds.vector@[k]).0 < view.pools.vectors.len()
                &&& inds.vector@[k].1 < view.pools.vectors[inds.vector@[k].0 as int].values@.len()
            } by {}
        }
    }
}

} // verus!
