//! The resource pool: every long-lived object whose shape does not depend
//! on the swapchain — layouts, pools, the sampler, the mesh buffers, the
//! texture, the uniform buffer, and the shader bytecode kept for pipeline
//! rebuilds.  Built once at engine construction; survives every swapchain
//! rebuild untouched.

use vstd::prelude::*;

use crate::handles::HandleMint;

verus! {

/// First word of every valid SPIR-V module.
pub const SPIRV_MAGIC: u32 = 0x07230203;

/// Precompiled shader bytecode, as the 32-bit words of a SPIR-V module.
#[derive(Clone, PartialEq, Eq, Debug)]
pub struct ShaderCode {
    pub words: Vec<u32>,
}

/// A SPIR-V module the engine accepts: non-empty and starting with the
/// SPIR-V magic word.
pub open spec fn valid_spirv(words: Seq<u32>) -> bool {
    &&& words.len() > 0
    &&& words[0] == SPIRV_MAGIC
}

/// The fixed mesh the engine draws: a vertex count and the triangle-list
/// index array.  Vertex attributes themselves stay on the unverified side;
/// the engine needs only what the draw call and its validity depend on.
#[derive(Clone, Debug)]
pub struct MeshData {
    pub vertex_count: u32,
    pub indices: Vec<u32>,
}

impl MeshData {
    /// A mesh the engine can record a draw for: something to draw, whole
    /// triangles, every index naming an existing vertex, and an index
    /// count the draw call's 32-bit count field can hold.
    pub open spec fn wf(self) -> bool {
        &&& self.vertex_count > 0
        &&& self.indices.len() > 0
        &&& self.indices.len() % 3 == 0
        &&& self.indices.len() <= u32::MAX
        &&& forall|i: int| 0 <= i < self.indices.len() ==> self.indices[i] < self.vertex_count
    }
}

/// Why a resource pool could not be built from the given inputs.
#[derive(Clone, Copy, PartialEq, Eq, Structural, Debug)]
pub enum ResourceCreationError {
    /// The vertex shader bytecode is empty or not SPIR-V.
    BadVertexShader,
    /// The fragment shader bytecode is empty or not SPIR-V.
    BadFragmentShader,
    /// The mesh has no vertices or no indices.
    EmptyMesh,
    /// The index array does not describe whole triangles.
    PartialTriangle,
    /// More indices than a draw call's count field can hold.
    TooManyIndices,
    /// An index names a vertex the mesh does not have.
    IndexOutOfRange,
}

/// The first problem `ResourcePool::build` finds in its inputs, in the
/// order it checks them, or `None` when the inputs are acceptable.
pub open spec fn pool_build_error(
    vert: ShaderCode,
    frag: ShaderCode,
    mesh: MeshData,
) -> Option<ResourceCreationError> {
    if !valid_spirv(vert.words@) {
        Some(ResourceCreationError::BadVertexShader)
    } else if !valid_spirv(frag.words@) {
        Some(ResourceCreationError::BadFragmentShader)
    } else if mesh.vertex_count == 0 || mesh.indices.len() == 0 {
        Some(ResourceCreationError::EmptyMesh)
    } else if mesh.indices.len() % 3 != 0 {
        Some(ResourceCreationError::PartialTriangle)
    } else if mesh.indices.len() > u32::MAX {
        Some(ResourceCreationError::TooManyIndices)
    } else if exists|i: int| 0 <= i < mesh.indices.len() && mesh.indices[i] >= mesh.vertex_count {
        Some(ResourceCreationError::IndexOutOfRange)
    } else {
        None
    }
}

/// The long-lived, swapchain-independent resources.  Each `u64` field is
/// the handle of one device object the pool owns.
#[derive(Clone, PartialEq, Eq, Debug)]
pub struct ResourcePool {
    pub descriptor_set_layout: u64,
    pub pipeline_layout: u64,
    pub command_pool: u64,
    pub descriptor_pool: u64,
    pub texture_sampler: u64,
    pub uniform_buffer: u64,
    pub uniform_buffer_memory: u64,
    pub vertex_buffer: u64,
    pub vertex_buffer_memory: u64,
    pub index_buffer: u64,
    pub index_buffer_memory: u64,
    pub texture_image: u64,
    pub texture_image_memory: u64,
    pub texture_image_view: u64,
    pub descriptor_set: u64,
    pub vert_shader: ShaderCode,
    pub frag_shader: ShaderCode,
    pub vertex_count: u32,
    pub index_count: u32,
}

/// How many device objects a pool owns.
pub const POOL_HANDLE_COUNT: u64 = 15;

impl ResourcePool {
    /// The pool's handles, in the order they are created.
    pub open spec fn handles(self) -> Seq<u64> {
        seq![
            self.descriptor_set_layout,
            self.pipeline_layout,
            self.command_pool,
            self.descriptor_pool,
            self.texture_sampler,
            self.uniform_buffer,
            self.uniform_buffer_memory,
            self.vertex_buffer,
            self.vertex_buffer_memory,
            self.index_buffer,
            self.index_buffer_memory,
            self.texture_image,
            self.texture_image_memory,
            self.texture_image_view,
            self.descriptor_set,
        ]
    }

    /// A well-formed pool: valid shader bytecode, a drawable mesh shape,
    /// and pairwise-distinct object handles.
    pub open spec fn wf(self) -> bool {
        &&& valid_spirv(self.vert_shader.words@)
        &&& valid_spirv(self.frag_shader.words@)
        &&& self.vertex_count > 0
        &&& self.index_count > 0
        &&& self.index_count % 3 == 0
        &&& forall|i: int, j: int|
            0 <= i < self.handles().len() && 0 <= j < self.handles().len() && i != j
                ==> self.handles()[i] != self.handles()[j]
    }

    /// Builds the pool: validates the shader bytecode and the mesh, then
    /// creates one handle per owned object.  Fails, creating nothing, on
    /// the first invalid input; such a failure is fatal to the engine —
    /// there is no partial pool.
    pub fn build(
        vert_shader: ShaderCode,
        frag_shader: ShaderCode,
        mesh: &MeshData,
        mint: &mut HandleMint,
    ) -> (r: Result<ResourcePool, ResourceCreationError>)
        requires
            old(mint).next + POOL_HANDLE_COUNT < u64::MAX,
        ensures
            match r {
                Ok(pool) => {
                    &&& pool_build_error(vert_shader, frag_shader, *mesh) is None
                    &&& pool.wf()
                    &&& pool.vert_shader == vert_shader
                    &&& pool.frag_shader == frag_shader
                    &&& pool.vertex_count == mesh.vertex_count
                    &&& pool.index_count == mesh.indices.len()
                    &&& forall|i: int|
                        0 <= i < pool.handles().len()
                            ==> pool.handles()[i] == old(mint).next + i
                    &&& final(mint).next == old(mint).next + POOL_HANDLE_COUNT
                },
                Err(e) => {
                    &&& pool_build_error(vert_shader, frag_shader, *mesh) == Some(e)
                    &&& *final(mint) == *old(mint)
                },
            },
    {
        if vert_shader.words.len() == 0 || vert_shader.words[0] != SPIRV_MAGIC {
            return Err(ResourceCreationError::BadVertexShader);
        }
        if frag_shader.words.len() == 0 || frag_shader.words[0] != SPIRV_MAGIC {
            return Err(ResourceCreationError::BadFragmentShader);
        }
        if mesh.vertex_count == 0 || mesh.indices.len() == 0 {
            return Err(ResourceCreationError::EmptyMesh);
        }
        if mesh.indices.len() % 3 != 0 {
            return Err(ResourceCreationError::PartialTriangle);
        }
        if mesh.indices.len() > u32::MAX as usize {
            return Err(ResourceCreationError::TooManyIndices);
        }
        if !indices_in_range(&mesh.indices, mesh.vertex_count) {
            return Err(ResourceCreationError::IndexOutOfRange);
        }

        let descriptor_set_layout = mint.fresh();
        let pipeline_layout = mint.fresh();
        let command_pool = mint.fresh();
        let descriptor_pool = mint.fresh();
        let texture_sampler = mint.fresh();
        let uniform_buffer = mint.fresh();
        let uniform_buffer_memory = mint.fresh();
        let vertex_buffer = mint.fresh();
        let vertex_buffer_memory = mint.fresh();
        let index_buffer = mint.fresh();
        let index_buffer_memory = mint.fresh();
        let texture_image = mint.fresh();
        let texture_image_memory = mint.fresh();
        let texture_image_view = mint.fresh();
        let descriptor_set = mint.fresh();

        let index_count = mesh.indices.len() as u32;
        let pool = ResourcePool {
            descriptor_set_layout,
            pipeline_layout,
            command_pool,
            descriptor_pool,
            texture_sampler,
            uniform_buffer,
            uniform_buffer_memory,
            vertex_buffer,
            vertex_buffer_memory,
            index_buffer,
            index_buffer_memory,
            texture_image,
            texture_image_memory,
            texture_image_view,
            descriptor_set,
            vert_shader,
            frag_shader,
            vertex_count: mesh.vertex_count,
            index_count,
        };
        Ok(pool)
    }
}

/// Checks that every index names a vertex below `vertex_count`.
pub fn indices_in_range(indices: &Vec<u32>, vertex_count: u32) -> (ok: bool)
    ensures
        ok == forall|i: int| 0 <= i < indices.len() ==> indices[i] < vertex_count,
{
    let mut k: usize = 0;
    while k < indices.len()
        invariant
            0 <= k <= indices.len(),
            forall|i: int| 0 <= i < k ==> indices[i] < vertex_count,
        decreases indices.len() - k,
    {
        if indices[k] >= vertex_count {
            return false;
        }
        k = k + 1;
    }
    true
}

} // verus!
