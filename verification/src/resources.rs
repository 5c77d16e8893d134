use vstd::prelude::*;
use crate::gl::{GlObject, Primitive};
use crate::registry::Registry;

verus! {

// ============================================================================
// Mesh
// ============================================================================

/// A mesh whose vertices (and, when it is indexed, indices) live in GPU
/// buffers: the vertex array object, the vertex buffer, and the element
/// buffer of an indexed mesh.
pub struct Mesh {
    m_vao: glow::NativeVertexArray,
    m_vbo: glow::NativeBuffer,
    m_ebo: Option<glow::NativeBuffer>,
    m_index_count: usize,
    m_vertex_count: usize,
    m_is_indexed: bool,
}

/// The draw call that renders a mesh.
#[derive(Clone, Copy, PartialEq, Eq, Structural, Debug)]
pub enum MeshDrawCall {
    /// Indexed drawing from the element buffer: `count` unsigned-int indices.
    Elements { mode: Primitive, count: i32 },
    /// Non-indexed drawing of `count` vertices starting at `first`.
    Arrays { mode: Primitive, first: i32, count: i32 },
}

/// What must be released to free a mesh: its vertex array, its vertex
/// buffer, and its element buffer when it is indexed.
pub open spec fn mesh_gl_objects(m: Mesh) -> Seq<GlObject> {
    seq![GlObject::VertexArray(m.spec_vao()), GlObject::Buffer(m.spec_vbo())] + (if m.spec_is_indexed() {
        seq![GlObject::Buffer(m.spec_ebo().unwrap())]
    } else {
        Seq::<GlObject>::empty()
    })
}

impl Mesh {
    pub closed spec fn spec_vao(&self) -> glow::NativeVertexArray {
        self.m_vao
    }

    pub closed spec fn spec_vbo(&self) -> glow::NativeBuffer {
        self.m_vbo
    }

    pub closed spec fn spec_ebo(&self) -> Option<glow::NativeBuffer> {
        self.m_ebo
    }

    pub closed spec fn spec_index_count(&self) -> usize {
        self.m_index_count
    }

    pub closed spec fn spec_vertex_count(&self) -> usize {
        self.m_vertex_count
    }

    pub closed spec fn spec_is_indexed(&self) -> bool {
        self.m_is_indexed
    }

    /// An indexed mesh owns an element buffer.
    #[verifier::type_invariant]
    spec fn inv(&self) -> bool {
        self.m_is_indexed ==> self.m_ebo.is_some()
    }

    /// Records the buffers that were filled with `vertex_len` vertices and
    /// `index_len` indices. A mesh with at least one index is drawn indexed,
    /// from its element buffer, and counts its indices; one without indices
    /// is drawn from its vertices and counts them.
    pub fn from_buffers(
        vao: glow::NativeVertexArray,
        vbo: glow::NativeBuffer,
        ebo: Option<glow::NativeBuffer>,
        vertex_len: usize,
        index_len: usize,
    ) -> (m: Self)
        requires
            ebo.is_some() == (index_len > 0),
        ensures
            m.spec_vao() == vao,
            m.spec_vbo() == vbo,
            m.spec_ebo() == ebo,
            m.spec_is_indexed() == (index_len > 0),
            m.spec_index_count() == (if index_len > 0 { index_len } else { 0 }),
            m.spec_vertex_count() == (if index_len > 0 { 0 } else { vertex_len }),
    {
        let is_indexed = index_len > 0;
        let mut index_count: usize = 0;
        let mut vertex_count: usize = 0;
        if is_indexed {
            index_count = index_len;
        } else {
            vertex_count = vertex_len;
        }
        Mesh {
            m_vao: vao,
            m_vbo: vbo,
            m_ebo: ebo,
            m_index_count: index_count,
            m_vertex_count: vertex_count,
            m_is_indexed: is_indexed,
        }
    }

    pub fn vao(&self) -> (r: glow::NativeVertexArray)
        ensures
            r == self.spec_vao(),
    {
        self.m_vao
    }

    pub fn vbo(&self) -> (r: glow::NativeBuffer)
        ensures
            r == self.spec_vbo(),
    {
        self.m_vbo
    }

    pub fn ebo(&self) -> (r: Option<glow::NativeBuffer>)
        ensures
            r == self.spec_ebo(),
    {
        self.m_ebo
    }

    pub fn index_count(&self) -> (r: usize)
        ensures
            r == self.spec_index_count(),
    {
        self.m_index_count
    }

    pub fn vertex_count(&self) -> (r: usize)
        ensures
            r == self.spec_vertex_count(),
    {
        self.m_vertex_count
    }

    pub fn is_indexed(&self) -> (r: bool)
        ensures
            r == self.spec_is_indexed(),
    {
        self.m_is_indexed
    }

    /// The call that draws this mesh (with its vertex array bound): filled
    /// triangles when `draw_triangles`, else lines; from the element buffer
    /// when indexed, else from the vertices starting at the first. Counts are
    /// handed to GL as `i32`, truncating as a cast does.
    pub fn draw_call(&self, draw_triangles: bool) -> (r: MeshDrawCall)
        ensures
            r == (if self.spec_is_indexed() {
                MeshDrawCall::Elements {
                    mode: if draw_triangles { Primitive::Triangles } else { Primitive::Lines },
                    count: self.spec_index_count() as i32,
                }
            } else {
                MeshDrawCall::Arrays {
                    mode: if draw_triangles { Primitive::Triangles } else { Primitive::Lines },
                    first: 0,
                    count: self.spec_vertex_count() as i32,
                }
            }),
    {
        let mode = if draw_triangles { Primitive::Triangles } else { Primitive::Lines };
        if self.m_is_indexed {
            MeshDrawCall::Elements { mode, count: self.m_index_count as i32 }
        } else {
            MeshDrawCall::Arrays { mode, first: 0, count: self.m_vertex_count as i32 }
        }
    }

    /// The GL objects to delete to free this mesh.
    pub fn gl_objects(&self) -> (r: Vec<GlObject>)
        ensures
            r@ == mesh_gl_objects(*self),
    {
        proof {
            use_type_invariant(self);
        }
        let mut r: Vec<GlObject> = Vec::new();
        r.push(GlObject::VertexArray(self.m_vao));
        r.push(GlObject::Buffer(self.m_vbo));
        if self.m_is_indexed {
            match self.m_ebo {
                Some(ebo) => r.push(GlObject::Buffer(ebo)),
                None => {},
            }
        }
        assert(r@ =~= mesh_gl_objects(*self));
        r
    }
}

// ============================================================================
// Shader
// ============================================================================

/// A linked GL shader program.
pub struct Shader {
    pub m_program: glow::NativeProgram,
}

/// A stage of the shader pipeline.
#[derive(Clone, Copy, PartialEq, Eq, Structural, Debug)]
pub enum ShaderStage {
    Vertex,
    Fragment,
    Geometry,
}

/// `stage` with its source, unless the source is empty.
pub open spec fn stage_if_present(stage: ShaderStage, src: Seq<char>) -> Seq<(ShaderStage, Seq<char>)> {
    if src.len() > 0 {
        seq![(stage, src)]
    } else {
        Seq::empty()
    }
}

/// The stages that are compiled and attached to a program, in order: vertex,
/// fragment, then geometry when a geometry source is given; a stage whose
/// source is empty is skipped.
pub open spec fn compiled_stages(
    vertex_src: Seq<char>,
    fragment_src: Seq<char>,
    geometry_src: Option<Seq<char>>,
) -> Seq<(ShaderStage, Seq<char>)> {
    stage_if_present(ShaderStage::Vertex, vertex_src) + stage_if_present(ShaderStage::Fragment, fragment_src)
        + match geometry_src {
        Some(g) => stage_if_present(ShaderStage::Geometry, g),
        None => Seq::empty(),
    }
}

impl Shader {
    /// The stages to compile, each with its source, in the order in which
    /// they are compiled and attached.
    pub fn stages_to_compile<'a>(
        vertex_src: &'a str,
        fragment_src: &'a str,
        geometry_src: Option<&'a str>,
    ) -> (r: Vec<(ShaderStage, &'a str)>)
        ensures
            r@.map_values(|p: (ShaderStage, &'a str)| (p.0, p.1@)) == compiled_stages(
                vertex_src@,
                fragment_src@,
                match geometry_src {
                    Some(g) => Some(g@),
                    None => None,
                },
            ),
    {
        let mut candidates: Vec<(ShaderStage, &'a str)> = Vec::new();
        candidates.push((ShaderStage::Vertex, vertex_src));
        candidates.push((ShaderStage::Fragment, fragment_src));
        match geometry_src {
            Some(g) => {
                candidates.push((ShaderStage::Geometry, g));
                assert(candidates@ =~= seq![(ShaderStage::Vertex, vertex_src), (ShaderStage::Fragment, fragment_src)]
                    + seq![(ShaderStage::Geometry, g)]);
            },
            None => {
                assert(candidates@ =~= seq![(ShaderStage::Vertex, vertex_src), (ShaderStage::Fragment, fragment_src)]
                    + Seq::<(ShaderStage, &'a str)>::empty());
            },
        }
        let ghost cand = candidates@;
        let mut r: Vec<(ShaderStage, &'a str)> = Vec::new();
        let mut i: usize = 0;
        while i < candidates.len()
            invariant
                candidates@ == cand,
                i <= cand.len(),
                r@.map_values(|p: (ShaderStage, &'a str)| (p.0, p.1@)) == Self::present_prefix(cand, i as int),
            decreases cand.len() - i,
        {
            let (stage, src) = candidates[i];
            if !src.is_empty() {
                r.push((stage, src));
            }
            proof {
                assert(Self::present_prefix(cand, i + 1) == Self::present_prefix(cand, i as int)
                    + stage_if_present(cand[i as int].0, cand[i as int].1@));
            }
            assert(r@.map_values(|p: (ShaderStage, &'a str)| (p.0, p.1@)) =~= Self::present_prefix(cand, i + 1));
            i = i + 1;
        }
        proof {
            Self::lemma_present_prefix_stages(vertex_src, fragment_src, geometry_src, cand);
        }
        r
    }

    spec fn present_prefix<'a>(cand: Seq<(ShaderStage, &'a str)>, n: int) -> Seq<(ShaderStage, Seq<char>)>
        decreases n,
    {
        if n <= 0 {
            Seq::empty()
        } else {
            Self::present_prefix(cand, n - 1) + stage_if_present(cand[n - 1].0, cand[n - 1].1@)
        }
    }

    proof fn lemma_present_prefix_stages<'a>(
        vertex_src: &'a str,
        fragment_src: &'a str,
        geometry_src: Option<&'a str>,
        cand: Seq<(ShaderStage, &'a str)>,
    )
        requires
            cand == seq![(ShaderStage::Vertex, vertex_src), (ShaderStage::Fragment, fragment_src)] + match geometry_src {
                Some(g) => seq![(ShaderStage::Geometry, g)],
                None => Seq::<(ShaderStage, &'a str)>::empty(),
            },
        ensures
            Self::present_prefix(cand, cand.len() as int) == compiled_stages(
                vertex_src@,
                fragment_src@,
                match geometry_src {
                    Some(g) => Some(g@),
                    None => None,
                },
            ),
    {
        reveal_with_fuel(Shader::present_prefix, 4);
        assert(cand[0] == (ShaderStage::Vertex, vertex_src));
        assert(cand[1] == (ShaderStage::Fragment, fragment_src));
        let base = stage_if_present(ShaderStage::Vertex, vertex_src@) + stage_if_present(ShaderStage::Fragment, fragment_src@);
        assert(Self::present_prefix(cand, 2) =~= base);
        match geometry_src {
            Some(g) => {
                assert(cand[2] == (ShaderStage::Geometry, g));
                assert(Self::present_prefix(cand, 3) =~= base + stage_if_present(ShaderStage::Geometry, g@));
            },
            None => {
                assert(base + Seq::<(ShaderStage, Seq<char>)>::empty() =~= base);
            },
        }
    }
}

/// Where building a shader program stands.
#[derive(Clone, Copy, PartialEq, Eq, Structural, Debug)]
pub enum ShaderBuildPhase {
    /// The current stage has been compiled; its status is awaited.
    Compiling,
    /// The current stage compiled and is to be attached to the program.
    Attaching,
    /// Every stage is attached; the program's link status is awaited.
    Linking,
    /// The program linked and its stage shaders are deleted.
    Done,
    /// A stage failed to compile or the program failed to link.
    Failed,
}

/// The next GL step in building a shader program.
#[derive(Clone, Copy, PartialEq, Eq, Structural, Debug)]
pub enum ShaderBuildStep {
    /// Create, load and compile the stage with this index (in the order of
    /// `Shader::stages_to_compile`), then report its compile status.
    CompileStage(usize),
    /// Attach the stage just compiled (this index) to the program.
    AttachStage(usize),
    /// Link the program, then report its link status.
    Link,
    /// Delete the attached stage shaders; the program is built.
    DeleteShaders,
    /// Stop with the compile log of the stage that failed.
    FailCompile,
    /// Stop with the program's link log.
    FailLink,
}

/// The decisions of building a shader program from its stages: each stage
/// is compiled and, when it compiles, attached, in order; the first stage
/// that fails to compile ends the build; the program is linked only once
/// every stage is attached; the stage shaders are deleted only after a
/// successful link.
pub struct ShaderBuild {
    stage_count: usize,
    attached: usize,
    phase: ShaderBuildPhase,
}

impl ShaderBuild {
    pub closed spec fn spec_stage_count(&self) -> usize {
        self.stage_count
    }

    /// How many stages are attached to the program.
    pub closed spec fn spec_attached(&self) -> usize {
        self.attached
    }

    pub closed spec fn spec_phase(&self) -> ShaderBuildPhase {
        self.phase
    }

    /// Starts building a program of `stage_count` stages: the first stage is
    /// compiled, or, with no stage, the program is linked at once.
    pub fn begin(stage_count: usize) -> (r: (Self, ShaderBuildStep))
        ensures
            r.0.spec_stage_count() == stage_count,
            r.0.spec_attached() == 0,
            stage_count > 0 ==> r.0.spec_phase() == ShaderBuildPhase::Compiling && r.1
                == ShaderBuildStep::CompileStage(0),
            stage_count == 0 ==> r.0.spec_phase() == ShaderBuildPhase::Linking && r.1 == ShaderBuildStep::Link,
    {
        if stage_count > 0 {
            (ShaderBuild { stage_count, attached: 0, phase: ShaderBuildPhase::Compiling }, ShaderBuildStep::CompileStage(0))
        } else {
            (ShaderBuild { stage_count, attached: 0, phase: ShaderBuildPhase::Linking }, ShaderBuildStep::Link)
        }
    }

    pub fn phase(&self) -> (r: ShaderBuildPhase)
        ensures
            r == self.spec_phase(),
    {
        self.phase
    }

    /// The compile status of the current stage: a stage that compiled is
    /// attached next; one that did not ends the build.
    pub fn on_compiled(&mut self, ok: bool) -> (step: ShaderBuildStep)
        requires
            old(self).spec_phase() == ShaderBuildPhase::Compiling,
            old(self).spec_attached() < old(self).spec_stage_count(),
        ensures
            final(self).spec_stage_count() == old(self).spec_stage_count(),
            final(self).spec_attached() == old(self).spec_attached(),
            ok ==> step == ShaderBuildStep::AttachStage(old(self).spec_attached()) && final(self).spec_phase()
                == ShaderBuildPhase::Attaching,
            !ok ==> step == ShaderBuildStep::FailCompile && final(self).spec_phase() == ShaderBuildPhase::Failed,
    {
        if ok {
            self.phase = ShaderBuildPhase::Attaching;
            ShaderBuildStep::AttachStage(self.attached)
        } else {
            self.phase = ShaderBuildPhase::Failed;
            ShaderBuildStep::FailCompile
        }
    }

    /// The current stage is attached: the next stage is compiled, or, when
    /// it was the last, the program is linked.
    pub fn on_attached(&mut self) -> (step: ShaderBuildStep)
        requires
            old(self).spec_phase() == ShaderBuildPhase::Attaching,
            old(self).spec_attached() < old(self).spec_stage_count(),
        ensures
            final(self).spec_stage_count() == old(self).spec_stage_count(),
            final(self).spec_attached() == old(self).spec_attached() + 1,
            final(self).spec_attached() < final(self).spec_stage_count() ==> step == ShaderBuildStep::CompileStage(
                final(self).spec_attached(),
            ) && final(self).spec_phase() == ShaderBuildPhase::Compiling,
            final(self).spec_attached() == final(self).spec_stage_count() ==> step == ShaderBuildStep::Link
                && final(self).spec_phase() == ShaderBuildPhase::Linking,
    {
        self.attached = self.attached + 1;
        if self.attached < self.stage_count {
            self.phase = ShaderBuildPhase::Compiling;
            ShaderBuildStep::CompileStage(self.attached)
        } else {
            self.phase = ShaderBuildPhase::Linking;
            ShaderBuildStep::Link
        }
    }

    /// The program's link status: a linked program has its stage shaders
    /// deleted and is done; otherwise the build fails.
    pub fn on_linked(&mut self, ok: bool) -> (step: ShaderBuildStep)
        requires
            old(self).spec_phase() == ShaderBuildPhase::Linking,
        ensures
            final(self).spec_stage_count() == old(self).spec_stage_count(),
            final(self).spec_attached() == old(self).spec_attached(),
            ok ==> step == ShaderBuildStep::DeleteShaders && final(self).spec_phase() == ShaderBuildPhase::Done,
            !ok ==> step == ShaderBuildStep::FailLink && final(self).spec_phase() == ShaderBuildPhase::Failed,
    {
        if ok {
            self.phase = ShaderBuildPhase::Done;
            ShaderBuildStep::DeleteShaders
        } else {
            self.phase = ShaderBuildPhase::Failed;
            ShaderBuildStep::FailLink
        }
    }
}

// ============================================================================
// Texture
// ============================================================================

/// A 2D texture uploaded to the GPU, with the parameters it was created with.
pub struct Texture2D {
    /// The GL texture object.
    pub m_id: glow::NativeTexture,
    /// Width of the loaded image in pixels.
    pub m_width: u32,
    /// Height of the loaded image in pixels.
    pub m_height: u32,
    /// Format of the texture object.
    pub m_internal_format: u32,
    /// Format of the loaded image.
    pub m_image_format: u32,
    /// Wrapping mode on the S axis.
    pub m_wrap_s: u32,
    /// Wrapping mode on the T axis.
    pub m_wrap_t: u32,
    /// Filtering mode when texture pixels are smaller than screen pixels.
    pub m_filter_min: u32,
    /// Filtering mode when texture pixels are larger than screen pixels.
    pub m_filter_max: u32,
}

impl Texture2D {
    /// Records a texture object that was created and filled on the GPU,
    /// together with the image size and the requested formats and modes.
    pub fn from_parts(
        id: glow::NativeTexture,
        width: u32,
        height: u32,
        internal_format: u32,
        image_format: u32,
        wrap_s_mode: u32,
        wrap_t_mode: u32,
        filter_min_mode: u32,
        filter_max_mode: u32,
    ) -> (t: Self)
        ensures
            t.m_id == id,
            t.m_width == width,
            t.m_height == height,
            t.m_internal_format == internal_format,
            t.m_image_format == image_format,
            t.m_wrap_s == wrap_s_mode,
            t.m_wrap_t == wrap_t_mode,
            t.m_filter_min == filter_min_mode,
            t.m_filter_max == filter_max_mode,
    {
        Texture2D {
            m_id: id,
            m_width: width,
            m_height: height,
            m_internal_format: internal_format,
            m_image_format: image_format,
            m_wrap_s: wrap_s_mode,
            m_wrap_t: wrap_t_mode,
            m_filter_min: filter_min_mode,
            m_filter_max: filter_max_mode,
        }
    }
}

// ============================================================================
// Material
// ============================================================================

/// IEEE-754 single-precision bit pattern of 1.0.
pub const F32_ONE_BITS: u32 = 0x3f80_0000u32;

/// IEEE-754 single-precision bit pattern of 0.5.
pub const F32_HALF_BITS: u32 = 0x3f00_0000u32;

/// IEEE-754 single-precision bit pattern of 0.0.
pub const F32_ZERO_BITS: u32 = 0u32;

/// The surface properties of an object: shader inputs (albedo colour,
/// metallic, roughness, ambient occlusion), an optional albedo texture and
/// the shader that draws it.
///
/// The library never computes with the scalar inputs; it stores each one as
/// the bit pattern of its `f32` value (`f32::to_bits`), which the renderer
/// turns back into a float when it sets the uniforms.
pub struct Material {
    pub albedo: [u32; 3],
    pub metallic: u32,
    pub roughness: u32,
    pub ao: u32,
    pub albedo_texture: Option<String>,
    pub shader: Option<String>,
}

fn clone_name(name: &Option<String>) -> (r: Option<String>)
    ensures
        r == *name,
{
    match name {
        Some(s) => Some(s.clone()),
        None => None,
    }
}

impl Clone for Material {
    fn clone(&self) -> (r: Self)
        ensures
            r == *self,
    {
        Material {
            albedo: self.albedo,
            metallic: self.metallic,
            roughness: self.roughness,
            ao: self.ao,
            albedo_texture: clone_name(&self.albedo_texture),
            shader: clone_name(&self.shader),
        }
    }
}

impl Material {
    /// A white, non-metallic, half-rough, fully lit material with no texture
    /// and no shader.
    pub fn new() -> (m: Self)
        ensures
            m.albedo@ == seq![F32_ONE_BITS, F32_ONE_BITS, F32_ONE_BITS],
            m.metallic == F32_ZERO_BITS,
            m.roughness == F32_HALF_BITS,
            m.ao == F32_ONE_BITS,
            m.albedo_texture is None,
            m.shader is None,
    {
        let m = Material {
            albedo: [F32_ONE_BITS, F32_ONE_BITS, F32_ONE_BITS],
            metallic: F32_ZERO_BITS,
            roughness: F32_HALF_BITS,
            ao: F32_ONE_BITS,
            albedo_texture: None,
            shader: None,
        };
        assert(m.albedo@ =~= seq![F32_ONE_BITS, F32_ONE_BITS, F32_ONE_BITS]);
        m
    }

    /// The same material with its albedo texture set to `texture_name`.
    pub fn with_texture(self, texture_name: &str) -> (m: Self)
        ensures
            m.albedo_texture matches Some(t) && t@ == texture_name@,
            m.albedo == self.albedo,
            m.metallic == self.metallic,
            m.roughness == self.roughness,
            m.ao == self.ao,
            m.shader == self.shader,
    {
        let mut m = self;
        m.albedo_texture = Some(String::from_str(texture_name));
        m
    }

    /// The same material drawn with the shader named `shader_name`.
    pub fn with_shader(self, shader_name: &str) -> (m: Self)
        ensures
            m.shader matches Some(s) && s@ == shader_name@,
            m.albedo == self.albedo,
            m.metallic == self.metallic,
            m.roughness == self.roughness,
            m.ao == self.ao,
            m.albedo_texture == self.albedo_texture,
    {
        let mut m = self;
        m.shader = Some(String::from_str(shader_name));
        m
    }

    pub fn set_metallic(&mut self, metallic: u32)
        ensures
            *final(self) == (Material { metallic, ..*old(self) }),
    {
        self.metallic = metallic;
    }

    pub fn set_roughness(&mut self, roughness: u32)
        ensures
            *final(self) == (Material { roughness, ..*old(self) }),
    {
        self.roughness = roughness;
    }

    pub fn set_ao(&mut self, ao: u32)
        ensures
            *final(self) == (Material { ao, ..*old(self) }),
    {
        self.ao = ao;
    }

    pub fn set_albedo(&mut self, albedo: [u32; 3])
        ensures
            *final(self) == (Material { albedo, ..*old(self) }),
    {
        self.albedo = albedo;
    }
}

// ============================================================================
// Resources
// ============================================================================

/// The lookup that drawing an object needed and did not find.
#[derive(Clone, Copy, PartialEq, Eq, Structural, Debug)]
pub enum MissingResource {
    Material,
    Shader,
    Mesh,
}

/// The GL programs of a sequence of shaders.
pub open spec fn shader_gl_objects(shaders: Seq<Shader>) -> Seq<GlObject> {
    shaders.map_values(|s: Shader| GlObject::Program(s.m_program))
}

/// The GL texture objects of a sequence of textures.
pub open spec fn texture_gl_objects(textures: Seq<Texture2D>) -> Seq<GlObject> {
    textures.map_values(|t: Texture2D| GlObject::Texture(t.m_id))
}

/// The GL objects of a sequence of meshes, mesh after mesh.
pub open spec fn meshes_gl_objects(meshes: Seq<Mesh>) -> Seq<GlObject>
    decreases meshes.len(),
{
    if meshes.len() == 0 {
        Seq::empty()
    } else {
        meshes_gl_objects(meshes.drop_last()) + mesh_gl_objects(meshes.last())
    }
}

/// What drawing an object with mesh `mesh_id` and material `material_id`
/// finds: the material must exist; a material without a shader draws
/// nothing; otherwise its shader and then the mesh must exist.
pub open spec fn draw_resolution(
    shaders: Map<Seq<char>, Shader>,
    meshes: Map<Seq<char>, Mesh>,
    materials: Map<Seq<char>, Material>,
    mesh_id: Seq<char>,
    material_id: Seq<char>,
) -> Result<Option<(Shader, Mesh)>, MissingResource> {
    if !materials.contains_key(material_id) {
        Err(MissingResource::Material)
    } else {
        match materials[material_id].shader {
            None => Ok(None),
            Some(shader_name) => if !shaders.contains_key(shader_name@) {
                Err(MissingResource::Shader)
            } else if !meshes.contains_key(mesh_id) {
                Err(MissingResource::Mesh)
            } else {
                Ok(Some((shaders[shader_name@], meshes[mesh_id])))
            },
        }
    }
}

/// The engine's resources (shaders, textures, meshes and materials), each
/// kind filed by name.
pub struct Resources {
    shaders: Registry<Shader>,
    textures: Registry<Texture2D>,
    meshes: Registry<Mesh>,
    materials: Registry<Material>,
}

impl Resources {
    pub closed spec fn wf(&self) -> bool {
        &&& self.shaders.wf()
        &&& self.textures.wf()
        &&& self.meshes.wf()
        &&& self.materials.wf()
    }

    /// The shaders by name.
    pub closed spec fn shaders(&self) -> Map<Seq<char>, Shader> {
        self.shaders.view()
    }

    /// The textures by name.
    pub closed spec fn textures(&self) -> Map<Seq<char>, Texture2D> {
        self.textures.view()
    }

    /// The meshes by name.
    pub closed spec fn meshes(&self) -> Map<Seq<char>, Mesh> {
        self.meshes.view()
    }

    /// The materials by name.
    pub closed spec fn materials(&self) -> Map<Seq<char>, Material> {
        self.materials.view()
    }

    /// The stored shaders, in the order their names were first added.
    pub closed spec fn shader_list(&self) -> Seq<Shader> {
        self.shaders.values()
    }

    /// The stored textures, in the order their names were first added.
    pub closed spec fn texture_list(&self) -> Seq<Texture2D> {
        self.textures.values()
    }

    /// The stored meshes, in the order their names were first added.
    pub closed spec fn mesh_list(&self) -> Seq<Mesh> {
        self.meshes.values()
    }

    /// Every stored shader, texture and mesh is one of those filed by name,
    /// and every one filed by name is stored.
    pub proof fn lemma_lists_match_maps(&self)
        requires
            self.wf(),
        ensures
            forall|s: Shader| self.shader_list().contains(s) <==> self.shaders().values().contains(s),
            forall|t: Texture2D| self.texture_list().contains(t) <==> self.textures().values().contains(t),
            forall|m: Mesh| self.mesh_list().contains(m) <==> self.meshes().values().contains(m),
    {
        Self::lemma_registry_values(&self.shaders);
        Self::lemma_registry_values(&self.textures);
        Self::lemma_registry_values(&self.meshes);
    }

    proof fn lemma_registry_values<V>(r: &Registry<V>)
        requires
            r.wf(),
        ensures
            forall|v: V| r.values().contains(v) <==> r.view().values().contains(v),
    {
        r.lemma_entries_match_view();
        assert forall|v: V| r.values().contains(v) implies r.view().values().contains(v) by {
            let i = choose|i: int| 0 <= i < r.values().len() && r.values()[i] == v;
            assert(r.view().contains_key(r.names()[i]));
        }
        assert forall|v: V| r.view().values().contains(v) implies r.values().contains(v) by {
            let k = choose|k: Seq<char>| r.view().contains_key(k) && r.view()[k] == v;
            assert(r.names().contains(k));
            let i = choose|i: int| 0 <= i < r.names().len() && r.names()[i] == k;
            assert(r.values()[i] == v);
        }
    }

    /// No resources of any kind.
    pub fn new() -> (r: Self)
        ensures
            r.wf(),
            r.shaders() == Map::<Seq<char>, Shader>::empty(),
            r.textures() == Map::<Seq<char>, Texture2D>::empty(),
            r.meshes() == Map::<Seq<char>, Mesh>::empty(),
            r.materials() == Map::<Seq<char>, Material>::empty(),
            r.shader_list().len() == 0,
            r.texture_list().len() == 0,
            r.mesh_list().len() == 0,
    {
        let r = Resources {
            shaders: Registry::new(),
            textures: Registry::new(),
            meshes: Registry::new(),
            materials: Registry::new(),
        };
        proof {
            r.shaders.lemma_entries_match_view();
            r.textures.lemma_entries_match_view();
            r.meshes.lemma_entries_match_view();
        }
        r
    }

    // Shader management ========================

    /// Files a linked shader program under `shader_name`, replacing any shader
    /// of that name, and returns the name.
    pub fn add_shader(&mut self, shader_name: &str, shader: Shader) -> (r: String)
        requires
            old(self).wf(),
        ensures
            final(self).wf(),
            r@ == shader_name@,
            final(self).shaders() == old(self).shaders().insert(shader_name@, shader),
            final(self).textures() == old(self).textures(),
            final(self).meshes() == old(self).meshes(),
            final(self).materials() == old(self).materials(),
            final(self).texture_list() == old(self).texture_list(),
            final(self).mesh_list() == old(self).mesh_list(),
            old(self).shaders().contains_key(shader_name@) ==> exists|i: int|
                0 <= i < old(self).shader_list().len() && final(self).shader_list() == #[trigger] old(self).shader_list().update(i, shader),
            !old(self).shaders().contains_key(shader_name@) ==> final(self).shader_list()
                == old(self).shader_list().push(shader),
    {
        proof {
            old(self).shaders.lemma_entries_match_view();
        }
        self.shaders.insert(shader_name, shader);
        proof {
            if old(self).shaders().contains_key(shader_name@) {
                let i = old(self).shaders.names().index_of(shader_name@);
                assert(final(self).shader_list() == old(self).shader_list().update(i, shader));
            }
        }
        String::from_str(shader_name)
    }

    /// The shader filed under `shader_name`, if any.
    pub fn get_shader(&self, shader_name: &str) -> (r: Option<&Shader>)
        requires
            self.wf(),
        ensures
            r == (if self.shaders().contains_key(shader_name@) {
                Some(&self.shaders()[shader_name@])
            } else {
                None
            }),
    {
        self.shaders.get(shader_name)
    }

    // Texture management ========================

    /// Files a texture under `texture_name`, replacing any texture of that
    /// name, and returns the name.
    pub fn add_texture(&mut self, texture_name: &str, texture: Texture2D) -> (r: String)
        requires
            old(self).wf(),
        ensures
            final(self).wf(),
            r@ == texture_name@,
            final(self).textures() == old(self).textures().insert(texture_name@, texture),
            final(self).shaders() == old(self).shaders(),
            final(self).meshes() == old(self).meshes(),
            final(self).materials() == old(self).materials(),
            final(self).shader_list() == old(self).shader_list(),
            final(self).mesh_list() == old(self).mesh_list(),
            old(self).textures().contains_key(texture_name@) ==> exists|i: int|
                0 <= i < old(self).texture_list().len() && final(self).texture_list() == #[trigger] old(self).texture_list().update(i, texture),
            !old(self).textures().contains_key(texture_name@) ==> final(self).texture_list()
                == old(self).texture_list().push(texture),
    {
        proof {
            old(self).textures.lemma_entries_match_view();
        }
        self.textures.insert(texture_name, texture);
        proof {
            if old(self).textures().contains_key(texture_name@) {
                let i = old(self).textures.names().index_of(texture_name@);
                assert(final(self).texture_list() == old(self).texture_list().update(i, texture));
            }
        }
        String::from_str(texture_name)
    }

    /// The texture filed under `texture_name`, if any.
    pub fn get_texture(&self, texture_name: &str) -> (r: Option<&Texture2D>)
        requires
            self.wf(),
        ensures
            r == (if self.textures().contains_key(texture_name@) {
                Some(&self.textures()[texture_name@])
            } else {
                None
            }),
    {
        self.textures.get(texture_name)
    }

    // Mesh management ========================

    /// Files a mesh under `mesh_name`, replacing any mesh of that name, and
    /// returns the name.
    pub fn add_mesh(&mut self, mesh_name: &str, mesh: Mesh) -> (r: String)
        requires
            old(self).wf(),
        ensures
            final(self).wf(),
            r@ == mesh_name@,
            final(self).meshes() == old(self).meshes().insert(mesh_name@, mesh),
            final(self).shaders() == old(self).shaders(),
            final(self).textures() == old(self).textures(),
            final(self).materials() == old(self).materials(),
            final(self).shader_list() == old(self).shader_list(),
            final(self).texture_list() == old(self).texture_list(),
            old(self).meshes().contains_key(mesh_name@) ==> exists|i: int|
                0 <= i < old(self).mesh_list().len() && final(self).mesh_list() == #[trigger] old(self).mesh_list().update(i, mesh),
            !old(self).meshes().contains_key(mesh_name@) ==> final(self).mesh_list()
                == old(self).mesh_list().push(mesh),
    {
        proof {
            old(self).meshes.lemma_entries_match_view();
        }
        self.meshes.insert(mesh_name, mesh);
        proof {
            if old(self).meshes().contains_key(mesh_name@) {
                let i = old(self).meshes.names().index_of(mesh_name@);
                assert(final(self).mesh_list() == old(self).mesh_list().update(i, mesh));
            }
        }
        String::from_str(mesh_name)
    }

    /// The mesh filed under `mesh_name`, if any.
    pub fn get_mesh(&self, mesh_name: &str) -> (r: Option<&Mesh>)
        requires
            self.wf(),
        ensures
            r == (if self.meshes().contains_key(mesh_name@) {
                Some(&self.meshes()[mesh_name@])
            } else {
                None
            }),
    {
        self.meshes.get(mesh_name)
    }

    // Material management ========================

    /// Files a material under `material_name`, replacing any material of that
    /// name, and returns the name.
    pub fn add_material(&mut self, material_name: &str, material: Material) -> (r: String)
        requires
            old(self).wf(),
        ensures
            final(self).wf(),
            r@ == material_name@,
            final(self).materials() == old(self).materials().insert(material_name@, material),
            final(self).shaders() == old(self).shaders(),
            final(self).textures() == old(self).textures(),
            final(self).meshes() == old(self).meshes(),
            final(self).shader_list() == old(self).shader_list(),
            final(self).texture_list() == old(self).texture_list(),
            final(self).mesh_list() == old(self).mesh_list(),
    {
        self.materials.insert(material_name, material);
        String::from_str(material_name)
    }

    /// The material filed under `material_name`, if any.
    pub fn get_material(&self, material_name: &str) -> (r: Option<&Material>)
        requires
            self.wf(),
        ensures
            r == (if self.materials().contains_key(material_name@) {
                Some(&self.materials()[material_name@])
            } else {
                None
            }),
    {
        self.materials.get(material_name)
    }

    // Drawing ========================

    /// Finds what drawing an object with mesh `mesh_id` and material
    /// `material_id` uses: nothing when its material has no shader, else its
    /// material's shader and its mesh; or the first lookup that failed.
    pub fn resolve_draw(&self, mesh_id: &str, material_id: &str) -> (r: Result<
        Option<(&Shader, &Mesh)>,
        MissingResource,
    >)
        requires
            self.wf(),
        ensures
            draw_resolution(self.shaders(), self.meshes(), self.materials(), mesh_id@, material_id@)
                == match r {
                Ok(Some((s, m))) => Ok(Some((*s, *m))),
                Ok(None) => Ok(None),
                Err(e) => Err(e),
            },
    {
        let material = match self.get_material(material_id) {
            Some(m) => m,
            None => return Err(MissingResource::Material),
        };
        match &material.shader {
            None => Ok(None),
            Some(shader_name) => {
                let shader = match self.get_shader(shader_name.as_str()) {
                    Some(s) => s,
                    None => return Err(MissingResource::Shader),
                };
                match self.get_mesh(mesh_id) {
                    Some(mesh) => Ok(Some((shader, mesh))),
                    None => Err(MissingResource::Mesh),
                }
            },
        }
    }

    // Cleanup ========================

    /// The GL objects to delete when the resources are released: every
    /// shader's program, then every texture, then every mesh's vertex array,
    /// vertex buffer and (when indexed) element buffer.
    pub fn gl_objects(&self) -> (r: Vec<GlObject>)
        requires
            self.wf(),
        ensures
            r@ == shader_gl_objects(self.shader_list()) + texture_gl_objects(self.texture_list())
                + meshes_gl_objects(self.mesh_list()),
    {
        let mut r: Vec<GlObject> = Vec::new();
        let mut i: usize = 0;
        while i < self.shaders.len()
            invariant
                i <= self.shader_list().len(),
                r@ == shader_gl_objects(self.shader_list().take(i as int)),
            decreases self.shader_list().len() - i,
        {
            let s = self.shaders.value_at(i);
            r.push(GlObject::Program(s.m_program));
            assert(self.shader_list().take(i + 1) =~= self.shader_list().take(i as int).push(*s));
            assert(r@ =~= shader_gl_objects(self.shader_list().take(i + 1)));
            i = i + 1;
        }
        assert(self.shader_list().take(i as int) =~= self.shader_list());
        let ghost shader_part = r@;
        let mut i: usize = 0;
        while i < self.textures.len()
            invariant
                i <= self.texture_list().len(),
                r@ == shader_part + texture_gl_objects(self.texture_list().take(i as int)),
            decreases self.texture_list().len() - i,
        {
            let t = self.textures.value_at(i);
            r.push(GlObject::Texture(t.m_id));
            assert(self.texture_list().take(i + 1) =~= self.texture_list().take(i as int).push(*t));
            assert(r@ =~= shader_part + texture_gl_objects(self.texture_list().take(i + 1)));
            i = i + 1;
        }
        assert(self.texture_list().take(i as int) =~= self.texture_list());
        let ghost head = r@;
        let mut i: usize = 0;
        while i < self.meshes.len()
            invariant
                i <= self.mesh_list().len(),
                r@ == head + meshes_gl_objects(self.mesh_list().take(i as int)),
            decreases self.mesh_list().len() - i,
        {
            let m = self.meshes.value_at(i);
            let objects = m.gl_objects();
            let mut j: usize = 0;
            let ghost before = r@;
            while j < objects.len()
                invariant
                    j <= objects@.len(),
                    r@ == before + objects@.take(j as int),
                decreases objects@.len() - j,
            {
                r.push(objects[j]);
                assert(objects@.take(j + 1) =~= objects@.take(j as int).push(objects@[j as int]));
                assert(r@ =~= before + objects@.take(j + 1));
                j = j + 1;
            }
            assert(objects@.take(j as int) =~= objects@);
            assert(self.mesh_list().take(i + 1).drop_last() =~= self.mesh_list().take(i as int));
            assert(r@ =~= head + meshes_gl_objects(self.mesh_list().take(i + 1)));
            i = i + 1;
        }
        assert(self.mesh_list().take(i as int) =~= self.mesh_list());
        r
    }
}

} // verus!
