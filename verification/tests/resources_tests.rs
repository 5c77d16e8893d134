use cad_3e_engine::{
    GlObject, Material, Mesh, MeshDrawCall, MissingResource, Primitive, Registry, Resources, Shader, ShaderBuild,
    ShaderBuildPhase, ShaderBuildStep, ShaderStage,
    Texture2D,
};
use std::num::NonZeroU32;

fn nz(n: u32) -> NonZeroU32 {
    NonZeroU32::new(n).unwrap()
}

fn shader(n: u32) -> Shader {
    Shader { m_program: glow::NativeProgram(nz(n)) }
}

fn texture(n: u32) -> Texture2D {
    Texture2D::from_parts(glow::NativeTexture(nz(n)), 4, 2, 0x1908, 0x1908, 0x2901, 0x2901, 0x2703, 0x2601)
}

fn mesh(vao: u32, vbo: u32, ebo: Option<u32>, vertices: usize, indices: usize) -> Mesh {
    Mesh::from_buffers(
        glow::NativeVertexArray(nz(vao)),
        glow::NativeBuffer(nz(vbo)),
        ebo.map(|e| glow::NativeBuffer(nz(e))),
        vertices,
        indices,
    )
}

#[test]
fn registry_reads_back_what_was_filed() {
    let mut r: Registry<u32> = Registry::new();
    assert_eq!(r.len(), 0);
    assert_eq!(r.get("a"), None);
    r.insert("a", 1);
    r.insert("b", 2);
    assert_eq!(r.get("a"), Some(&1));
    assert_eq!(r.get("b"), Some(&2));
    assert_eq!(r.get("c"), None);
    r.insert("a", 3);
    assert_eq!(r.get("a"), Some(&3));
    assert_eq!(r.get("b"), Some(&2));
    assert_eq!(r.len(), 2);
    assert_eq!(*r.value_at(0), 3);
    assert_eq!(*r.value_at(1), 2);
}

#[test]
fn material_defaults() {
    let m = Material::new();
    assert_eq!(m.albedo.map(f32::from_bits), [1.0, 1.0, 1.0]);
    assert_eq!(f32::from_bits(m.metallic), 0.0);
    assert_eq!(f32::from_bits(m.roughness), 0.5);
    assert_eq!(f32::from_bits(m.ao), 1.0);
    assert_eq!(m.albedo_texture, None);
    assert_eq!(m.shader, None);
}

#[test]
fn material_builders_and_setters() {
    let mut m = Material::new().with_texture("bricks").with_shader("basic");
    assert_eq!(m.albedo_texture.as_deref(), Some("bricks"));
    assert_eq!(m.shader.as_deref(), Some("basic"));
    m.set_metallic(0.25f32.to_bits());
    m.set_roughness(0.75f32.to_bits());
    m.set_ao(0.5f32.to_bits());
    m.set_albedo([0.1f32.to_bits(), 0.2f32.to_bits(), 0.3f32.to_bits()]);
    assert_eq!(f32::from_bits(m.metallic), 0.25);
    assert_eq!(f32::from_bits(m.roughness), 0.75);
    assert_eq!(f32::from_bits(m.ao), 0.5);
    assert_eq!(m.albedo.map(f32::from_bits), [0.1, 0.2, 0.3]);
    assert_eq!(m.shader.as_deref(), Some("basic"));
    let c = m.clone();
    assert_eq!(c.albedo_texture.as_deref(), Some("bricks"));
    assert_eq!(c.metallic, m.metallic);
}

#[test]
fn mesh_with_indices_is_indexed() {
    let m = mesh(1, 2, Some(3), 24, 36);
    assert!(m.is_indexed());
    assert_eq!(m.index_count(), 36);
    assert_eq!(m.vertex_count(), 0);
    assert_eq!(m.draw_call(true), MeshDrawCall::Elements { mode: Primitive::Triangles, count: 36 });
    assert_eq!(m.draw_call(false), MeshDrawCall::Elements { mode: Primitive::Lines, count: 36 });
    assert_eq!(
        m.gl_objects(),
        vec![
            GlObject::VertexArray(glow::NativeVertexArray(nz(1))),
            GlObject::Buffer(glow::NativeBuffer(nz(2))),
            GlObject::Buffer(glow::NativeBuffer(nz(3))),
        ]
    );
}

#[test]
fn mesh_without_indices_draws_arrays() {
    let m = mesh(4, 5, None, 3, 0);
    assert!(!m.is_indexed());
    assert_eq!(m.index_count(), 0);
    assert_eq!(m.vertex_count(), 3);
    assert_eq!(m.ebo(), None);
    assert_eq!(m.draw_call(true), MeshDrawCall::Arrays { mode: Primitive::Triangles, first: 0, count: 3 });
    assert_eq!(m.draw_call(false), MeshDrawCall::Arrays { mode: Primitive::Lines, first: 0, count: 3 });
    assert_eq!(
        m.gl_objects(),
        vec![
            GlObject::VertexArray(glow::NativeVertexArray(nz(4))),
            GlObject::Buffer(glow::NativeBuffer(nz(5))),
        ]
    );
}

#[test]
fn shader_stages_skip_empty_sources() {
    let all = Shader::stages_to_compile("v", "f", Some("g"));
    assert_eq!(all, vec![(ShaderStage::Vertex, "v"), (ShaderStage::Fragment, "f"), (ShaderStage::Geometry, "g")]);
    let no_geom = Shader::stages_to_compile("v", "f", None);
    assert_eq!(no_geom, vec![(ShaderStage::Vertex, "v"), (ShaderStage::Fragment, "f")]);
    let empty_geom = Shader::stages_to_compile("v", "f", Some(""));
    assert_eq!(empty_geom, vec![(ShaderStage::Vertex, "v"), (ShaderStage::Fragment, "f")]);
    let empty_vertex = Shader::stages_to_compile("", "f", Some("g"));
    assert_eq!(empty_vertex, vec![(ShaderStage::Fragment, "f"), (ShaderStage::Geometry, "g")]);
    assert!(Shader::stages_to_compile("", "", None).is_empty());
}

#[test]
fn texture_keeps_its_parameters() {
    let t = texture(9);
    assert_eq!(t.m_id, glow::NativeTexture(nz(9)));
    assert_eq!((t.m_width, t.m_height), (4, 2));
    assert_eq!((t.m_internal_format, t.m_image_format), (0x1908, 0x1908));
    assert_eq!((t.m_wrap_s, t.m_wrap_t), (0x2901, 0x2901));
    assert_eq!((t.m_filter_min, t.m_filter_max), (0x2703, 0x2601));
}

#[test]
fn resources_read_back_each_kind() {
    let mut r = Resources::new();
    assert_eq!(r.add_shader("basic", shader(1)), "basic");
    assert_eq!(r.add_texture("bricks", texture(2)), "bricks");
    assert_eq!(r.add_mesh("cube", mesh(3, 4, Some(5), 24, 36)), "cube");
    assert_eq!(r.add_material("red", Material::new().with_shader("basic")), "red");
    assert_eq!(r.get_shader("basic").unwrap().m_program, glow::NativeProgram(nz(1)));
    assert_eq!(r.get_texture("bricks").unwrap().m_id, glow::NativeTexture(nz(2)));
    assert_eq!(r.get_mesh("cube").unwrap().index_count(), 36);
    assert_eq!(r.get_material("red").unwrap().shader.as_deref(), Some("basic"));
    assert!(r.get_shader("bricks").is_none());
    assert!(r.get_texture("basic").is_none());
    assert!(r.get_mesh("red").is_none());
    assert!(r.get_material("cube").is_none());
}

#[test]
fn resources_replace_by_name() {
    let mut r = Resources::new();
    r.add_shader("basic", shader(1));
    r.add_shader("basic", shader(2));
    assert_eq!(r.get_shader("basic").unwrap().m_program, glow::NativeProgram(nz(2)));
    assert_eq!(r.gl_objects(), vec![GlObject::Program(glow::NativeProgram(nz(2)))]);
}

#[test]
fn resolve_draw_outcomes() {
    let mut r = Resources::new();
    assert_eq!(r.resolve_draw("cube", "red").err(), Some(MissingResource::Material));
    r.add_material("plain", Material::new());
    assert!(matches!(r.resolve_draw("nothing", "plain"), Ok(None)));
    r.add_material("red", Material::new().with_shader("basic"));
    assert_eq!(r.resolve_draw("cube", "red").err(), Some(MissingResource::Shader));
    r.add_shader("basic", shader(7));
    assert_eq!(r.resolve_draw("cube", "red").err(), Some(MissingResource::Mesh));
    r.add_mesh("cube", mesh(1, 2, None, 36, 0));
    match r.resolve_draw("cube", "red") {
        Ok(Some((s, m))) => {
            assert_eq!(s.m_program, glow::NativeProgram(nz(7)));
            assert_eq!(m.vertex_count(), 36);
        },
        _ => panic!("expected a drawable object"),
    }
}

#[test]
fn release_lists_every_object_in_order() {
    let mut r = Resources::new();
    assert!(r.gl_objects().is_empty());
    r.add_mesh("cube", mesh(10, 11, Some(12), 24, 36));
    r.add_texture("bricks", texture(20));
    r.add_shader("a", shader(30));
    r.add_shader("b", shader(31));
    r.add_mesh("tri", mesh(13, 14, None, 3, 0));
    r.add_material("red", Material::new());
    assert_eq!(
        r.gl_objects(),
        vec![
            GlObject::Program(glow::NativeProgram(nz(30))),
            GlObject::Program(glow::NativeProgram(nz(31))),
            GlObject::Texture(glow::NativeTexture(nz(20))),
            GlObject::VertexArray(glow::NativeVertexArray(nz(10))),
            GlObject::Buffer(glow::NativeBuffer(nz(11))),
            GlObject::Buffer(glow::NativeBuffer(nz(12))),
            GlObject::VertexArray(glow::NativeVertexArray(nz(13))),
            GlObject::Buffer(glow::NativeBuffer(nz(14))),
        ]
    );
}

#[test]
fn shader_build_compiles_attaches_then_links() {
    let (mut b, step) = ShaderBuild::begin(2);
    assert_eq!(step, ShaderBuildStep::CompileStage(0));
    assert_eq!(b.on_compiled(true), ShaderBuildStep::AttachStage(0));
    assert_eq!(b.on_attached(), ShaderBuildStep::CompileStage(1));
    assert_eq!(b.on_compiled(true), ShaderBuildStep::AttachStage(1));
    assert_eq!(b.on_attached(), ShaderBuildStep::Link);
    assert_eq!(b.on_linked(true), ShaderBuildStep::DeleteShaders);
    assert_eq!(b.phase(), ShaderBuildPhase::Done);
}

#[test]
fn shader_build_stops_at_first_failure() {
    let (mut b, _) = ShaderBuild::begin(3);
    assert_eq!(b.on_compiled(true), ShaderBuildStep::AttachStage(0));
    assert_eq!(b.on_attached(), ShaderBuildStep::CompileStage(1));
    assert_eq!(b.on_compiled(false), ShaderBuildStep::FailCompile);
    assert_eq!(b.phase(), ShaderBuildPhase::Failed);

    let (mut b, step) = ShaderBuild::begin(0);
    assert_eq!(step, ShaderBuildStep::Link);
    assert_eq!(b.on_linked(false), ShaderBuildStep::FailLink);
    assert_eq!(b.phase(), ShaderBuildPhase::Failed);
}
