use vstd::prelude::*;

verus! {

/// A GL program object name.
#[verifier::external_type_specification]
#[verifier::external_body]
pub struct ExNativeProgram(glow::NativeProgram);

/// A GL buffer object name.
#[verifier::external_type_specification]
#[verifier::external_body]
pub struct ExNativeBuffer(glow::NativeBuffer);

/// A GL vertex array object name.
#[verifier::external_type_specification]
#[verifier::external_body]
pub struct ExNativeVertexArray(glow::NativeVertexArray);

/// A GL texture object name.
#[verifier::external_type_specification]
#[verifier::external_body]
pub struct ExNativeTexture(glow::NativeTexture);

/// A GL object that the engine owns and must delete when it shuts down.
#[derive(Clone, Copy, Debug, PartialEq, Eq)]
pub enum GlObject {
    Program(glow::NativeProgram),
    Texture(glow::NativeTexture),
    VertexArray(glow::NativeVertexArray),
    Buffer(glow::NativeBuffer),
}

/// A GL server-side capability that the engine switches on or off.
#[derive(Clone, Copy, PartialEq, Eq, Structural, Debug)]
pub enum Capability {
    DepthTest,
    CullFace,
    Multisample,
}

/// How polygons are rasterised.
#[derive(Clone, Copy, PartialEq, Eq, Structural, Debug)]
pub enum PolygonMode {
    Line,
    Fill,
}

/// The primitive that a draw call assembles its vertices into.
#[derive(Clone, Copy, PartialEq, Eq, Structural, Debug)]
pub enum Primitive {
    Triangles,
    Lines,
}

/// One GL state call of the engine's set-up.
#[derive(Clone, Copy, PartialEq, Eq, Structural, Debug)]
pub enum GlCommand {
    Enable(Capability),
    Disable(Capability),
    /// Depth test passes when the incoming depth is less than the stored one.
    DepthFuncLess,
    /// Cull back-facing polygons.
    CullFaceBack,
    /// Polygon mode for both front and back faces.
    PolygonMode(PolygonMode),
    Viewport { x: i32, y: i32, width: i32, height: i32 },
}

} // verus!
