use vstd::prelude::*;

use crate::version::{version_at_least, Api, Version};

verus! {

/// The OpenGL extensions of a context that vertex buffers care about.
#[derive(Debug, Copy, Clone, PartialEq, Eq, Structural)]
pub struct ExtensionsList {
    /// `GL_ARB_instanced_arrays`: per-instance vertex attributes.
    pub gl_arb_instanced_arrays: bool,
    /// `GL_ARB_vertex_attrib_64bit`: double-precision vertex attributes.
    pub gl_arb_vertex_attrib_64bit: bool,
    /// `GL_NV_vertex_attrib_integer_64bit`: 64-bit integer vertex attributes.
    pub gl_nv_vertex_attrib_integer_64bit: bool,
}

/// What the library knows of an OpenGL context: the version it implements and
/// the extensions it exposes. Buffers keep the context they were created in.
#[derive(Debug, Copy, Clone, PartialEq, Eq, Structural)]
pub struct Context {
    pub version: Version,
    pub extensions: ExtensionsList,
}

impl Context {
    /// The version of the API that the context implements.
    pub fn get_version(&self) -> (r: &Version)
        ensures
            *r == self.version,
    {
        &self.version
    }

    /// The extensions that the context exposes.
    pub fn get_extensions(&self) -> (r: &ExtensionsList)
        ensures
            *r == self.extensions,
    {
        &self.extensions
    }
}

/// Instanced drawing is available on desktop OpenGL 3.3 and later, and on any
/// context that exposes `GL_ARB_instanced_arrays`.
pub open spec fn instancing_supported(ctx: Context) -> bool {
    version_at_least(ctx.version, Version(Api::Gl, 3, 3)) || ctx.extensions.gl_arb_instanced_arrays
}

/// Every desktop OpenGL context of version 3.3 or later can draw instances,
/// whatever extensions it exposes.
pub proof fn law_instancing_on_gl_3_3(ctx: Context)
    requires
        ctx.version.0 == Api::Gl,
        ctx.version.1 > 3 || (ctx.version.1 == 3 && ctx.version.2 >= 3),
    ensures
        instancing_supported(ctx),
{
}

/// An OpenGL ES context, whatever its version, can draw instances only
/// through `GL_ARB_instanced_arrays`.
pub proof fn law_instancing_on_gles(ctx: Context)
    requires
        ctx.version.0 == Api::GlEs,
    ensures
        instancing_supported(ctx) == ctx.extensions.gl_arb_instanced_arrays,
{
}

/// Instanced drawing is available exactly on desktop OpenGL contexts whose
/// (major, minor) version is at least (3, 3) in lexicographic order, and on
/// every context that exposes `GL_ARB_instanced_arrays`. In particular a
/// desktop context below 3.3 (any major below 3, or major 3 with minor below
/// 3) without the extension cannot draw instances.
pub proof fn law_instancing_exactly(ctx: Context)
    ensures
        instancing_supported(ctx) <==> ((ctx.version.0 == Api::Gl && (ctx.version.1 > 3 || (
        ctx.version.1 == 3 && ctx.version.2 >= 3))) || ctx.extensions.gl_arb_instanced_arrays),
        (ctx.version.0 == Api::Gl && (ctx.version.1 < 3 || (ctx.version.1 == 3 && ctx.version.2
            < 3)) && !ctx.extensions.gl_arb_instanced_arrays) ==> !instancing_supported(ctx),
{
}

/// Decides whether instanced drawing is available in `ctx`.
pub fn is_instancing_supported(ctx: &Context) -> (r: bool)
    ensures
        r == instancing_supported(*ctx),
{
    ctx.get_version().at_least(&Version(Api::Gl, 3, 3)) || ctx.get_extensions().gl_arb_instanced_arrays
}

} // verus!
