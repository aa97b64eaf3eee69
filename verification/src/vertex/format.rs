use vstd::prelude::*;

use crate::context::Context;
use crate::version::{version_at_least, Api, Version};

verus! {

/// The type of one vertex attribute: a scalar kind repeated one to four times.
#[derive(Debug, Copy, Clone, PartialEq, Eq, Structural)]
pub enum AttributeType {
    /// One signed 8-bit integer.
    I8,
    /// Two signed 8-bit integers.
    I8I8,
    /// Three signed 8-bit integers.
    I8I8I8,
    /// Four signed 8-bit integers.
    I8I8I8I8,
    /// One unsigned 8-bit integer.
    U8,
    /// Two unsigned 8-bit integers.
    U8U8,
    /// Three unsigned 8-bit integers.
    U8U8U8,
    /// Four unsigned 8-bit integers.
    U8U8U8U8,
    /// One signed 16-bit integer.
    I16,
    /// Two signed 16-bit integers.
    I16I16,
    /// Three signed 16-bit integers.
    I16I16I16,
    /// Four signed 16-bit integers.
    I16I16I16I16,
    /// One unsigned 16-bit integer.
    U16,
    /// Two unsigned 16-bit integers.
    U16U16,
    /// Three unsigned 16-bit integers.
    U16U16U16,
    /// Four unsigned 16-bit integers.
    U16U16U16U16,
    /// One signed 32-bit integer.
    I32,
    /// Two signed 32-bit integers.
    I32I32,
    /// Three signed 32-bit integers.
    I32I32I32,
    /// Four signed 32-bit integers.
    I32I32I32I32,
    /// One unsigned 32-bit integer.
    U32,
    /// Two unsigned 32-bit integers.
    U32U32,
    /// Three unsigned 32-bit integers.
    U32U32U32,
    /// Four unsigned 32-bit integers.
    U32U32U32U32,
    /// One signed 64-bit integer.
    I64,
    /// Two signed 64-bit integers.
    I64I64,
    /// Three signed 64-bit integers.
    I64I64I64,
    /// Four signed 64-bit integers.
    I64I64I64I64,
    /// One unsigned 64-bit integer.
    U64,
    /// Two unsigned 64-bit integers.
    U64U64,
    /// Three unsigned 64-bit integers.
    U64U64U64,
    /// Four unsigned 64-bit integers.
    U64U64U64U64,
    /// One single-precision float.
    F32,
    /// Two single-precision floats.
    F32F32,
    /// Three single-precision floats.
    F32F32F32,
    /// Four single-precision floats.
    F32F32F32F32,
    /// One double-precision float.
    F64,
    /// Two double-precision floats.
    F64F64,
    /// Three double-precision floats.
    F64F64F64,
    /// Four double-precision floats.
    F64F64F64F64,
}

/// The description of the attributes of one vertex: for each attribute its
/// name, its offset in bytes from the start of the vertex, and its type.
pub type VertexFormat = Vec<(String, usize, AttributeType)>;

/// Attribute types made of double-precision floats.
pub open spec fn is_f64_attribute(ty: AttributeType) -> bool {
    match ty {
        AttributeType::F64 | AttributeType::F64F64 | AttributeType::F64F64F64 | AttributeType::F64F64F64F64 => true,
        _ => false,
    }
}

/// Attribute types made of 64-bit integers.
pub open spec fn is_i64_attribute(ty: AttributeType) -> bool {
    match ty {
        AttributeType::I64 | AttributeType::I64I64 | AttributeType::I64I64I64 | AttributeType::I64I64I64I64 | AttributeType::U64 | AttributeType::U64U64 | AttributeType::U64U64U64 | AttributeType::U64U64U64U64 => true,
        _ => false,
    }
}

/// Double-precision attributes need desktop OpenGL 4.1 or
/// `GL_ARB_vertex_attrib_64bit`; 64-bit integer attributes need
/// `GL_NV_vertex_attrib_integer_64bit`; every other attribute type is always
/// available.
pub open spec fn attribute_supported(ty: AttributeType, ctx: Context) -> bool {
    if is_f64_attribute(ty) {
        version_at_least(ctx.version, Version(Api::Gl, 4, 1)) || ctx.extensions.gl_arb_vertex_attrib_64bit
    } else if is_i64_attribute(ty) {
        ctx.extensions.gl_nv_vertex_attrib_integer_64bit
    } else {
        true
    }
}

/// A vertex format can be used in a context when each of its attributes can.
pub open spec fn format_supported(format: Seq<(String, usize, AttributeType)>, ctx: Context) -> bool {
    forall|i: int| 0 <= i < format.len() ==> #[trigger] attribute_supported(format[i].2, ctx)
}

/// Only 64-bit attributes can be missing from a backend: a format with no
/// double-precision and no 64-bit integer attribute is supported by every
/// context.
pub proof fn law_formats_without_64bit_are_supported(
    format: Seq<(String, usize, AttributeType)>,
    ctx: Context,
)
    requires
        forall|i: int|
            0 <= i < format.len() ==> !is_f64_attribute(#[trigger] format[i].2) && !is_i64_attribute(
                format[i].2,
            ),
    ensures
        format_supported(format, ctx),
{
}

/// The 64-bit attribute types are exactly the double-precision ones
/// (`F64` to `F64F64F64F64`) and the 64-bit integer ones (`I64` to
/// `I64I64I64I64`, `U64` to `U64U64U64U64`).
pub proof fn law_64bit_attribute_types(ty: AttributeType)
    ensures
        is_f64_attribute(ty) <==> (ty == AttributeType::F64 || ty == AttributeType::F64F64 || ty == AttributeType::F64F64F64 || ty == AttributeType::F64F64F64F64),
        is_i64_attribute(ty) <==> (ty == AttributeType::I64 || ty == AttributeType::I64I64 || ty == AttributeType::I64I64I64 || ty == AttributeType::I64I64I64I64 || ty == AttributeType::U64 || ty == AttributeType::U64U64 || ty == AttributeType::U64U64U64 || ty == AttributeType::U64U64U64U64),
{
}

/// Every attribute type made of 8-, 16- or 32-bit scalars can be read by
/// every context.
pub proof fn law_narrow_attributes_always_supported(ctx: Context)
    ensures
        attribute_supported(AttributeType::I8, ctx),
        attribute_supported(AttributeType::I8I8, ctx),
        attribute_supported(AttributeType::I8I8I8, ctx),
        attribute_supported(AttributeType::I8I8I8I8, ctx),
        attribute_supported(AttributeType::U8, ctx),
        attribute_supported(AttributeType::U8U8, ctx),
        attribute_supported(AttributeType::U8U8U8, ctx),
        attribute_supported(AttributeType::U8U8U8U8, ctx),
        attribute_supported(AttributeType::I16, ctx),
        attribute_supported(AttributeType::I16I16, ctx),
        attribute_supported(AttributeType::I16I16I16, ctx),
        attribute_supported(AttributeType::I16I16I16I16, ctx),
        attribute_supported(AttributeType::U16, ctx),
        attribute_supported(AttributeType::U16U16, ctx),
        attribute_supported(AttributeType::U16U16U16, ctx),
        attribute_supported(AttributeType::U16U16U16U16, ctx),
        attribute_supported(AttributeType::I32, ctx),
        attribute_supported(AttributeType::I32I32, ctx),
        attribute_supported(AttributeType::I32I32I32, ctx),
        attribute_supported(AttributeType::I32I32I32I32, ctx),
        attribute_supported(AttributeType::U32, ctx),
        attribute_supported(AttributeType::U32U32, ctx),
        attribute_supported(AttributeType::U32U32U32, ctx),
        attribute_supported(AttributeType::U32U32U32U32, ctx),
        attribute_supported(AttributeType::F32, ctx),
        attribute_supported(AttributeType::F32F32, ctx),
        attribute_supported(AttributeType::F32F32F32, ctx),
        attribute_supported(AttributeType::F32F32F32F32, ctx),
{
}

/// Double-precision attributes can be read exactly by desktop OpenGL 4.1
/// and later, and by contexts that expose `GL_ARB_vertex_attrib_64bit`.
pub proof fn law_f64_attributes_need_gl_4_1_or_extension(ctx: Context)
    ensures
        attribute_supported(AttributeType::F64, ctx) == ((ctx.version.0 == Api::Gl && (ctx.version.1 > 4 || (ctx.version.1 == 4 && ctx.version.2 >= 1))) || ctx.extensions.gl_arb_vertex_attrib_64bit),
        attribute_supported(AttributeType::F64F64, ctx) == ((ctx.version.0 == Api::Gl && (ctx.version.1 > 4 || (ctx.version.1 == 4 && ctx.version.2 >= 1))) || ctx.extensions.gl_arb_vertex_attrib_64bit),
        attribute_supported(AttributeType::F64F64F64, ctx) == ((ctx.version.0 == Api::Gl && (ctx.version.1 > 4 || (ctx.version.1 == 4 && ctx.version.2 >= 1))) || ctx.extensions.gl_arb_vertex_attrib_64bit),
        attribute_supported(AttributeType::F64F64F64F64, ctx) == ((ctx.version.0 == Api::Gl && (ctx.version.1 > 4 || (ctx.version.1 == 4 && ctx.version.2 >= 1))) || ctx.extensions.gl_arb_vertex_attrib_64bit),
{
}

/// 64-bit integer attributes can be read exactly by contexts that expose
/// `GL_NV_vertex_attrib_integer_64bit`, whatever their version.
pub proof fn law_i64_attributes_need_extension(ctx: Context)
    ensures
        attribute_supported(AttributeType::I64, ctx) == ctx.extensions.gl_nv_vertex_attrib_integer_64bit,
        attribute_supported(AttributeType::I64I64, ctx) == ctx.extensions.gl_nv_vertex_attrib_integer_64bit,
        attribute_supported(AttributeType::I64I64I64, ctx) == ctx.extensions.gl_nv_vertex_attrib_integer_64bit,
        attribute_supported(AttributeType::I64I64I64I64, ctx) == ctx.extensions.gl_nv_vertex_attrib_integer_64bit,
        attribute_supported(AttributeType::U64, ctx) == ctx.extensions.gl_nv_vertex_attrib_integer_64bit,
        attribute_supported(AttributeType::U64U64, ctx) == ctx.extensions.gl_nv_vertex_attrib_integer_64bit,
        attribute_supported(AttributeType::U64U64U64, ctx) == ctx.extensions.gl_nv_vertex_attrib_integer_64bit,
        attribute_supported(AttributeType::U64U64U64U64, ctx) == ctx.extensions.gl_nv_vertex_attrib_integer_64bit,
{
}

/// A format is supported exactly when every one of its attributes is,
/// wherever it stands in the format: one unsupported attribute is enough to
/// refuse it, and the empty format is always supported.
pub proof fn law_format_supported_iff_every_attribute(
    format: Seq<(String, usize, AttributeType)>,
    ctx: Context,
)
    ensures
        format_supported(format, ctx) <==> (forall|i: int|
            0 <= i < format.len() ==> #[trigger] attribute_supported(format[i].2, ctx)),
        format.len() == 0 ==> format_supported(format, ctx),
        forall|i: int|
            0 <= i < format.len() && !#[trigger] attribute_supported(format[i].2, ctx)
                ==> !format_supported(format, ctx),
{
}

impl AttributeType {
    /// Whether this attribute type is a double-precision type.
    pub fn is_f64(&self) -> (r: bool)
        ensures
            r == is_f64_attribute(*self),
    {
        match self {
            AttributeType::F64 | AttributeType::F64F64 | AttributeType::F64F64F64 | AttributeType::F64F64F64F64 => true,
            _ => false,
        }
    }

    /// Whether this attribute type is a 64-bit integer type.
    pub fn is_i64(&self) -> (r: bool)
        ensures
            r == is_i64_attribute(*self),
    {
        match self {
            AttributeType::I64 | AttributeType::I64I64 | AttributeType::I64I64I64 | AttributeType::I64I64I64I64 | AttributeType::U64 | AttributeType::U64U64 | AttributeType::U64U64U64 | AttributeType::U64U64U64U64 => true,
            _ => false,
        }
    }

    /// Whether the backend of `caps` can read attributes of this type.
    pub fn is_supported(&self, caps: &Context) -> (r: bool)
        ensures
            r == attribute_supported(*self, *caps),
    {
        if self.is_f64() {
            caps.get_version().at_least(&Version(Api::Gl, 4, 1))
                || caps.get_extensions().gl_arb_vertex_attrib_64bit
        } else if self.is_i64() {
            caps.get_extensions().gl_nv_vertex_attrib_integer_64bit
        } else {
            true
        }
    }
}

/// Whether every attribute of `format` can be read by the backend of `caps`.
pub fn is_format_supported(format: &VertexFormat, caps: &Context) -> (r: bool)
    ensures
        r == format_supported(format@, *caps),
{
    let n: usize = format.len();
    let mut i: usize = 0;
    while i < n
        invariant
            n == format@.len(),
            i <= n,
            forall|j: int| 0 <= j < i ==> #[trigger] attribute_supported(format@[j].2, *caps),
        decreases n - i,
    {
        if !format[i].2.is_supported(caps) {
            return false;
        }
        i = i + 1;
    }
    true
}

} // verus!
