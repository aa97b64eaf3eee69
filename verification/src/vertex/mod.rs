pub mod buffer;
pub mod format;

use vstd::prelude::*;

use crate::buffer::BufferAnySlice;
use crate::context::Context;
use crate::vertex::format::{format_supported, is_format_supported, AttributeType, VertexFormat};

verus! {

/// Some fixed format for the vertices of type `T`, about which nothing else
/// is known.
pub closed spec fn fixed_format_of<T>() -> Seq<(String, usize, AttributeType)> {
    choose|f: Seq<(String, usize, AttributeType)>| #[trigger] f.len() >= 0
}

/// A type whose values can be stored in a vertex buffer.
///
/// An implementation promises that `build_bindings` always returns the same
/// attributes, those that `spec_bindings` names: the library relies on it
/// without checking, as it relies on the bindings describing the layout of
/// the type. Unless an implementation names them, they are some fixed format
/// about which nothing more is known.
pub trait Vertex: Copy + Sized {
    /// The attributes of one vertex of this type.
    open spec fn spec_bindings() -> Seq<(String, usize, AttributeType)> {
        fixed_format_of::<Self>()
    }

    /// Builds the description of the attributes of one vertex of this type.
    fn build_bindings() -> (r: VertexFormat)
        ensures
            r@ == Self::spec_bindings(),
    ;

    /// Whether the backend of `caps` can read vertices of this type: each of
    /// their attributes must be of a type it supports.
    fn is_supported(caps: &Context) -> (r: bool)
        ensures
            r == format_supported(Self::spec_bindings(), *caps),
    {
        let bindings = Self::build_bindings();
        is_format_supported(&bindings, caps)
    }
}

/// A marker that draws one instance of the geometry per element of a buffer:
/// the elements and the format of their attributes.
pub struct PerInstance<'a>(pub BufferAnySlice, pub &'a VertexFormat);

/// Where the vertices of a draw call come from.
pub enum VerticesSource<'a> {
    /// A vertex buffer: its elements, their format, and whether one element is
    /// read per instance rather than per vertex.
    VertexBuffer(BufferAnySlice, &'a VertexFormat, bool),
    /// No buffer: `len` vertices with no attributes.
    Marker { len: usize, per_instance: bool },
}

/// A value that can be used as the source of the vertices of a draw call.
pub trait IntoVerticesSource<'a> {
    /// Describes where the vertices come from.
    fn into_vertices_source(self) -> VerticesSource<'a>;
}

impl<'a> IntoVerticesSource<'a> for PerInstance<'a> {
    fn into_vertices_source(self) -> (r: VerticesSource<'a>)
        ensures
            r == VerticesSource::VertexBuffer(self.0, self.1, true),
    {
        VerticesSource::VertexBuffer(self.0, self.1, true)
    }
}

} // verus!
