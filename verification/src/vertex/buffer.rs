use vstd::layout::size_of;
use vstd::prelude::*;

use core::ops::{Deref, DerefMut, Range};

use crate::buffer::{
    buffer_any_as, buffer_creation_error_text, fits_in_buffer, regroup, regrouped, regroups_exactly,
    slice_any_of, whole_slice_any,
    Buffer, BufferAny, BufferAnySlice, BufferCreationError, BufferInfo, BufferMode,
    BufferSlice, BufferSliceInfo, BufferType,
};
use crate::context::{instancing_supported, is_instancing_supported, Context};
use crate::vertex::format::{attribute_supported, format_supported, AttributeType, VertexFormat};
use crate::vertex::{IntoVerticesSource, PerInstance, Vertex, VerticesSource};

verus! {

/// Error that can happen when creating a vertex buffer.
#[derive(Copy, Clone, Debug)]
pub enum CreationError {
    /// The vertex format is not supported by the backend.
    ///
    /// Anything 64bits-related may not be supported.
    FormatNotSupported,
    /// Error while creating the vertex buffer.
    BufferCreationError(BufferCreationError),
}

impl From<BufferCreationError> for CreationError {
    fn from(err: BufferCreationError) -> (r: CreationError)
        ensures
            r == CreationError::BufferCreationError(err),
    {
        CreationError::BufferCreationError(err)
    }
}

impl vstd::std_specs::convert::FromSpecImpl<BufferCreationError> for CreationError {
    open spec fn obeys_from_spec() -> bool {
        true
    }

    open spec fn from_spec(v: BufferCreationError) -> CreationError {
        CreationError::BufferCreationError(v)
    }
}

/// The short description of a creation error.
pub open spec fn creation_error_description(e: CreationError) -> Seq<char> {
    match e {
        CreationError::FormatNotSupported => "The vertex format is not supported by the backend"@,
        CreationError::BufferCreationError(_) => "Error while creating the vertex buffer"@,
    }
}

/// The text shown when a creation error is displayed: for a buffer creation
/// error, the text of that error.
pub open spec fn creation_error_text(e: CreationError) -> Seq<char> {
    match e {
        CreationError::FormatNotSupported => "The vertex format is not supported by the backend"@,
        CreationError::BufferCreationError(b) => buffer_creation_error_text(b),
    }
}

impl CreationError {
    /// A short description of the error.
    pub fn description(&self) -> (r: &'static str)
        ensures
            r@ == creation_error_description(*self),
    {
        proof {
            reveal_strlit("The vertex format is not supported by the backend");
            reveal_strlit("Error while creating the vertex buffer");
        }
        match self {
            CreationError::FormatNotSupported => "The vertex format is not supported by the backend",
            CreationError::BufferCreationError(_) => "Error while creating the vertex buffer",
        }
    }

    /// The text shown when the error is displayed.
    pub fn to_string(&self) -> (r: String)
        ensures
            r@ == creation_error_text(*self),
    {
        proof {
            reveal_strlit("The vertex format is not supported by the backend");
        }
        match self {
            CreationError::FormatNotSupported => {
                "The vertex format is not supported by the backend".to_owned()
            },
            CreationError::BufferCreationError(error) => error.to_string(),
        }
    }

    /// The lower-level error that caused this one, if any.
    pub fn cause(&self) -> (r: Option<BufferCreationError>)
        ensures
            r == (match *self {
                CreationError::FormatNotSupported => None,
                CreationError::BufferCreationError(e) => Some(e),
            }),
    {
        match self {
            CreationError::FormatNotSupported => None,
            CreationError::BufferCreationError(error) => Some(*error),
        }
    }
}

/// Instancing is not supported by the backend.
#[derive(Debug, Copy, Clone)]
pub struct InstancingNotSupported;

/// What a vertex buffer is: its buffer, the number of bytes of one vertex,
/// and the format of its vertices.
pub struct VertexBufferInfo {
    pub buffer: BufferInfo,
    pub vertex_size: nat,
    pub bindings: Seq<(String, usize, AttributeType)>,
}

/// The buffer of a vertex buffer seen as a list of vertices: its bytes read
/// as elements of the size of one vertex.
pub open spec fn vertex_layout(info: VertexBufferInfo) -> BufferInfo {
    regrouped(info.buffer, info.vertex_size)
}

/// A vertex buffer once the type of its elements is forgotten: a buffer of
/// vertices.
pub open spec fn erased(info: VertexBufferInfo) -> VertexBufferInfo {
    VertexBufferInfo { buffer: vertex_layout(info), ..info }
}

/// The outcome of building a vertex buffer of `count` vertices of type `T` in
/// `context` with `mode`: the format is checked first, then the size.
pub open spec fn vertex_buffer_creation_result<T: Vertex>(
    context: Context,
    count: nat,
    mode: BufferMode,
    r: Result<VertexBufferInfo, CreationError>,
) -> bool {
    if !format_supported(T::spec_bindings(), context) {
        r == Err::<VertexBufferInfo, CreationError>(CreationError::FormatNotSupported)
    } else {
        raw_vertex_buffer_creation_result::<T>(
            context,
            count,
            mode,
            size_of::<T>(),
            T::spec_bindings(),
            r,
        )
    }
}

/// The outcome of building a vertex buffer of `count` values of type `T` in
/// `context` with `mode`, read as vertices of `vertex_size` bytes with the
/// given bindings, without checking the format.
pub open spec fn raw_vertex_buffer_creation_result<T>(
    context: Context,
    count: nat,
    mode: BufferMode,
    vertex_size: nat,
    bindings: Seq<(String, usize, AttributeType)>,
    r: Result<VertexBufferInfo, CreationError>,
) -> bool {
    if fits_in_buffer(count as int, size_of::<T>() as int) {
        r == Ok::<VertexBufferInfo, CreationError>(
            VertexBufferInfo {
                buffer: BufferInfo {
                    context,
                    ty: BufferType::ArrayBuffer,
                    mode,
                    elements_size: size_of::<T>(),
                    elements_count: count,
                },
                vertex_size,
                bindings,
            },
        )
    } else {
        r == Err::<VertexBufferInfo, CreationError>(
            CreationError::BufferCreationError(BufferCreationError::OutOfMemory),
        )
    }
}

/// The view of the result of building a vertex buffer.
pub open spec fn vertex_buffer_result_view<T: Copy>(r: Result<VertexBuffer<T>, CreationError>) -> Result<
    VertexBufferInfo,
    CreationError,
> {
    match r {
        Ok(vb) => Ok(vb@),
        Err(e) => Err(e),
    }
}

/// What `per_instance` gives for a buffer of the given description: the
/// elements to draw one instance for, if the context can draw instances.
pub open spec fn per_instance_outcome(info: BufferInfo) -> Option<BufferAnySlice> {
    if instancing_supported(info.context) {
        Some(whole_slice_any(info))
    } else {
        None
    }
}

/// Building a vertex buffer of `count` vertices of type `T`: it fails with
/// `FormatNotSupported` exactly when some attribute of the vertex type cannot
/// be read by the context; it fails with an out-of-memory buffer error
/// exactly when the format is supported but the vertices take more than
/// `isize::MAX` bytes; otherwise it gives an array buffer of `count`
/// vertices of the size of `T`, in the context and mode asked for, with the
/// bindings of the vertex type.
pub proof fn law_vertex_buffer_creation<T: Vertex>(
    context: Context,
    count: nat,
    mode: BufferMode,
    r: Result<VertexBufferInfo, CreationError>,
)
    requires
        vertex_buffer_creation_result::<T>(context, count, mode, r),
    ensures
        (r matches Err(CreationError::FormatNotSupported)) <==> exists|i: int|
            0 <= i < T::spec_bindings().len() && !#[trigger] attribute_supported(
                T::spec_bindings()[i].2,
                context,
            ),
        (r matches Err(CreationError::BufferCreationError(_))) <==> (format_supported(
            T::spec_bindings(),
            context,
        ) && count * size_of::<T>() > isize::MAX),
        r matches Err(CreationError::BufferCreationError(e)) ==> e == BufferCreationError::OutOfMemory,
        r matches Ok(info) ==> info.buffer.context == context && info.buffer.ty
            == BufferType::ArrayBuffer && info.buffer.mode == mode && info.buffer.elements_count
            == count && info.buffer.elements_size == size_of::<T>() && info.vertex_size == size_of::<
            T,
        >() && info.bindings == T::spec_bindings(),
{
}

/// Building a vertex buffer from raw data never checks the format: it fails
/// only with an out-of-memory buffer error, exactly when the data takes more
/// than `isize::MAX` bytes, and otherwise keeps the given vertex size and
/// bindings.
pub proof fn law_raw_vertex_buffer_creation<T>(
    context: Context,
    count: nat,
    mode: BufferMode,
    vertex_size: nat,
    bindings: Seq<(String, usize, AttributeType)>,
    r: Result<VertexBufferInfo, CreationError>,
)
    requires
        raw_vertex_buffer_creation_result::<T>(context, count, mode, vertex_size, bindings, r),
    ensures
        !(r matches Err(CreationError::FormatNotSupported)),
        r is Ok <==> count * size_of::<T>() <= isize::MAX,
        r matches Err(e) ==> e == CreationError::BufferCreationError(
            BufferCreationError::OutOfMemory,
        ),
        r matches Ok(info) ==> info.buffer.context == context && info.buffer.ty
            == BufferType::ArrayBuffer && info.buffer.mode == mode && info.buffer.elements_count
            == count && info.buffer.elements_size == size_of::<T>() && info.vertex_size
            == vertex_size && info.bindings == bindings,
{
}

/// A per-instance marker is given exactly when the context can draw
/// instances, and then covers all the elements of the buffer described, from
/// the first, with their size and context.
pub proof fn law_per_instance_outcome(info: BufferInfo)
    requires
        info.elements_count <= usize::MAX,
        info.elements_size <= usize::MAX,
    ensures
        per_instance_outcome(info) is Some <==> instancing_supported(info.context),
        per_instance_outcome(info) matches Some(x) ==> x.offset == 0 && x.len
            == info.elements_count && x.elements_size == info.elements_size && x.context
            == info.context,
{
}

/// A vertex buffer seen as its vertices: its bytes read as elements of the
/// size of one vertex, with the same context, type and mode; erasing the
/// type keeps the vertex size and bindings.
pub proof fn law_vertex_layout(info: VertexBufferInfo)
    ensures
        vertex_layout(info).elements_size == info.vertex_size,
        vertex_layout(info).elements_count == regroup(
            info.buffer.elements_count,
            info.buffer.elements_size,
            info.vertex_size,
        ),
        vertex_layout(info).context == info.buffer.context,
        vertex_layout(info).ty == info.buffer.ty,
        vertex_layout(info).mode == info.buffer.mode,
        erased(info).buffer == vertex_layout(info),
        erased(info).vertex_size == info.vertex_size,
        erased(info).bindings == info.bindings,
{
}

/// The text shown for a creation error is its description when the format
/// is refused, and the text of the buffer error otherwise; the description
/// of a buffer error names the vertex buffer, not the cause.
pub proof fn law_creation_error_texts(e: CreationError)
    ensures
        e is FormatNotSupported ==> creation_error_text(e) == creation_error_description(e),
        e matches CreationError::BufferCreationError(b) ==> creation_error_text(e)
            == buffer_creation_error_text(b) && creation_error_description(e)
            == "Error while creating the vertex buffer"@,
{
}

/// The outcome of building a vertex buffer depends only on the context, the
/// number of vertices and the mode: building from data and building an empty
/// buffer of as many vertices give the same buffer, or the same error.
pub proof fn law_creation_outcome_is_determined<T: Vertex>(
    context: Context,
    count: nat,
    mode: BufferMode,
    r1: Result<VertexBufferInfo, CreationError>,
    r2: Result<VertexBufferInfo, CreationError>,
)
    requires
        vertex_buffer_creation_result::<T>(context, count, mode, r1),
        vertex_buffer_creation_result::<T>(context, count, mode, r2),
    ensures
        r1 == r2,
{
}

/// The mode of a vertex buffer only decides its mode: whether building
/// succeeds, and what is built, is the same for every mode.
pub proof fn law_mode_only_sets_mode<T: Vertex>(
    context: Context,
    count: nat,
    m1: BufferMode,
    m2: BufferMode,
    r1: Result<VertexBufferInfo, CreationError>,
    r2: Result<VertexBufferInfo, CreationError>,
)
    requires
        vertex_buffer_creation_result::<T>(context, count, m1, r1),
        vertex_buffer_creation_result::<T>(context, count, m2, r2),
    ensures
        r1 is Ok <==> r2 is Ok,
        r1 is Err ==> r1 == r2,
        r1 matches Ok(a) ==> r2 matches Ok(b) && a.buffer.mode == m1 && b.buffer.mode == m2
            && b == (VertexBufferInfo { buffer: BufferInfo { mode: m2, ..a.buffer }, ..a }),
{
}

/// A vertex buffer that was built can be drawn in its context: its format is
/// supported there, its elements have the size of the vertex type, and it
/// holds as many elements as were asked for.
pub proof fn law_built_buffers_are_usable<T: Vertex>(
    context: Context,
    count: nat,
    mode: BufferMode,
    r: Result<VertexBufferInfo, CreationError>,
)
    requires
        vertex_buffer_creation_result::<T>(context, count, mode, r),
        r is Ok,
    ensures
        format_supported(r->Ok_0.bindings, r->Ok_0.buffer.context),
        crate::buffer::buffer_info_valid::<T>(r->Ok_0.buffer),
        r->Ok_0.buffer.elements_count == count,
        r->Ok_0.vertex_size == size_of::<T>(),
        vertex_layout(r->Ok_0) == r->Ok_0.buffer,
{
}

/// The slice of a buffer that starts at its first element and ends at its
/// end describes the whole buffer.
pub proof fn law_full_slice_is_whole(b: BufferInfo)
    ensures
        slice_any_of(BufferSliceInfo { buffer: b, offset: 0, len: b.elements_count })
            == whole_slice_any(b),
{
}

/// A vertex buffer whose vertices are its elements, the vertex buffer without
/// its type, and the slice of the vertex buffer that covers all of it, all
/// decide alike whether instances can be drawn, and draw them over the same
/// elements.
pub proof fn law_per_instance_agrees(vb: VertexBufferInfo)
    requires
        vb.vertex_size == vb.buffer.elements_size,
    ensures
        per_instance_outcome(vertex_layout(vb)) == per_instance_outcome(vertex_layout(erased(vb))),
        per_instance_outcome(vertex_layout(vb)) == (if instancing_supported(vb.buffer.context) {
            Some(slice_any_of(BufferSliceInfo { buffer: vb.buffer, offset: 0, len: vb.buffer.elements_count }))
        } else {
            None
        }),
{
}

/// Forgetting the type of the elements of a vertex buffer, then giving them
/// back the same type, gives back the same vertex buffer, as long as its bytes
/// hold a whole number of vertices.
pub proof fn law_erasure_round_trip(info: VertexBufferInfo)
    requires
        regroups_exactly(info.buffer.elements_count, info.buffer.elements_size, info.vertex_size),
        info.vertex_size == info.buffer.elements_size || info.buffer.elements_size > 0,
    ensures
        regroups_exactly(
            erased(info).buffer.elements_count,
            erased(info).buffer.elements_size,
            info.buffer.elements_size,
        ),
        (VertexBufferInfo {
            buffer: regrouped(erased(info).buffer, info.buffer.elements_size),
            vertex_size: erased(info).buffer.elements_size,
            bindings: info.bindings,
        }) == info,
{
    let c: nat = info.buffer.elements_count;
    let e: nat = info.buffer.elements_size;
    let v: nat = info.vertex_size;
    if v != e {
        let b: nat = c * e;
        let n: nat = b / v;
        assert(n == regroup(c, e, v));
        assert(n * v == b) by (nonlinear_arith)
            requires
                v > 0,
                b % v == 0,
                n == b / v,
        ;
        assert((n * v) % e == 0 && (n * v) / e == c) by (nonlinear_arith)
            requires
                e > 0,
                n * v == c * e,
        ;
    }
}

/// A list of vertices: the description of the buffer that holds them, the
/// number of bytes of one vertex, and the format of the vertices.
pub struct VertexBuffer<T: Copy> {
    buffer: Buffer<T>,
    vertex_size: usize,
    bindings: VertexFormat,
}

impl<T: Copy> View for VertexBuffer<T> {
    type V = VertexBufferInfo;

    closed spec fn view(&self) -> VertexBufferInfo {
        VertexBufferInfo {
            buffer: self.buffer@,
            vertex_size: self.vertex_size as nat,
            bindings: self.bindings@,
        }
    }
}

impl<T: Copy> VertexBuffer<T> {
    /// The vertices the buffer is known to hold since it was created from
    /// them, or `None` when no such record is kept (see `Buffer::uploaded`).
    pub closed spec fn uploaded(&self) -> Option<Seq<T>> {
        self.buffer.uploaded()
    }
}

/// What a slice of a vertex buffer is: the slice of the buffer and the format
/// of the vertices.
pub struct VertexBufferSliceInfo {
    pub slice: BufferSliceInfo,
    pub bindings: Seq<(String, usize, AttributeType)>,
}

/// Represents a slice of a `VertexBuffer`.
pub struct VertexBufferSlice<'b, T: Copy> {
    buffer: BufferSlice<'b, T>,
    bindings: &'b VertexFormat,
}

impl<'b, T: Copy> View for VertexBufferSlice<'b, T> {
    type V = VertexBufferSliceInfo;

    closed spec fn view(&self) -> VertexBufferSliceInfo {
        VertexBufferSliceInfo { slice: self.buffer@, bindings: self.bindings@ }
    }
}

impl<'b, T: Copy> VertexBufferSlice<'b, T> {
    /// The part of the vertices the buffer was filled with that this slice
    /// covers, or `None` when the buffer was created without them.
    pub closed spec fn uploaded(&self) -> Option<Seq<T>> {
        self.buffer.uploaded()
    }

    /// Creates a marker that instructs the drawing code to use multiple
    /// instances: one instance of the geometry for each element of this slice.
    /// Like the slice, the marker counts values of type `T`, whatever the size
    /// of one vertex of the buffer.
    ///
    /// Fails when the context can draw no instances: it implements neither
    /// desktop OpenGL 3.3 nor `GL_ARB_instanced_arrays`.
    pub fn per_instance(&self) -> (r: Result<PerInstance<'b>, InstancingNotSupported>)
        ensures
            r is Ok <==> instancing_supported(self@.slice.buffer.context),
            r matches Ok(p) ==> p.0 == slice_any_of(self@.slice) && p.1@ == self@.bindings,
    {
        if !is_instancing_supported(self.buffer.get_context()) {
            return Err(InstancingNotSupported);
        }
        Ok(PerInstance(self.buffer.as_slice_any(), self.bindings))
    }

}

impl<'b, T: Copy> Deref for VertexBufferSlice<'b, T> {
    type Target = BufferSlice<'b, T>;

    fn deref(&self) -> (r: &BufferSlice<'b, T>)
        ensures
            r@ == self@.slice,
            r.uploaded() == self.uploaded(),
    {
        &self.buffer
    }
}

impl<'b, T: Copy> DerefMut for VertexBufferSlice<'b, T> {
    fn deref_mut(&mut self) -> (r: &mut BufferSlice<'b, T>)
        ensures
            r@ == old(self)@.slice,
            r.uploaded() == old(self).uploaded(),
            final(self)@ == (VertexBufferSliceInfo { slice: final(r)@, bindings: old(self)@.bindings }),
            final(self).uploaded() == final(r).uploaded(),
    {
        &mut self.buffer
    }
}

impl<'a, T: Copy> IntoVerticesSource<'a> for VertexBufferSlice<'a, T> {
    fn into_vertices_source(self) -> (r: VerticesSource<'a>)
        ensures
            r matches VerticesSource::VertexBuffer(s, f, per_instance) && s == slice_any_of(
                self@.slice,
            ) && f@ == self@.bindings && !per_instance,
    {
        VerticesSource::VertexBuffer(self.buffer.as_slice_any(), self.bindings, false)
    }
}

impl<T: Vertex> VertexBuffer<T> {
    /// Builds a new vertex buffer holding a copy of `data`.
    ///
    /// Note that operations such as `write` will be very slow. If you want to
    /// modify the buffer from time to time, you should use the `dynamic`
    /// function instead.
    pub fn new(facade: &Context, data: &[T]) -> (r: Result<VertexBuffer<T>, CreationError>)
        ensures
            vertex_buffer_creation_result::<T>(
                *facade,
                data@.len(),
                BufferMode::Default,
                vertex_buffer_result_view(r),
            ),
            r matches Ok(vb) ==> vb.uploaded() == Some(data@),
    {
        VertexBuffer::new_impl(facade, data, BufferMode::Default)
    }

    /// Builds a new vertex buffer that is intended to be modified frequently.
    pub fn dynamic(facade: &Context, data: &[T]) -> (r: Result<VertexBuffer<T>, CreationError>)
        ensures
            vertex_buffer_creation_result::<T>(
                *facade,
                data@.len(),
                BufferMode::Dynamic,
                vertex_buffer_result_view(r),
            ),
            r matches Ok(vb) ==> vb.uploaded() == Some(data@),
    {
        VertexBuffer::new_impl(facade, data, BufferMode::Dynamic)
    }

    /// Builds a new vertex buffer that is mapped persistently.
    pub fn persistent(facade: &Context, data: &[T]) -> (r: Result<VertexBuffer<T>, CreationError>)
        ensures
            vertex_buffer_creation_result::<T>(
                *facade,
                data@.len(),
                BufferMode::Persistent,
                vertex_buffer_result_view(r),
            ),
            r matches Ok(vb) ==> vb.uploaded() == Some(data@),
    {
        VertexBuffer::new_impl(facade, data, BufferMode::Persistent)
    }

    /// Builds a new vertex buffer whose contents never change.
    pub fn immutable(facade: &Context, data: &[T]) -> (r: Result<VertexBuffer<T>, CreationError>)
        ensures
            vertex_buffer_creation_result::<T>(
                *facade,
                data@.len(),
                BufferMode::Immutable,
                vertex_buffer_result_view(r),
            ),
            r matches Ok(vb) ==> vb.uploaded() == Some(data@),
    {
        VertexBuffer::new_impl(facade, data, BufferMode::Immutable)
    }

    fn new_impl(facade: &Context, data: &[T], mode: BufferMode) -> (r: Result<
        VertexBuffer<T>,
        CreationError,
    >)
        ensures
            vertex_buffer_creation_result::<T>(
                *facade,
                data@.len(),
                mode,
                vertex_buffer_result_view(r),
            ),
            r matches Ok(vb) ==> vb.uploaded() == Some(data@),
    {
        if !T::is_supported(facade) {
            return Err(CreationError::FormatNotSupported);
        }
        let buffer = match Buffer::new(facade, data, BufferType::ArrayBuffer, mode) {
            Ok(buffer) => buffer,
            Err(error) => {
                return Err(CreationError::from(error));
            },
        };
        Ok(VertexBuffer::from_buffer(buffer))
    }

    /// Builds an empty vertex buffer of `elements` elements.
    pub fn empty(facade: &Context, elements: usize) -> (r: Result<VertexBuffer<T>, CreationError>)
        ensures
            vertex_buffer_creation_result::<T>(
                *facade,
                elements as nat,
                BufferMode::Default,
                vertex_buffer_result_view(r),
            ),
            r matches Ok(vb) ==> vb.uploaded() is None,
    {
        VertexBuffer::empty_impl(facade, elements, BufferMode::Default)
    }

    /// Builds an empty vertex buffer of `elements` elements, intended to be
    /// modified frequently.
    pub fn empty_dynamic(facade: &Context, elements: usize) -> (r: Result<
        VertexBuffer<T>,
        CreationError,
    >)
        ensures
            vertex_buffer_creation_result::<T>(
                *facade,
                elements as nat,
                BufferMode::Dynamic,
                vertex_buffer_result_view(r),
            ),
            r matches Ok(vb) ==> vb.uploaded() is None,
    {
        VertexBuffer::empty_impl(facade, elements, BufferMode::Dynamic)
    }

    /// Builds an empty vertex buffer of `elements` elements, mapped
    /// persistently.
    pub fn empty_persistent(facade: &Context, elements: usize) -> (r: Result<
        VertexBuffer<T>,
        CreationError,
    >)
        ensures
            vertex_buffer_creation_result::<T>(
                *facade,
                elements as nat,
                BufferMode::Persistent,
                vertex_buffer_result_view(r),
            ),
            r matches Ok(vb) ==> vb.uploaded() is None,
    {
        VertexBuffer::empty_impl(facade, elements, BufferMode::Persistent)
    }

    /// Builds an empty vertex buffer of `elements` elements whose contents
    /// never change.
    pub fn empty_immutable(facade: &Context, elements: usize) -> (r: Result<
        VertexBuffer<T>,
        CreationError,
    >)
        ensures
            vertex_buffer_creation_result::<T>(
                *facade,
                elements as nat,
                BufferMode::Immutable,
                vertex_buffer_result_view(r),
            ),
            r matches Ok(vb) ==> vb.uploaded() is None,
    {
        VertexBuffer::empty_impl(facade, elements, BufferMode::Immutable)
    }

    fn empty_impl(facade: &Context, elements: usize, mode: BufferMode) -> (r: Result<
        VertexBuffer<T>,
        CreationError,
    >)
        ensures
            vertex_buffer_creation_result::<T>(
                *facade,
                elements as nat,
                mode,
                vertex_buffer_result_view(r),
            ),
            r matches Ok(vb) ==> vb.uploaded() is None,
    {
        if !T::is_supported(facade) {
            return Err(CreationError::FormatNotSupported);
        }
        let buffer = match Buffer::empty_array(facade, BufferType::ArrayBuffer, elements, mode) {
            Ok(buffer) => buffer,
            Err(error) => {
                return Err(CreationError::from(error));
            },
        };
        Ok(VertexBuffer::from_buffer(buffer))
    }

    /// Turns a buffer of vertices into a vertex buffer, with the bindings of
    /// the vertex type. The vertex type must be supported by the context of
    /// the buffer.
    pub fn from_buffer(buffer: Buffer<T>) -> (r: VertexBuffer<T>)
        requires
            format_supported(T::spec_bindings(), buffer@.context),
        ensures
            r@ == (VertexBufferInfo {
                buffer: buffer@,
                vertex_size: size_of::<T>(),
                bindings: T::spec_bindings(),
            }),
            r@.buffer.elements_size == size_of::<T>(),
            r.uploaded() == buffer.uploaded(),
    {
        let bindings = T::build_bindings();
        let vertex_size: usize = buffer.get_elements_size();
        VertexBuffer { buffer, vertex_size, bindings }
    }
}

impl<T: Copy> VertexBuffer<T> {
    /// Builds a new vertex buffer from data of any type and the bindings that
    /// describe it: the bytes of `data` are read as vertices of
    /// `elements_size` bytes each, as many whole vertices as they hold. The
    /// format is not checked against the backend.
    pub fn new_raw(
        facade: &Context,
        data: &[T],
        bindings: VertexFormat,
        elements_size: usize,
    ) -> (r: Result<VertexBuffer<T>, CreationError>)
        ensures
            raw_vertex_buffer_creation_result::<T>(
                *facade,
                data@.len(),
                BufferMode::Default,
                elements_size as nat,
                bindings@,
                vertex_buffer_result_view(r),
            ),
            r matches Ok(vb) ==> vb.uploaded() == Some(data@),
    {
        let buffer = match Buffer::new(facade, data, BufferType::ArrayBuffer, BufferMode::Default) {
            Ok(buffer) => buffer,
            Err(error) => {
                return Err(CreationError::from(error));
            },
        };
        Ok(VertexBuffer { buffer, vertex_size: elements_size, bindings })
    }

    /// Dynamic version of `new_raw`: the bytes of `data` are read as vertices
    /// of `elements_size` bytes each, as many whole vertices as they hold.
    pub fn new_raw_dynamic(
        facade: &Context,
        data: &[T],
        bindings: VertexFormat,
        elements_size: usize,
    ) -> (r: Result<VertexBuffer<T>, CreationError>)
        ensures
            raw_vertex_buffer_creation_result::<T>(
                *facade,
                data@.len(),
                BufferMode::Dynamic,
                elements_size as nat,
                bindings@,
                vertex_buffer_result_view(r),
            ),
            r matches Ok(vb) ==> vb.uploaded() == Some(data@),
    {
        let buffer = match Buffer::new(facade, data, BufferType::ArrayBuffer, BufferMode::Dynamic) {
            Ok(buffer) => buffer,
            Err(error) => {
                return Err(CreationError::from(error));
            },
        };
        Ok(VertexBuffer { buffer, vertex_size: elements_size, bindings })
    }

    /// Accesses the elements `range.start .. range.end` of the buffer,
    /// counted in values of type `T`.
    ///
    /// Returns `None` if the slice is out of range.
    pub fn slice(&self, range: Range<usize>) -> (r: Option<VertexBufferSlice<'_, T>>)
        ensures
            r is Some <==> range.start <= range.end <= self@.buffer.elements_count,
            r matches Some(s) ==> s@ == (VertexBufferSliceInfo {
                slice: BufferSliceInfo {
                    buffer: self@.buffer,
                    offset: range.start as nat,
                    len: (range.end - range.start) as nat,
                },
                bindings: self@.bindings,
            }) && s.uploaded() == crate::buffer::uploaded_range(
                self.uploaded(),
                range.start as int,
                range.end as int,
            ),
    {
        let slice = match self.buffer.slice(range) {
            None => {
                return None;
            },
            Some(s) => s,
        };
        Some(VertexBufferSlice { buffer: slice, bindings: &self.bindings })
    }

    /// Returns the associated `VertexFormat`.
    pub fn get_bindings(&self) -> (r: &VertexFormat)
        ensures
            r@ == self@.bindings,
    {
        &self.bindings
    }

    /// Creates a marker that instructs the drawing code to use multiple
    /// instances: one instance of the geometry for each element of this
    /// buffer. The attributes are still passed to the vertex shader, but each
    /// entry is passed for each different instance.
    ///
    /// Fails when the context can draw no instances: it implements neither
    /// desktop OpenGL 3.3 nor `GL_ARB_instanced_arrays`.
    pub fn per_instance(&self) -> (r: Result<PerInstance<'_>, InstancingNotSupported>)
        ensures
            r is Ok <==> per_instance_outcome(vertex_layout(self@)) is Some,
            r matches Ok(p) ==> Some(p.0) == per_instance_outcome(vertex_layout(self@)) && p.1@
                == self@.bindings,
    {
        if !is_instancing_supported(self.buffer.get_context()) {
            return Err(InstancingNotSupported);
        }
        Ok(PerInstance(self.vertices_any(), &self.bindings))
    }

    /// Describes all the vertices of the buffer, without their type.
    fn vertices_any(&self) -> (r: BufferAnySlice)
        ensures
            r == whole_slice_any(vertex_layout(self@)),
    {
        BufferAnySlice {
            context: *self.buffer.get_context(),
            elements_size: self.vertex_size,
            offset: 0,
            len: self.buffer.len_as(self.vertex_size),
        }
    }

    /// Discards the type information and turns the vertex buffer into a
    /// `VertexBufferAny`.
    pub fn into_vertex_buffer_any(self) -> (r: VertexBufferAny)
        ensures
            r == vertex_buffer_any_of(self),
            r@ == erased(self@),
    {
        VertexBufferAny { buffer: self.buffer.into_any_as(self.vertex_size), bindings: self.bindings }
    }
}

/// The vertex buffer `vb` once the type of its vertices is forgotten.
pub closed spec fn vertex_buffer_any_of<T: Copy>(vb: VertexBuffer<T>) -> VertexBufferAny {
    VertexBufferAny { buffer: buffer_any_as(vb.buffer, vb.vertex_size), bindings: vb.bindings }
}

/// Forgetting the type of the vertices, by `into_vertex_buffer_any` or by
/// `into`, gives the buffer read as its vertices, with the same bindings.
pub proof fn law_erasure_keeps_view<T: Copy>(vb: VertexBuffer<T>)
    requires
        fits_in_buffer(vb@.buffer.elements_count as int, vb@.buffer.elements_size as int),
    ensures
        vertex_buffer_any_of(vb)@ == erased(vb@),
        <VertexBufferAny as vstd::std_specs::convert::FromSpec<VertexBuffer<T>>>::from_spec(vb)
            == vertex_buffer_any_of(vb),
{
    crate::buffer::lemma_buffer_any_as_view(vb.buffer, vb.vertex_size);
}

impl<T: Copy> Deref for VertexBuffer<T> {
    type Target = Buffer<T>;

    fn deref(&self) -> (r: &Buffer<T>)
        ensures
            r@ == self@.buffer,
            r.uploaded() == self.uploaded(),
    {
        &self.buffer
    }
}

impl<T: Copy> DerefMut for VertexBuffer<T> {
    fn deref_mut(&mut self) -> (r: &mut Buffer<T>)
        ensures
            r@ == old(self)@.buffer,
            r.uploaded() == old(self).uploaded(),
            final(self)@ == (VertexBufferInfo { buffer: final(r)@, ..old(self)@ }),
            final(self).uploaded() == final(r).uploaded(),
    {
        &mut self.buffer
    }
}

impl<'a, T: Copy> IntoVerticesSource<'a> for &'a VertexBuffer<T> {
    fn into_vertices_source(self) -> (r: VerticesSource<'a>)
        ensures
            r matches VerticesSource::VertexBuffer(s, f, per_instance) && s == whole_slice_any(
                vertex_layout(self@),
            ) && f@ == self@.bindings && !per_instance,
    {
        VerticesSource::VertexBuffer(self.vertices_any(), &self.bindings, false)
    }
}

/// A list of vertices: the description of the buffer that holds them and the
/// format of the vertices.
///
/// Contrary to `VertexBuffer`, this struct doesn't know about the type of data
/// inside the buffer. Therefore you can't map or read it.
///
/// This struct is provided for convenience, so that you can have a
/// `Vec<VertexBufferAny>`, or return a `VertexBufferAny` instead of a
/// `VertexBuffer<MyPrivateVertexType>`.
pub struct VertexBufferAny {
    buffer: BufferAny,
    bindings: VertexFormat,
}

impl View for VertexBufferAny {
    type V = VertexBufferInfo;

    closed spec fn view(&self) -> VertexBufferInfo {
        VertexBufferInfo {
            buffer: self.buffer@,
            vertex_size: self.buffer@.elements_size,
            bindings: self.bindings@,
        }
    }
}

impl VertexBufferAny {
    /// Returns the number of bytes between two consecutive elements in the
    /// buffer.
    pub fn get_elements_size(&self) -> (r: usize)
        ensures
            r == self@.buffer.elements_size,
    {
        self.buffer.get_elements_size()
    }

    /// Returns the number of elements in the buffer.
    pub fn len(&self) -> (r: usize)
        ensures
            r == self@.buffer.elements_count,
    {
        self.buffer.get_elements_count()
    }

    /// Returns the associated `VertexFormat`.
    pub fn get_bindings(&self) -> (r: &VertexFormat)
        ensures
            r@ == self@.bindings,
    {
        &self.bindings
    }

    /// Turns the vertex buffer into a `VertexBuffer` without checking the
    /// type: the caller vouches that the bytes are values of type `T`, which
    /// requires at least that they hold a whole number of them. The vertices
    /// keep their size.
    pub fn into_vertex_buffer<T: Copy>(self) -> (r: VertexBuffer<T>)
        requires
            regroups_exactly(self@.buffer.elements_count, self@.buffer.elements_size, size_of::<T>()),
        ensures
            r@ == (VertexBufferInfo {
                buffer: regrouped(self@.buffer, size_of::<T>()),
                vertex_size: self@.buffer.elements_size,
                bindings: self@.bindings,
            }),
            r.uploaded() is None,
    {
        let vertex_size: usize = self.buffer.get_elements_size();
        VertexBuffer { buffer: self.buffer.into_typed(), vertex_size, bindings: self.bindings }
    }

    /// Creates a marker that instructs the drawing code to use multiple
    /// instances: one instance of the geometry for each element of this
    /// buffer.
    ///
    /// Fails when the context can draw no instances: it implements neither
    /// desktop OpenGL 3.3 nor `GL_ARB_instanced_arrays`.
    pub fn per_instance(&self) -> (r: Result<PerInstance<'_>, InstancingNotSupported>)
        ensures
            r is Ok <==> instancing_supported(self@.buffer.context),
            r matches Ok(p) ==> p.0 == whole_slice_any(self@.buffer) && p.1@ == self@.bindings,
    {
        if !is_instancing_supported(self.buffer.get_context()) {
            return Err(InstancingNotSupported);
        }
        Ok(PerInstance(self.buffer.as_slice_any(), &self.bindings))
    }

    /// Turns a buffer of vertices into a vertex buffer whose type is
    /// forgotten. The vertex type must be supported by the context of the
    /// buffer.
    pub fn from_buffer<T: Vertex>(buf: Buffer<T>) -> (r: VertexBufferAny)
        requires
            format_supported(T::spec_bindings(), buf@.context),
        ensures
            r@ == (VertexBufferInfo {
                buffer: buf@,
                vertex_size: size_of::<T>(),
                bindings: T::spec_bindings(),
            }),
    {
        let buf: VertexBuffer<T> = VertexBuffer::from_buffer(buf);
        buf.into_vertex_buffer_any()
    }
}

impl<T: Copy> From<VertexBuffer<T>> for VertexBufferAny {
    fn from(buf: VertexBuffer<T>) -> (r: VertexBufferAny)
        ensures
            r@ == erased(buf@),
    {
        buf.into_vertex_buffer_any()
    }
}

impl<T: Copy> vstd::std_specs::convert::FromSpecImpl<VertexBuffer<T>> for VertexBufferAny {
    open spec fn obeys_from_spec() -> bool {
        true
    }

    open spec fn from_spec(v: VertexBuffer<T>) -> VertexBufferAny {
        vertex_buffer_any_of(v)
    }
}

impl<'a> IntoVerticesSource<'a> for &'a VertexBufferAny {
    fn into_vertices_source(self) -> (r: VerticesSource<'a>)
        ensures
            r matches VerticesSource::VertexBuffer(s, f, per_instance) && s == whole_slice_any(
                self@.buffer,
            ) && f@ == self@.bindings && !per_instance,
    {
        VerticesSource::VertexBuffer(self.buffer.as_slice_any(), &self.bindings, false)
    }
}

} // verus!
