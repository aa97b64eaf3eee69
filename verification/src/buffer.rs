use vstd::layout::size_of;
use vstd::prelude::*;

use core::ops::Range;

use crate::context::Context;

verus! {

/// The binding point a buffer is created for.
#[derive(Debug, Copy, Clone, PartialEq, Eq, Structural)]
pub enum BufferType {
    /// Vertex attributes (`GL_ARRAY_BUFFER`).
    ArrayBuffer,
    /// Vertex indices (`GL_ELEMENT_ARRAY_BUFFER`).
    ElementArrayBuffer,
}

/// How the contents of a buffer are expected to be used.
#[derive(Debug, Copy, Clone, PartialEq, Eq, Structural)]
pub enum BufferMode {
    /// Written rarely, read often.
    Default,
    /// Mapped persistently.
    Persistent,
    /// Modified frequently.
    Dynamic,
    /// Never modified after creation.
    Immutable,
}

/// Error that can happen when creating a buffer.
#[derive(Debug, Copy, Clone, PartialEq, Eq, Structural)]
pub enum BufferCreationError {
    /// Not enough memory to create the buffer.
    OutOfMemory,
    /// This type of buffer is not supported.
    BufferTypeNotSupported,
}

/// The text that describes a buffer creation error.
pub open spec fn buffer_creation_error_text(e: BufferCreationError) -> Seq<char> {
    match e {
        BufferCreationError::OutOfMemory => "Not enough memory to create the buffer"@,
        BufferCreationError::BufferTypeNotSupported => "This type of buffer is not supported"@,
    }
}

impl BufferCreationError {
    /// A short description of the error.
    pub fn description(&self) -> (r: &'static str)
        ensures
            r@ == buffer_creation_error_text(*self),
    {
        proof {
            reveal_strlit("Not enough memory to create the buffer");
            reveal_strlit("This type of buffer is not supported");
        }
        match self {
            BufferCreationError::OutOfMemory => "Not enough memory to create the buffer",
            BufferCreationError::BufferTypeNotSupported => "This type of buffer is not supported",
        }
    }

    /// The text that displaying the error shows: its description.
    pub fn to_string(&self) -> (r: String)
        ensures
            r@ == buffer_creation_error_text(*self),
    {
        self.description().to_owned()
    }
}

/// The size in bytes of a buffer of `count` elements of `size` bytes each can
/// be handed to the backend, whose size parameter is a signed pointer-sized
/// integer.
pub open spec fn fits_in_buffer(count: int, size: int) -> bool {
    count * size <= isize::MAX
}

/// The number of elements of `new_size` bytes in `count` elements of `size`
/// bytes: the same count when the size does not change, none when the new
/// size is zero, and otherwise as many whole elements as the bytes hold.
pub open spec fn regroup(count: nat, size: nat, new_size: nat) -> nat {
    if new_size == size {
        count
    } else if new_size == 0 {
        0
    } else {
        (count * size) / new_size
    }
}

/// Whether the bytes of `count` elements of `size` bytes are a whole number
/// of elements of `new_size` bytes.
pub open spec fn regroups_exactly(count: nat, size: nat, new_size: nat) -> bool {
    new_size == size || (new_size > 0 && (count * size) % new_size == 0)
}

/// Computes `regroup(count, size, new_size)`.
fn regroup_count(count: usize, size: usize, new_size: usize) -> (r: usize)
    requires
        fits_in_buffer(count as int, size as int),
    ensures
        r == regroup(count as nat, size as nat, new_size as nat),
{
    if new_size == size {
        count
    } else if new_size == 0 {
        0
    } else {
        proof {
            lemma_regroup_fits(count as nat, size as nat, new_size as nat);
        }
        (count * size) / new_size
    }
}

/// Regrouping the bytes of a buffer whose size fits the backend gives a
/// buffer whose size fits too.
proof fn lemma_regroup_fits(count: nat, size: nat, new_size: nat)
    requires
        fits_in_buffer(count as int, size as int),
    ensures
        new_size != size ==> regroup(count, size, new_size) <= isize::MAX,
        fits_in_buffer(regroup(count, size, new_size) as int, new_size as int),
{
    if new_size != size && new_size != 0 {
        let b: nat = count * size;
        let q: nat = b / new_size;
        assert(q * new_size <= b && q <= b) by (nonlinear_arith)
            requires
                new_size > 0,
                q == b / new_size,
        ;
    }
}

/// What a buffer is, as far as its users can tell: the context it lives in,
/// what it was created for, and how many elements of which size it holds.
pub struct BufferInfo {
    pub context: Context,
    pub ty: BufferType,
    pub mode: BufferMode,
    pub elements_size: nat,
    pub elements_count: nat,
}

/// A buffer is well formed for elements of type `T` when its elements have the
/// size of `T` and its size in bytes fits what the backend accepts.
pub open spec fn buffer_info_valid<T>(info: BufferInfo) -> bool {
    &&& info.elements_size == size_of::<T>()
    &&& fits_in_buffer(info.elements_count as int, info.elements_size as int)
}

/// The description of a buffer whose bytes are read as elements of `size`
/// bytes.
pub open spec fn regrouped(info: BufferInfo, size: nat) -> BufferInfo {
    BufferInfo {
        elements_size: size,
        elements_count: regroup(info.elements_count, info.elements_size, size),
        ..info
    }
}

/// Reading bytes as elements of another size: the same size keeps the
/// count; size zero gives no element; any other size gives the number of
/// whole elements that the bytes hold, with fewer bytes left over than one
/// element.
pub proof fn law_regroup_counts_whole_elements(count: nat, size: nat, new_size: nat)
    ensures
        new_size == size ==> regroup(count, size, new_size) == count,
        new_size == 0 && size != 0 ==> regroup(count, size, new_size) == 0,
        new_size > 0 && new_size != size ==> regroup(count, size, new_size) * new_size <= count
            * size < (regroup(count, size, new_size) + 1) * new_size,
        regroups_exactly(count, size, new_size) && new_size > 0 ==> regroup(count, size, new_size)
            * new_size == count * size,
{
    if new_size > 0 && new_size != size {
        let b: nat = count * size;
        let q: nat = regroup(count, size, new_size);
        assert(q * new_size <= b < (q + 1) * new_size) by (nonlinear_arith)
            requires
                new_size > 0,
                q == b / new_size,
        ;
        if regroups_exactly(count, size, new_size) {
            assert(q * new_size == b) by (nonlinear_arith)
                requires
                    new_size > 0,
                    q == b / new_size,
                    b % new_size == 0,
            ;
        }
    }
}

/// Reading a buffer's bytes as elements of another size changes only the
/// element size and the count.
pub proof fn law_regrouped_keeps_the_rest(info: BufferInfo, size: nat)
    ensures
        regrouped(info, size).elements_size == size,
        regrouped(info, size).elements_count == regroup(info.elements_count, info.elements_size, size),
        regrouped(info, size).context == info.context,
        regrouped(info, size).ty == info.ty,
        regrouped(info, size).mode == info.mode,
{
}

/// Creating a buffer of `count` elements of type `T` succeeds exactly when
/// its size in bytes is at most `isize::MAX`, and then gives a buffer of
/// that many elements of the size of `T`, with the context, type and mode
/// asked for; otherwise it fails with `OutOfMemory`.
pub proof fn law_buffer_creation<T>(
    context: Context,
    ty: BufferType,
    mode: BufferMode,
    count: nat,
    r: Result<BufferInfo, BufferCreationError>,
)
    requires
        buffer_creation_result::<T>(context, ty, mode, count, r),
    ensures
        r is Ok <==> count * size_of::<T>() <= isize::MAX,
        r matches Ok(b) ==> b.context == context && b.ty == ty && b.mode == mode
            && b.elements_count == count && b.elements_size == size_of::<T>(),
        r matches Err(e) ==> e == BufferCreationError::OutOfMemory,
{
}

/// The outcome of creating a buffer of `count` elements of type `T`.
pub open spec fn buffer_creation_result<T>(
    context: Context,
    ty: BufferType,
    mode: BufferMode,
    count: nat,
    r: Result<BufferInfo, BufferCreationError>,
) -> bool {
    if fits_in_buffer(count as int, size_of::<T>() as int) {
        r == Ok::<BufferInfo, BufferCreationError>(
            BufferInfo { context, ty, mode, elements_size: size_of::<T>(), elements_count: count },
        )
    } else {
        r == Err::<BufferInfo, BufferCreationError>(BufferCreationError::OutOfMemory)
    }
}

/// The view of a creation result: the buffer's information or the error.
pub open spec fn buffer_result_view<T>(r: Result<Buffer<T>, BufferCreationError>) -> Result<
    BufferInfo,
    BufferCreationError,
> {
    match r {
        Ok(b) => Ok(b@),
        Err(e) => Err(e),
    }
}

/// The description of a buffer of elements of type `T`: the context it was
/// created in, what for, and how many elements of which size it holds. The
/// bytes themselves are not held here; the data a buffer was filled with when
/// it was created is recorded as a ghost value.
pub struct Buffer<T> {
    context: Context,
    ty: BufferType,
    mode: BufferMode,
    elements_size: usize,
    elements_count: usize,
    uploaded: Ghost<Option<Seq<T>>>,
}

impl<T> View for Buffer<T> {
    type V = BufferInfo;

    closed spec fn view(&self) -> BufferInfo {
        BufferInfo {
            context: self.context,
            ty: self.ty,
            mode: self.mode,
            elements_size: self.elements_size as nat,
            elements_count: self.elements_count as nat,
        }
    }
}

impl<T> Buffer<T> {
    #[verifier::type_invariant]
    closed spec fn inv(self) -> bool {
        &&& buffer_info_valid::<T>(self@)
        &&& self.uploaded@ matches Some(d) ==> d.len() == self.elements_count
    }

    /// The data the buffer is known to hold since it was created from it, or
    /// `None` when no such record is kept: the buffer was created without
    /// data, or got its element type back after it was forgotten (a buffer
    /// without an element type has no record of its data).
    pub closed spec fn uploaded(&self) -> Option<Seq<T>> {
        self.uploaded@
    }

    /// Checks that `count` elements of type `T` fit in one buffer and builds it.
    fn allocate(context: &Context, ty: BufferType, count: usize, mode: BufferMode) -> (r: Result<
        Buffer<T>,
        BufferCreationError,
    >)
        ensures
            buffer_creation_result::<T>(*context, ty, mode, count as nat, buffer_result_view(r)),
            r matches Ok(b) ==> b.uploaded() is None,
    {
        let size: usize = core::mem::size_of::<T>();
        match count.checked_mul(size) {
            Some(bytes) => {
                if bytes <= isize::MAX as usize {
                    Ok(
                        Buffer {
                            context: *context,
                            ty,
                            mode,
                            elements_size: size,
                            elements_count: count,
                            uploaded: Ghost(None),
                        },
                    )
                } else {
                    Err(BufferCreationError::OutOfMemory)
                }
            },
            None => {
                assert(count * size > isize::MAX);
                Err(BufferCreationError::OutOfMemory)
            },
        }
    }

    /// Builds a buffer that holds a copy of `data`.
    ///
    /// Fails with `OutOfMemory` when the size of `data` in bytes is more than
    /// the backend accepts.
    pub fn new(context: &Context, data: &[T], ty: BufferType, mode: BufferMode) -> (r: Result<
        Buffer<T>,
        BufferCreationError,
    >)
        ensures
            buffer_creation_result::<T>(*context, ty, mode, data@.len(), buffer_result_view(r)),
            r matches Ok(b) ==> b.uploaded() == Some(data@),
    {
        match Self::allocate(context, ty, data.len(), mode) {
            Ok(mut buffer) => {
                buffer.uploaded = Ghost(Some(data@));
                Ok(buffer)
            },
            Err(error) => Err(error),
        }
    }

    /// Builds a buffer of `elements` elements whose contents are not
    /// initialized.
    ///
    /// Fails with `OutOfMemory` when `elements` elements of type `T` take more
    /// bytes than the backend accepts.
    pub fn empty_array(context: &Context, ty: BufferType, elements: usize, mode: BufferMode) -> (r:
        Result<Buffer<T>, BufferCreationError>)
        ensures
            buffer_creation_result::<T>(*context, ty, mode, elements as nat, buffer_result_view(r)),
            r matches Ok(b) ==> b.uploaded() is None,
    {
        Self::allocate(context, ty, elements, mode)
    }

    /// The number of elements in the buffer.
    pub fn len(&self) -> (r: usize)
        ensures
            r == self@.elements_count,
    {
        self.elements_count
    }

    /// The number of bytes of one element.
    pub fn get_elements_size(&self) -> (r: usize)
        ensures
            r == self@.elements_size,
            r == size_of::<T>(),
    {
        proof {
            use_type_invariant(self);
        }
        self.elements_size
    }

    /// The context the buffer lives in.
    pub fn get_context(&self) -> (r: &Context)
        ensures
            *r == self@.context,
    {
        &self.context
    }

    /// The type the buffer was created for.
    pub fn get_type(&self) -> (r: BufferType)
        ensures
            r == self@.ty,
    {
        self.ty
    }

    /// The mode the buffer was created with.
    pub fn get_mode(&self) -> (r: BufferMode)
        ensures
            r == self@.mode,
    {
        self.mode
    }

    /// Accesses the elements `range.start .. range.end` of the buffer.
    ///
    /// Returns `None` if the range is reversed or goes past the end.
    pub fn slice(&self, range: Range<usize>) -> (r: Option<BufferSlice<'_, T>>)
        ensures
            r is Some <==> range.start <= range.end <= self@.elements_count,
            r matches Some(s) ==> s@ == (BufferSliceInfo {
                buffer: self@,
                offset: range.start as nat,
                len: (range.end - range.start) as nat,
            }) && s.uploaded() == uploaded_range(
                self.uploaded(),
                range.start as int,
                range.end as int,
            ),
    {
        if range.start > range.end || range.end > self.elements_count {
            return None;
        }
        Some(BufferSlice { buffer: self, offset: range.start, len: range.end - range.start })
    }

    /// Describes the whole buffer without its element type.
    pub fn as_slice_any(&self) -> (r: BufferAnySlice)
        ensures
            r == whole_slice_any(self@),
    {
        BufferAnySlice {
            context: self.context,
            elements_size: self.elements_size,
            offset: 0,
            len: self.elements_count,
        }
    }

    /// The number of elements of `elements_size` bytes that the bytes of the
    /// buffer hold.
    pub fn len_as(&self, elements_size: usize) -> (r: usize)
        ensures
            r == regroup(self@.elements_count, self@.elements_size, elements_size as nat),
    {
        proof {
            use_type_invariant(self);
        }
        regroup_count(self.elements_count, self.elements_size, elements_size)
    }

    /// Forgets the type of the elements of the buffer, and reads its bytes as
    /// elements of `elements_size` bytes.
    pub fn into_any_as(self, elements_size: usize) -> (r: BufferAny)
        ensures
            r == buffer_any_as(self, elements_size),
            r@ == regrouped(self@, elements_size as nat),
    {
        proof {
            use_type_invariant(&self);
            lemma_regroup_fits(self@.elements_count, self@.elements_size, elements_size as nat);
        }
        BufferAny {
            context: self.context,
            ty: self.ty,
            mode: self.mode,
            elements_size,
            elements_count: regroup_count(self.elements_count, self.elements_size, elements_size),
        }
    }
}

/// What a slice of a buffer is: the buffer, the index of its first element and
/// its number of elements.
pub struct BufferSliceInfo {
    pub buffer: BufferInfo,
    pub offset: nat,
    pub len: nat,
}

/// A part of a buffer: the elements `offset .. offset + len`.
pub struct BufferSlice<'a, T> {
    buffer: &'a Buffer<T>,
    offset: usize,
    len: usize,
}

impl<'a, T> View for BufferSlice<'a, T> {
    type V = BufferSliceInfo;

    closed spec fn view(&self) -> BufferSliceInfo {
        BufferSliceInfo { buffer: self.buffer@, offset: self.offset as nat, len: self.len as nat }
    }
}

/// The part `start .. end` of the data a buffer was filled with, if it was.
pub open spec fn uploaded_range<T>(uploaded: Option<Seq<T>>, start: int, end: int) -> Option<
    Seq<T>,
> {
    match uploaded {
        Some(d) => Some(d.subrange(start, end)),
        None => None,
    }
}

impl<'a, T> BufferSlice<'a, T> {
    #[verifier::type_invariant]
    closed spec fn inv(self) -> bool {
        self.offset + self.len <= self.buffer@.elements_count
    }

    /// The part of the data the buffer was filled with that this slice
    /// covers, or `None` when the buffer was created without data.
    pub closed spec fn uploaded(&self) -> Option<Seq<T>> {
        uploaded_range(self.buffer.uploaded(), self.offset as int, (self.offset + self.len) as int)
    }

    /// The number of elements in the slice.
    pub fn len(&self) -> (r: usize)
        ensures
            r == self@.len,
    {
        self.len
    }

    /// The index in the buffer of the first element of the slice.
    pub fn get_offset(&self) -> (r: usize)
        ensures
            r == self@.offset,
    {
        self.offset
    }

    /// The context the buffer lives in.
    pub fn get_context(&self) -> (r: &Context)
        ensures
            *r == self@.buffer.context,
    {
        self.buffer.get_context()
    }

    /// Describes the slice without its element type.
    pub fn as_slice_any(&self) -> (r: BufferAnySlice)
        ensures
            r == slice_any_of(self@),
            r.offset + r.len <= self@.buffer.elements_count,
    {
        proof {
            use_type_invariant(self);
        }
        BufferAnySlice {
            context: self.buffer.context,
            elements_size: self.buffer.elements_size,
            offset: self.offset,
            len: self.len,
        }
    }
}

/// A part of a buffer whose element type is not known: the context it lives
/// in, the size of its elements, the index of its first element and its number
/// of elements.
#[derive(Debug, Copy, Clone, PartialEq, Eq, Structural)]
pub struct BufferAnySlice {
    pub context: Context,
    pub elements_size: usize,
    pub offset: usize,
    pub len: usize,
}

/// The untyped description of a slice of a buffer has the slice's own
/// offset and length, the element size of the buffer and its context.
pub proof fn law_slice_any_describes_the_slice(s: BufferSliceInfo)
    requires
        s.offset + s.len <= usize::MAX,
        s.buffer.elements_size <= usize::MAX,
    ensures
        slice_any_of(s).offset == s.offset,
        slice_any_of(s).len == s.len,
        slice_any_of(s).elements_size == s.buffer.elements_size,
        slice_any_of(s).context == s.buffer.context,
{
}

/// The untyped description of a whole buffer starts at its first element
/// and covers all its elements.
pub proof fn law_whole_slice_any_covers_the_buffer(info: BufferInfo)
    requires
        info.elements_count <= usize::MAX,
        info.elements_size <= usize::MAX,
    ensures
        whole_slice_any(info).offset == 0,
        whole_slice_any(info).len == info.elements_count,
        whole_slice_any(info).elements_size == info.elements_size,
        whole_slice_any(info).context == info.context,
{
}

/// The part `start .. end` of recorded data holds the values `start` to
/// `end - 1` of the data, in order; nothing is recorded of a buffer that
/// records nothing.
pub proof fn law_uploaded_range_is_the_part<T>(d: Seq<T>, start: int, end: int)
    requires
        0 <= start <= end <= d.len(),
    ensures
        uploaded_range(Some(d), start, end) is Some,
        uploaded_range(Some(d), start, end)->Some_0.len() == end - start,
        forall|i: int|
            0 <= i < end - start ==> #[trigger] uploaded_range(Some(d), start, end)->Some_0[i]
                == d[start + i],
        uploaded_range(None::<Seq<T>>, start, end) is None,
{
}

/// The untyped description of a whole buffer.
pub open spec fn whole_slice_any(info: BufferInfo) -> BufferAnySlice {
    BufferAnySlice {
        context: info.context,
        elements_size: info.elements_size as usize,
        offset: 0,
        len: info.elements_count as usize,
    }
}

/// The untyped description of a slice of a buffer.
pub open spec fn slice_any_of(s: BufferSliceInfo) -> BufferAnySlice {
    BufferAnySlice {
        context: s.buffer.context,
        elements_size: s.buffer.elements_size as usize,
        offset: s.offset as usize,
        len: s.len as usize,
    }
}

/// The buffer `b` once the type of its elements is forgotten and its bytes
/// are read as elements of `elements_size` bytes.
pub closed spec fn buffer_any_as<T>(b: Buffer<T>, elements_size: usize) -> BufferAny {
    BufferAny {
        context: b.context,
        ty: b.ty,
        mode: b.mode,
        elements_size,
        elements_count: regroup(b@.elements_count, b@.elements_size, elements_size as nat) as usize,
    }
}

/// Reading the bytes of a buffer whose size fits the backend as elements of
/// another size keeps everything else.
pub proof fn lemma_buffer_any_as_view<T>(b: Buffer<T>, elements_size: usize)
    requires
        fits_in_buffer(b@.elements_count as int, b@.elements_size as int),
    ensures
        #[trigger] buffer_any_as(b, elements_size)@ == regrouped(b@, elements_size as nat),
{
    lemma_regroup_fits(b@.elements_count, b@.elements_size, elements_size as nat);
}

/// A buffer whose element type is not known.
pub struct BufferAny {
    context: Context,
    ty: BufferType,
    mode: BufferMode,
    elements_size: usize,
    elements_count: usize,
}

impl View for BufferAny {
    type V = BufferInfo;

    closed spec fn view(&self) -> BufferInfo {
        BufferInfo {
            context: self.context,
            ty: self.ty,
            mode: self.mode,
            elements_size: self.elements_size as nat,
            elements_count: self.elements_count as nat,
        }
    }
}

impl BufferAny {
    #[verifier::type_invariant]
    closed spec fn inv(self) -> bool {
        fits_in_buffer(self.elements_count as int, self.elements_size as int)
    }

    /// The number of bytes between two consecutive elements.
    pub fn get_elements_size(&self) -> (r: usize)
        ensures
            r == self@.elements_size,
    {
        self.elements_size
    }

    /// The number of elements in the buffer.
    pub fn get_elements_count(&self) -> (r: usize)
        ensures
            r == self@.elements_count,
    {
        self.elements_count
    }

    /// The context the buffer lives in.
    pub fn get_context(&self) -> (r: &Context)
        ensures
            *r == self@.context,
    {
        &self.context
    }

    /// Describes the whole buffer.
    pub fn as_slice_any(&self) -> (r: BufferAnySlice)
        ensures
            r == whole_slice_any(self@),
    {
        BufferAnySlice {
            context: self.context,
            elements_size: self.elements_size,
            offset: 0,
            len: self.elements_count,
        }
    }

    /// Gives the buffer an element type again: its bytes are read as
    /// elements of type `T`.
    pub fn into_typed<T>(self) -> (r: Buffer<T>)
        ensures
            r@ == regrouped(self@, size_of::<T>()),
            r.uploaded() is None,
    {
        proof {
            use_type_invariant(&self);
            lemma_regroup_fits(self@.elements_count, self@.elements_size, size_of::<T>());
        }
        let size: usize = core::mem::size_of::<T>();
        Buffer {
            context: self.context,
            ty: self.ty,
            mode: self.mode,
            elements_size: size,
            elements_count: regroup_count(self.elements_count, self.elements_size, size),
            uploaded: Ghost(None),
        }
    }
}

} // verus!
