use lib::buffer::{Buffer, BufferAnySlice, BufferCreationError, BufferMode, BufferType};
use lib::context::{Context, ExtensionsList};
use lib::version::{Api, Version};
use lib::vertex::buffer::{CreationError, VertexBuffer, VertexBufferAny};
use lib::vertex::format::{AttributeType, VertexFormat};
use lib::vertex::{IntoVerticesSource, Vertex, VerticesSource};

#[derive(Copy, Clone, Debug)]
struct Vertex2d {
    position: [f32; 2],
    texcoords: [f32; 2],
}

impl Vertex for Vertex2d {
    fn build_bindings() -> VertexFormat {
        vec![
            ("position".to_string(), 0, AttributeType::F32F32),
            ("texcoords".to_string(), 8, AttributeType::F32F32),
        ]
    }
}

#[derive(Copy, Clone, Debug)]
struct PreciseVertex {
    position: [f64; 3],
}

impl Vertex for PreciseVertex {
    fn build_bindings() -> VertexFormat {
        vec![("position".to_string(), 0, AttributeType::F64F64F64)]
    }
}

#[derive(Copy, Clone, Debug)]
struct IdVertex {
    id: u64,
}

impl Vertex for IdVertex {
    fn build_bindings() -> VertexFormat {
        vec![("id".to_string(), 0, AttributeType::U64)]
    }
}

fn no_extensions() -> ExtensionsList {
    ExtensionsList {
        gl_arb_instanced_arrays: false,
        gl_arb_vertex_attrib_64bit: false,
        gl_nv_vertex_attrib_integer_64bit: false,
    }
}

fn gl(major: u8, minor: u8) -> Context {
    context(Version(Api::Gl, major, minor), no_extensions())
}

fn gles(major: u8, minor: u8) -> Context {
    context(Version(Api::GlEs, major, minor), no_extensions())
}

fn quad() -> Vec<Vertex2d> {
    vec![
        Vertex2d { position: [0.0, 0.0], texcoords: [0.0, 1.0] },
        Vertex2d { position: [5.0, -3.0], texcoords: [1.0, 0.0] },
        Vertex2d { position: [1.0, 1.0], texcoords: [1.0, 1.0] },
        Vertex2d { position: [-1.0, 2.0], texcoords: [0.0, 0.0] },
    ]
}

fn names(format: &VertexFormat) -> Vec<String> {
    format.iter().map(|(name, _, _)| name.clone()).collect()
}

#[test]
fn new_holds_the_vertices_and_their_bindings() {
    let ctx = gl(3, 3);
    let data = quad();
    let vb = VertexBuffer::new(&ctx, &data).unwrap();
    assert_eq!(vb.len(), 4);
    assert_eq!(vb.get_elements_size(), std::mem::size_of::<Vertex2d>());
    assert_eq!(vb.get_elements_size(), 16);
    assert_eq!(vb.get_mode(), BufferMode::Default);
    assert_eq!(vb.get_type(), BufferType::ArrayBuffer);
    assert_eq!(*vb.get_context(), ctx);
    assert_eq!(names(vb.get_bindings()), vec!["position".to_string(), "texcoords".to_string()]);
    assert_eq!(vb.get_bindings()[1].1, 8);
    assert_eq!(vb.get_bindings()[1].2, AttributeType::F32F32);
}

#[test]
fn each_constructor_sets_its_mode() {
    let ctx = gl(3, 3);
    let data = quad();
    assert_eq!(VertexBuffer::dynamic(&ctx, &data).unwrap().get_mode(), BufferMode::Dynamic);
    assert_eq!(VertexBuffer::persistent(&ctx, &data).unwrap().get_mode(), BufferMode::Persistent);
    assert_eq!(VertexBuffer::immutable(&ctx, &data).unwrap().get_mode(), BufferMode::Immutable);
    assert_eq!(VertexBuffer::<Vertex2d>::empty(&ctx, 3).unwrap().get_mode(), BufferMode::Default);
    assert_eq!(
        VertexBuffer::<Vertex2d>::empty_dynamic(&ctx, 3).unwrap().get_mode(),
        BufferMode::Dynamic
    );
    assert_eq!(
        VertexBuffer::<Vertex2d>::empty_persistent(&ctx, 3).unwrap().get_mode(),
        BufferMode::Persistent
    );
    assert_eq!(
        VertexBuffer::<Vertex2d>::empty_immutable(&ctx, 3).unwrap().get_mode(),
        BufferMode::Immutable
    );
}

#[test]
fn empty_buffer_has_the_requested_length() {
    let ctx = gl(2, 1);
    let vb = VertexBuffer::<Vertex2d>::empty(&ctx, 17).unwrap();
    assert_eq!(vb.len(), 17);
    assert_eq!(vb.get_type(), BufferType::ArrayBuffer);
    let none = VertexBuffer::<Vertex2d>::empty(&ctx, 0).unwrap();
    assert_eq!(none.len(), 0);
}

#[test]
fn empty_buffer_too_large_is_out_of_memory() {
    let ctx = gl(3, 3);
    let r = VertexBuffer::<Vertex2d>::empty(&ctx, usize::MAX / 2);
    assert!(matches!(
        r,
        Err(CreationError::BufferCreationError(BufferCreationError::OutOfMemory))
    ));
    let largest = (isize::MAX as usize) / 16;
    assert!(VertexBuffer::<Vertex2d>::empty_dynamic(&ctx, largest).is_ok());
    assert!(matches!(
        VertexBuffer::<Vertex2d>::empty_dynamic(&ctx, largest + 1),
        Err(CreationError::BufferCreationError(BufferCreationError::OutOfMemory))
    ));
}

#[test]
fn double_precision_needs_gl_4_1_or_extension() {
    let data = vec![PreciseVertex { position: [1.0, 2.0, 3.0] }];
    assert!(matches!(
        VertexBuffer::new(&gl(4, 0), &data),
        Err(CreationError::FormatNotSupported)
    ));
    assert!(VertexBuffer::new(&gl(4, 1), &data).is_ok());
    assert!(VertexBuffer::new(&gl(4, 5), &data).is_ok());
    assert!(matches!(
        VertexBuffer::new(&gles(3, 2), &data),
        Err(CreationError::FormatNotSupported)
    ));
    let mut ext = no_extensions();
    ext.gl_arb_vertex_attrib_64bit = true;
    assert!(VertexBuffer::new(&context(Version(Api::Gl, 3, 0), ext), &data).is_ok());
    assert!(matches!(
        VertexBuffer::<PreciseVertex>::empty(&gl(3, 3), 5),
        Err(CreationError::FormatNotSupported)
    ));
}

#[test]
fn integer_64bit_needs_its_extension() {
    let data = vec![IdVertex { id: 7 }];
    assert!(matches!(
        VertexBuffer::dynamic(&gl(4, 6), &data),
        Err(CreationError::FormatNotSupported)
    ));
    let mut ext = no_extensions();
    ext.gl_nv_vertex_attrib_integer_64bit = true;
    let vb = VertexBuffer::dynamic(&context(Version(Api::Gl, 4, 6), ext), &data).unwrap();
    assert_eq!(vb.len(), 1);
}

#[test]
fn unsupported_format_is_reported_before_size() {
    let r = VertexBuffer::<PreciseVertex>::empty(&gl(3, 3), usize::MAX);
    assert!(matches!(r, Err(CreationError::FormatNotSupported)));
}

#[test]
fn new_raw_keeps_the_given_bindings_unchecked() {
    let ctx = gl(2, 0);
    let data: Vec<f32> = vec![1.0, -0.3, 409.0, -0.4, 2.8, 715.0];
    let bindings: VertexFormat = vec![
        ("position".to_string(), 0, AttributeType::F32F32),
        ("color".to_string(), 8, AttributeType::F64),
    ];
    let vb = VertexBuffer::new_raw(&ctx, &data, bindings, 12).unwrap();
    assert_eq!(vb.len(), 6);
    assert_eq!(vb.get_elements_size(), 4);
    assert_eq!(vb.get_mode(), BufferMode::Default);
    assert_eq!(names(vb.get_bindings()), vec!["position".to_string(), "color".to_string()]);
    let dynamic = VertexBuffer::new_raw_dynamic(&ctx, &data, Vec::new(), 12).unwrap();
    assert_eq!(dynamic.get_mode(), BufferMode::Dynamic);
    assert_eq!(dynamic.get_bindings().len(), 0);
}

#[test]
fn new_raw_reads_the_data_as_vertices_of_the_given_size() {
    let ctx = gl(3, 3);
    let data: Vec<f32> = vec![1.0, -0.3, 409.0, -0.4, 2.8, 715.0];
    let bindings: VertexFormat = vec![
        ("position".to_string(), 0, AttributeType::F32F32),
        ("color".to_string(), 2 * std::mem::size_of::<f32>(), AttributeType::F32),
    ];
    let vb = VertexBuffer::new_raw(&ctx, &data, bindings, 3 * std::mem::size_of::<f32>()).unwrap();
    assert_eq!(
        vb.per_instance().unwrap().0,
        BufferAnySlice { context: ctx, elements_size: 12, offset: 0, len: 2 }
    );
    match (&vb).into_vertices_source() {
        VerticesSource::VertexBuffer(s, _, per_instance) => {
            assert_eq!((s.elements_size, s.len), (12, 2));
            assert!(!per_instance);
        }
        VerticesSource::Marker { .. } => panic!("a vertex buffer is not a marker"),
    }
    let any = vb.into_vertex_buffer_any();
    assert_eq!(any.get_elements_size(), 12);
    assert_eq!(any.len(), 2);
    let back: VertexBuffer<f32> = any.into_vertex_buffer();
    assert_eq!(back.len(), 6);
    assert_eq!(back.get_elements_size(), 4);
    let again = back.into_vertex_buffer_any();
    assert_eq!((again.get_elements_size(), again.len()), (12, 2));
    let dynamic = VertexBuffer::new_raw_dynamic(&ctx, &data, Vec::new(), 8).unwrap();
    let any = dynamic.into_vertex_buffer_any();
    assert_eq!((any.get_elements_size(), any.len()), (8, 3));
}

#[test]
fn new_raw_accepts_any_vertex_size() {
    let ctx = gl(3, 3);
    let data: Vec<f32> = vec![1.0, 2.0, 3.0, 4.0, 5.0, 6.0];
    let uneven = VertexBuffer::new_raw(&ctx, &data, Vec::new(), 5).unwrap();
    assert_eq!(uneven.len(), 6);
    assert_eq!(
        uneven.per_instance().unwrap().0,
        BufferAnySlice { context: ctx, elements_size: 5, offset: 0, len: 4 }
    );
    let any = uneven.into_vertex_buffer_any();
    assert_eq!((any.get_elements_size(), any.len()), (5, 4));
    let zero = VertexBuffer::new_raw_dynamic(&ctx, &data, Vec::new(), 0).unwrap();
    assert_eq!(zero.get_mode(), BufferMode::Dynamic);
    let any = zero.into_vertex_buffer_any();
    assert_eq!((any.get_elements_size(), any.len()), (0, 0));
}

#[test]
fn slice_of_a_raw_buffer_counts_values() {
    let ctx = gl(3, 3);
    let data: Vec<u8> = vec![1, 2, 3, 4, 5, 6];
    let vb = VertexBuffer::new_raw(&ctx, &data, Vec::new(), 3).unwrap();
    assert_eq!(vb.per_instance().unwrap().0.len, 2);
    let s = vb.slice(0..6).unwrap();
    assert_eq!(
        s.per_instance().unwrap().0,
        BufferAnySlice { context: ctx, elements_size: 1, offset: 0, len: 6 }
    );
}

#[test]
fn slice_within_range() {
    let ctx = gl(3, 3);
    let data = quad();
    let vb = VertexBuffer::new(&ctx, &data).unwrap();
    let s = vb.slice(1..3).unwrap();
    assert_eq!(s.len(), 2);
    assert_eq!(s.get_offset(), 1);
    let end = vb.slice(4..4).unwrap();
    assert_eq!(end.len(), 0);
    assert_eq!(end.get_offset(), 4);
    let all = vb.slice(0..4).unwrap();
    assert_eq!(all.len(), 4);
}

#[test]
fn slice_out_of_range_is_none() {
    let ctx = gl(3, 3);
    let data = quad();
    let vb = VertexBuffer::new(&ctx, &data).unwrap();
    assert!(vb.slice(0..5).is_none());
    assert!(vb.slice(5..5).is_none());
    let (start, end) = (3, 1);
    assert!(vb.slice(start..end).is_none());
}

#[test]
fn per_instance_on_gl_3_3() {
    let ctx = gl(3, 3);
    let data = quad();
    let vb = VertexBuffer::new(&ctx, &data).unwrap();
    let p = vb.per_instance().unwrap();
    assert_eq!(p.0, BufferAnySlice { context: ctx, elements_size: 16, offset: 0, len: 4 });
    assert_eq!(names(p.1), vec!["position".to_string(), "texcoords".to_string()]);
}

#[test]
fn per_instance_refused_without_support() {
    let data = quad();
    let old = VertexBuffer::new(&gl(3, 2), &data).unwrap();
    assert!(old.per_instance().is_err());
    let es = VertexBuffer::new(&gles(3, 2), &data).unwrap();
    assert!(es.per_instance().is_err());
    let mut ext = no_extensions();
    ext.gl_arb_instanced_arrays = true;
    let with_ext = VertexBuffer::new(&context(Version(Api::Gl, 2, 1), ext), &data).unwrap();
    assert!(with_ext.per_instance().is_ok());
    let es_ext = VertexBuffer::new(&context(Version(Api::GlEs, 2, 0), ext), &data).unwrap();
    assert!(es_ext.per_instance().is_ok());
    assert!(VertexBuffer::new(&gl(4, 0), &data).unwrap().per_instance().is_ok());
}

#[test]
fn per_instance_of_a_slice_covers_the_slice() {
    let ctx = gl(4, 5);
    let data = quad();
    let vb = VertexBuffer::new(&ctx, &data).unwrap();
    let s = vb.slice(1..4).unwrap();
    let p = s.per_instance().unwrap();
    assert_eq!(p.0, BufferAnySlice { context: ctx, elements_size: 16, offset: 1, len: 3 });
    assert_eq!(p.1.len(), 2);
    let old = VertexBuffer::new(&gl(3, 0), &data).unwrap();
    assert!(old.slice(0..2).unwrap().per_instance().is_err());
}

#[test]
fn full_slice_draws_like_the_buffer() {
    let ctx = gl(3, 3);
    let data = quad();
    let vb = VertexBuffer::new(&ctx, &data).unwrap();
    let whole = vb.per_instance().unwrap().0;
    let full = vb.slice(0..vb.len()).unwrap().per_instance().unwrap().0;
    assert_eq!(whole, full);
}

#[test]
fn into_vertex_buffer_any_keeps_everything() {
    let ctx = gl(3, 3);
    let data = quad();
    let vb = VertexBuffer::dynamic(&ctx, &data).unwrap();
    let any = vb.into_vertex_buffer_any();
    assert_eq!(any.len(), 4);
    assert_eq!(any.get_elements_size(), 16);
    assert_eq!(names(any.get_bindings()), vec!["position".to_string(), "texcoords".to_string()]);
    assert_eq!(
        any.per_instance().unwrap().0,
        BufferAnySlice { context: ctx, elements_size: 16, offset: 0, len: 4 }
    );
    let back: VertexBuffer<Vertex2d> = any.into_vertex_buffer();
    assert_eq!(back.len(), 4);
    assert_eq!(back.get_mode(), BufferMode::Dynamic);
    assert_eq!(back.get_bindings().len(), 2);
}

#[test]
fn from_and_into_vertex_buffer_any_agree() {
    let ctx = gl(3, 3);
    let data = quad();
    let a: VertexBufferAny = VertexBuffer::new(&ctx, &data).unwrap().into();
    let b = VertexBuffer::new(&ctx, &data).unwrap().into_vertex_buffer_any();
    assert_eq!(a.len(), b.len());
    assert_eq!(a.get_elements_size(), b.get_elements_size());
    assert_eq!(names(a.get_bindings()), names(b.get_bindings()));
    assert_eq!(a.per_instance().unwrap().0, b.per_instance().unwrap().0);
}

#[test]
fn vertex_buffer_any_per_instance_refused_on_old_context() {
    let data = quad();
    let any = VertexBuffer::new(&gl(3, 1), &data).unwrap().into_vertex_buffer_any();
    assert!(any.per_instance().is_err());
}

#[test]
fn from_buffer_uses_the_vertex_bindings() {
    let ctx = gl(3, 3);
    let data = quad();
    let buffer = Buffer::new(&ctx, &data, BufferType::ArrayBuffer, BufferMode::Immutable).unwrap();
    let vb = VertexBuffer::from_buffer(buffer);
    assert_eq!(vb.len(), 4);
    assert_eq!(vb.get_mode(), BufferMode::Immutable);
    assert_eq!(names(vb.get_bindings()), vec!["position".to_string(), "texcoords".to_string()]);
    let buffer = Buffer::<Vertex2d>::empty_array(&ctx, BufferType::ArrayBuffer, 9, BufferMode::Default)
        .unwrap();
    let any = VertexBufferAny::from_buffer(buffer);
    assert_eq!(any.len(), 9);
    assert_eq!(any.get_elements_size(), 16);
    assert_eq!(any.get_bindings().len(), 2);
}

#[test]
fn vertices_source_of_buffers_is_per_vertex() {
    let ctx = gl(3, 3);
    let data = quad();
    let vb = VertexBuffer::new(&ctx, &data).unwrap();
    match (&vb).into_vertices_source() {
        VerticesSource::VertexBuffer(s, f, per_instance) => {
            assert_eq!(s, BufferAnySlice { context: ctx, elements_size: 16, offset: 0, len: 4 });
            assert_eq!(f.len(), 2);
            assert!(!per_instance);
        }
        VerticesSource::Marker { .. } => panic!("a vertex buffer is not a marker"),
    }
    match vb.slice(2..3).unwrap().into_vertices_source() {
        VerticesSource::VertexBuffer(s, _, per_instance) => {
            assert_eq!(s.offset, 2);
            assert_eq!(s.len, 1);
            assert!(!per_instance);
        }
        VerticesSource::Marker { .. } => panic!("a vertex buffer slice is not a marker"),
    }
    match vb.per_instance().unwrap().into_vertices_source() {
        VerticesSource::VertexBuffer(s, _, per_instance) => {
            assert_eq!(s.len, 4);
            assert!(per_instance);
        }
        VerticesSource::Marker { .. } => panic!("instancing is not a marker"),
    }
    let any = vb.into_vertex_buffer_any();
    match (&any).into_vertices_source() {
        VerticesSource::VertexBuffer(s, _, per_instance) => {
            assert_eq!(s.len, 4);
            assert!(!per_instance);
        }
        VerticesSource::Marker { .. } => panic!("a vertex buffer is not a marker"),
    }
}

#[test]
fn deref_reaches_the_buffer() {
    let ctx = gl(3, 3);
    let data = quad();
    let mut vb = VertexBuffer::new(&ctx, &data).unwrap();
    let buffer: &Buffer<Vertex2d> = &vb;
    assert_eq!(buffer.len(), 4);
    let buffer_mut: &mut Buffer<Vertex2d> = &mut vb;
    assert_eq!(buffer_mut.get_mode(), BufferMode::Default);
    let mut s = vb.slice(1..2).unwrap();
    assert_eq!(s.get_offset(), 1);
    let inner: &mut lib::buffer::BufferSlice<'_, Vertex2d> = &mut s;
    assert_eq!(inner.len(), 1);
}

#[test]
fn creation_error_from_buffer_error() {
    let e: CreationError = BufferCreationError::OutOfMemory.into();
    assert!(matches!(e, CreationError::BufferCreationError(BufferCreationError::OutOfMemory)));
    let e = CreationError::from(BufferCreationError::BufferTypeNotSupported);
    assert!(matches!(
        e,
        CreationError::BufferCreationError(BufferCreationError::BufferTypeNotSupported)
    ));
}

#[test]
fn creation_error_texts() {
    let format = CreationError::FormatNotSupported;
    assert_eq!(format.description(), "The vertex format is not supported by the backend");
    assert_eq!(format.to_string(), "The vertex format is not supported by the backend");
    assert!(format.cause().is_none());
    let oom = CreationError::BufferCreationError(BufferCreationError::OutOfMemory);
    assert_eq!(oom.description(), "Error while creating the vertex buffer");
    assert_eq!(oom.to_string(), "Not enough memory to create the buffer");
    assert_eq!(oom.cause(), Some(BufferCreationError::OutOfMemory));
    let ty = CreationError::BufferCreationError(BufferCreationError::BufferTypeNotSupported);
    assert_eq!(ty.to_string(), "This type of buffer is not supported");
    assert_eq!(ty.cause(), Some(BufferCreationError::BufferTypeNotSupported));
}

fn context(version: Version, extensions: ExtensionsList) -> Context {
    Context { version, extensions }
}

#[test]
fn new_and_empty_of_same_length_agree() {
    let ctx = gl(3, 3);
    let data = quad();
    let a = VertexBuffer::new(&ctx, &data).unwrap();
    let b = VertexBuffer::<Vertex2d>::empty(&ctx, data.len()).unwrap();
    assert_eq!(a.len(), b.len());
    assert_eq!(a.get_elements_size(), b.get_elements_size());
    assert_eq!(a.get_mode(), b.get_mode());
    assert_eq!(a.get_type(), b.get_type());
    assert_eq!(names(a.get_bindings()), names(b.get_bindings()));
    assert_eq!(a.per_instance().unwrap().0, b.per_instance().unwrap().0);
    let precise = vec![PreciseVertex { position: [0.0, 0.0, 0.0] }; 3];
    assert!(matches!(VertexBuffer::new(&ctx, &precise), Err(CreationError::FormatNotSupported)));
    assert!(matches!(
        VertexBuffer::<PreciseVertex>::empty(&ctx, 3),
        Err(CreationError::FormatNotSupported)
    ));
}
