use lib::buffer::{Buffer, BufferCreationError, BufferMode, BufferType};
use lib::context::{is_instancing_supported, Context, ExtensionsList};
use lib::version::{Api, Version};
use lib::vertex::format::{is_format_supported, AttributeType, VertexFormat};

fn extensions(instanced: bool, f64_attribs: bool, i64_attribs: bool) -> ExtensionsList {
    ExtensionsList {
        gl_arb_instanced_arrays: instanced,
        gl_arb_vertex_attrib_64bit: f64_attribs,
        gl_nv_vertex_attrib_integer_64bit: i64_attribs,
    }
}

#[test]
fn versions_compare_within_an_api() {
    let v33 = Version(Api::Gl, 3, 3);
    assert!(v33.at_least(&v33));
    assert!(Version(Api::Gl, 4, 0).at_least(&v33));
    assert!(Version(Api::Gl, 3, 4).at_least(&v33));
    assert!(!Version(Api::Gl, 3, 2).at_least(&v33));
    assert!(!Version(Api::Gl, 2, 9).at_least(&v33));
    assert!(!Version(Api::GlEs, 3, 3).at_least(&v33));
    assert!(!v33.at_least(&Version(Api::GlEs, 2, 0)));
}

#[test]
fn context_accessors() {
    let ctx = context(Version(Api::GlEs, 3, 1), extensions(true, false, true));
    assert_eq!(*ctx.get_version(), Version(Api::GlEs, 3, 1));
    assert!(ctx.get_extensions().gl_arb_instanced_arrays);
    assert!(!ctx.get_extensions().gl_arb_vertex_attrib_64bit);
    assert!(ctx.get_extensions().gl_nv_vertex_attrib_integer_64bit);
}

#[test]
fn instancing_threshold() {
    let none = extensions(false, false, false);
    assert!(is_instancing_supported(&context(Version(Api::Gl, 3, 3), none)));
    assert!(is_instancing_supported(&context(Version(Api::Gl, 4, 0), none)));
    assert!(!is_instancing_supported(&context(Version(Api::Gl, 3, 2), none)));
    assert!(!is_instancing_supported(&context(Version(Api::GlEs, 3, 3), none)));
    let ext = extensions(true, false, false);
    assert!(is_instancing_supported(&context(Version(Api::Gl, 1, 0), ext)));
    assert!(is_instancing_supported(&context(Version(Api::GlEs, 2, 0), ext)));
}

#[test]
fn attribute_support_rules() {
    let old = context(Version(Api::Gl, 3, 0), extensions(false, false, false));
    let gl41 = context(Version(Api::Gl, 4, 1), extensions(false, false, false));
    let es = context(Version(Api::GlEs, 9, 9), extensions(false, false, false));
    let nv = context(Version(Api::Gl, 2, 0), extensions(false, false, true));
    let arb = context(Version(Api::Gl, 2, 0), extensions(false, true, false));
    for ty in [AttributeType::I8, AttributeType::U16U16, AttributeType::F32F32F32F32, AttributeType::I32I32I32] {
        assert!(ty.is_supported(&old));
        assert!(ty.is_supported(&es));
    }
    for ty in [AttributeType::F64, AttributeType::F64F64F64F64] {
        assert!(ty.is_f64());
        assert!(!ty.is_i64());
        assert!(!ty.is_supported(&old));
        assert!(ty.is_supported(&gl41));
        assert!(!ty.is_supported(&es));
        assert!(ty.is_supported(&arb));
        assert!(!ty.is_supported(&nv));
    }
    for ty in [AttributeType::I64, AttributeType::U64U64U64] {
        assert!(ty.is_i64());
        assert!(!ty.is_f64());
        assert!(!ty.is_supported(&gl41));
        assert!(ty.is_supported(&nv));
        assert!(!ty.is_supported(&arb));
    }
}

#[test]
fn format_support_needs_every_attribute() {
    let ctx = context(Version(Api::Gl, 3, 3), extensions(false, false, false));
    let plain: VertexFormat = vec![
        ("position".to_string(), 0, AttributeType::F32F32F32),
        ("color".to_string(), 12, AttributeType::U8U8U8U8),
    ];
    assert!(is_format_supported(&plain, &ctx));
    assert!(is_format_supported(&Vec::new(), &ctx));
    let mixed: VertexFormat = vec![
        ("position".to_string(), 0, AttributeType::F32F32F32),
        ("weight".to_string(), 12, AttributeType::F64),
    ];
    assert!(!is_format_supported(&mixed, &ctx));
}

#[test]
fn buffer_new_and_empty() {
    let ctx = context(Version(Api::Gl, 3, 3), extensions(false, false, false));
    let data: Vec<u32> = vec![1, 2, 3];
    let b = Buffer::new(&ctx, &data, BufferType::ElementArrayBuffer, BufferMode::Dynamic).unwrap();
    assert_eq!(b.len(), 3);
    assert_eq!(b.get_elements_size(), 4);
    assert_eq!(b.get_type(), BufferType::ElementArrayBuffer);
    assert_eq!(b.get_mode(), BufferMode::Dynamic);
    let e = Buffer::<u32>::empty_array(&ctx, BufferType::ArrayBuffer, 10, BufferMode::Default).unwrap();
    assert_eq!(e.len(), 10);
    let too_big = Buffer::<u32>::empty_array(&ctx, BufferType::ArrayBuffer, usize::MAX / 4 + 1, BufferMode::Default);
    assert!(matches!(too_big, Err(BufferCreationError::OutOfMemory)));
}

#[test]
fn buffer_slices_and_erasure() {
    let ctx = context(Version(Api::Gl, 3, 3), extensions(false, false, false));
    let data: Vec<u16> = vec![1, 2, 3, 4, 5];
    let b = Buffer::new(&ctx, &data, BufferType::ArrayBuffer, BufferMode::Default).unwrap();
    let s = b.slice(2..5).unwrap();
    assert_eq!(s.len(), 3);
    assert_eq!(s.get_offset(), 2);
    assert_eq!(*s.get_context(), ctx);
    let any_slice = s.as_slice_any();
    assert_eq!(any_slice.offset, 2);
    assert_eq!(any_slice.len, 3);
    assert_eq!(any_slice.elements_size, 2);
    assert!(b.slice(2..6).is_none());
    let whole = b.as_slice_any();
    assert_eq!((whole.offset, whole.len), (0, 5));
    assert_eq!(b.len_as(2), 5);
    assert_eq!(b.len_as(4), 2);
    assert_eq!(b.len_as(0), 0);
    let any = b.into_any_as(2);
    assert_eq!(any.get_elements_count(), 5);
    assert_eq!(any.get_elements_size(), 2);
    assert_eq!(any.as_slice_any(), whole);
    let back: Buffer<u16> = any.into_typed();
    assert_eq!(back.len(), 5);
    let pairs = back.into_any_as(4);
    assert_eq!((pairs.get_elements_size(), pairs.get_elements_count()), (4, 2));
    let bytes: Buffer<u8> = pairs.into_typed();
    assert_eq!(bytes.len(), 8);
}

#[test]
fn buffer_error_texts() {
    assert_eq!(BufferCreationError::OutOfMemory.description(), "Not enough memory to create the buffer");
    assert_eq!(BufferCreationError::BufferTypeNotSupported.to_string(), "This type of buffer is not supported");
}

fn context(version: Version, extensions: ExtensionsList) -> Context {
    Context { version, extensions }
}
