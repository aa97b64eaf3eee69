# Vertex buffers, verified

A library of vertex buffers for OpenGL, written in Verus: every function of
`src/` carries a contract that Verus proves.

Layout:

- `src/version.rs`: OpenGL API versions and their partial order.
- `src/context.rs`: what the library knows of a context (its version and the
  extensions it exposes) and when instanced drawing is available.
- `src/vertex/format.rs`: vertex attribute types, vertex formats, and which
  formats a context can read (64-bit attributes need an extension or a recent
  version).
- `src/buffer.rs`: descriptions of buffers of typed elements, their slices,
  and buffers whose element type is forgotten. A buffer records its context,
  binding type, mode, element size and element count, and, as a ghost value,
  the data it was filled with when it was created; it holds no bytes and
  reaches no graphics card. Creating a buffer fails with `OutOfMemory` when
  its size in bytes exceeds what the backend's signed size parameter can
  express. The bytes of a buffer can be read as elements of another size.
- `src/vertex/mod.rs`: the `Vertex` trait that vertex types implement, the
  per-instance marker and the sources of vertices of a draw call.
- `src/vertex/buffer.rs`: vertex buffers, their slices and type-erased vertex
  buffers: creation with format checks, raw creation with a given vertex
  size, slicing, per-instance markers, type erasure and the laws that relate
  them.
- `app/lib.rs`: copies of the error types that implement `Display` and
  `std::error::Error`.
- `tests/`: tests on concrete values.
