pub mod buffer;
pub mod context;
pub mod version;
pub mod vertex;
