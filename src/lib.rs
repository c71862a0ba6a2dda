//! Resizable buffers seen as slices: read and write access without copying, and
//! structural changes (erase, truncate, retain, assign) built from single-element
//! removal and appending. Buffers of owning handles index straight to the owned
//! objects; booleans are kept packed, eight to a byte.

pub mod bits;
pub mod context;
pub mod laws;
pub mod vector;

pub use vector::{retained, InnerIndex, Vector, VectorInsert, VectorOfUniquePtr, VectorRemove, VectorSlice};
pub use bits::VectorOfBool;
pub use context::{ElemKindOf, ElementKind, TensorInfo};
