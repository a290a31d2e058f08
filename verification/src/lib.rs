//! A compiler for declarative scene descriptions: a typed, validated scene
//! graph is parsed from a generic document tree, and each layer is replayed
//! as a fixed sequence of primitive drawing operations against a recording
//! drawing surface.  An unverified backend turns the recorded operations
//! into pixels.

pub mod arc;
pub mod circle;
pub mod color;
pub mod context;
pub mod curve;
pub mod error;
pub mod layer;
pub mod line;
pub mod loader;
pub mod point;
pub mod polygon;
pub mod rectangle;
pub mod render;
pub mod root;
pub mod scale;
pub mod stroke;
pub mod text;
pub mod triangle;
pub mod value;
