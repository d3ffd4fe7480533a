//! Shader parameters from material-property documents, shader variant
//! selection, texture lookup and the dataset capture loop of a cel-shaded
//! character renderer.
//!
//! Floating-point values are held as the bit patterns of 32-bit floats, and
//! texture handles as a type parameter: the library decides, the engine draws.

pub mod capture;
pub mod cel_material;
pub mod material_loader;
pub mod naming;
pub mod pipeline;
pub mod properties;
pub mod sampling;
