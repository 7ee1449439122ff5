//! Evaluation of reverse-Polish arithmetic expressions over scalars and
//! volumetric images.
//!
//! The library is generic over the element type of images; the numeric
//! kernels (the arithmetic of one element, unary functions, statistics) are
//! handed in as functions, and every contract states what was asked of them.
pub mod cache;
pub mod datatype;
pub mod error;
pub mod formula;
pub mod image;
pub mod laws;
pub mod machine;
pub mod ops;
