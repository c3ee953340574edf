//! Small-vector algebra over an abstract scalar.
//!
//! The vector types `Vec2`, `Vec3` and `Vec4` hold 2, 3 and 4
//! components of a scalar type `T: Scalar`. Every operation is defined
//! element-wise over the scalar's own operations, and every higher-level
//! operation that makes sense for any arity is provided once, generically,
//! by the `VecExt` trait, whose default bodies are verified for every arity
//! and every lawful scalar.
//!
//! The load-bearing claim of the crate is that this generic path costs
//! nothing over writing each operation out by hand per type. Its functional
//! half is a theorem here: the `equiv` module exposes both paths side by
//! side under one contract each, so the verifier shows they return the same
//! value on every input. The `laws` module states the algebraic properties
//! the types enjoy. The `model` module anchors the `Scalar` trait with a
//! fully verified integer implementation; a floating-point implementation
//! lives outside the verified core, since the verifier does not reason about
//! floats.

pub mod convert;
pub mod equiv;
pub mod laws;
pub mod model;
pub mod ops;
pub mod scalar;
pub mod vec;
pub mod vec2;
pub mod vec3;
pub mod vec4;
