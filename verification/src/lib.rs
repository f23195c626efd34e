//! An offline Monte-Carlo path tracer with a verified radiance-estimation
//! core: ray generation, scene intersection, material scattering and
//! per-pixel accumulation, all over exact fixed-point arithmetic.

pub mod fixed;
pub mod vec;
pub mod ray;
pub mod mat;
pub mod quaternion;
pub mod hit;
pub mod primitives;
pub mod random;
pub mod texture;
pub mod material;
pub mod scene;
pub mod camera;
pub mod as3dcamera;
pub mod render;
pub mod tonemap;
