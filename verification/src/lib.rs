//! A small 3D rotation library: vectors and quaternions over exact
//! rational scalars, with verified quaternion algebra and vector
//! rotation by the sandwich product.

pub mod laws;
pub mod quaternion;
pub mod rational;
pub mod sqrt;
pub mod vec3;
