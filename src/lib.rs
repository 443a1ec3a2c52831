
pub mod vector;

pub use vector::Vector3D;
