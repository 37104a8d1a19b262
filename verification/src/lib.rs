pub mod laws;
pub mod vector3;
