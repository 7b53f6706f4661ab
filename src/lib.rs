pub mod scalar;
pub mod matrix;
pub mod compose;
pub mod laws;
