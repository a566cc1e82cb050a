//! Fixed-size vectors and matrices.
pub mod matrix;
pub mod vector;

pub use matrix::Matrix;
pub use vector::Vector;
