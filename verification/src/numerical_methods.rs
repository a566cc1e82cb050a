//! Numerical methods.
pub mod integration;
