//! Mathematical building blocks.

pub mod matrix;
