pub mod activation;
pub mod linear;
pub mod transformation;
