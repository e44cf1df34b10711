pub mod node;
pub mod reduction;
pub mod core_ops;
pub mod laws;
pub mod sha2;
