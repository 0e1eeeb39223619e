pub mod base_types;
pub mod collections;
pub mod decoder;
pub mod error;
pub mod properties;
pub mod size;
