//! The four operations on the registry.
pub mod feedback;
pub mod initialize;
pub mod register;
pub mod update;
