//! Registries of the entities the context tracks.
pub mod process_tree;
pub mod file_registry;
pub mod interaction_registry;
pub mod network_registry;
