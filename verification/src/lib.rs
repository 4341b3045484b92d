//! Synchronization between a frame-stepped simulation loop and a reactive UI
//! loop: bounded channels carry typed payloads between the two, and the
//! bridges built on them keep events, shared state and single-entity query
//! projections consistent without feedback loops.

pub mod app_extension;
pub mod change;
pub mod channel;
pub mod events;
pub mod leptos_component;
pub mod messages;
pub mod plugin;
pub mod queries;
pub mod query_tuples;
pub mod resources;
pub mod shared_state;
pub mod signal_synced;
pub mod stream;
pub mod systems;
pub mod traits;
pub mod utils;
