//! Scheduling configuration for systems and system sets, and the option map
//! that carries per-node and per-edge options through it.
pub mod config_map;
pub mod graph;
pub mod config;
pub mod config_view;
pub mod tuples;
pub mod laws;
