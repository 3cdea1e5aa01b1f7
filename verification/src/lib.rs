//! Host side of a plugin system for sandboxed shape generators.

pub mod argument;
pub mod bridge;
pub mod context;
pub mod dispatch;
pub mod loader;
pub mod model;
pub mod model_types;
pub mod sandbox;
pub mod text;
