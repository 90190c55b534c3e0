//! Verified building blocks of the engine.
//!
//! - [`pointer`]: pointer ids, the state of each pointer, the input events
//!   that change it, and the map from pointer ids to entities.
//! - [`camera`], [`math`], [`entity`]: the values that pointer tracking takes
//!   from the rest of the engine.
//! - [`error`]: errors that carry advice, and reports.
//! - [`default_plugins`]: the plugin groups an application starts from.

pub mod camera;
pub mod default_plugins;
pub mod entity;
pub mod error;
pub mod math;
pub mod pointer;
mod table;
