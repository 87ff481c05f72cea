//! A verified core for a small weather CLI: resolving the active city and
//! API credential from JSON-shaped configuration, selecting a city from a
//! candidate list by interactive input, classifying a weather condition
//! description to a symbolic icon, and rendering the final summary.

pub mod classify;
pub mod json;
pub mod model;
pub mod render;
pub mod select;
pub mod text;
pub mod workflow;
