//! What the controller decides when a challenge is finished, and the errors
//! of the controller and its plugins.

pub mod error;
pub mod plugins;
