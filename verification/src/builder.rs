//! Builders for structs used in interaction responses.
//!
//! Builders for components are provided in the [`component`] module.
//!
//! Builders for interaction responses can be accessed from
//! [`InteractionResponseBuilder`].

pub mod component;
pub mod interaction_response;

pub use interaction_response::InteractionResponseBuilder;
