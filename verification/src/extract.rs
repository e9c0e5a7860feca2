//! Extracting data from interactions.
//!
//! Extracting a value from an interaction involves one, two or three steps,
//! depending on the kind of interaction.
//!
//! The data of an interaction is an [`InteractionData`] enum with a variant
//! per interaction kind; its extraction methods pull out the wrapped value
//! without pattern matching. For message component interactions, the
//! extracted data is all that is needed to access the values.
//!
//! Application command data carries its options as [`CommandDataOption`]s.
//! [`ExtractOption`] finds an option's value by name, including options
//! nested in subcommands and subcommand groups, and [`CommandOptionValue`]'s
//! extraction methods pull out the wrapped value of each option kind.
//!
//! Modal interactions carry their components as nested action rows, which
//! can complicate finding the value of a component. [`ExtractModalComponent`]
//! finds the value of the component with a given custom ID.
//!
//! [`InteractionData`]: crate::model::InteractionData
//! [`CommandDataOption`]: crate::model::CommandDataOption
//! [`CommandOptionValue`]: crate::model::CommandOptionValue

pub mod interaction_data;
pub mod modal_component;
pub mod option;

pub use modal_component::ExtractModalComponent;
pub use option::ExtractOption;
