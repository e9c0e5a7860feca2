//! The crate's data model for interaction responses and interaction data.
//!
//! Response payloads are held as plain values: every field the crate's logic
//! inspects is an owned value of a type defined here. Embeds and attachments
//! are never inspected, only carried through to the transport, so they keep
//! their `twilight_model` types and stay opaque to verification.

mod interaction;
mod message;

pub use interaction::{
    CommandData, CommandDataOption, CommandOptionType, CommandOptionValue, InteractionData,
    InteractionResponse, InteractionResponseData, InteractionResponseType,
    MessageComponentInteractionData, ModalInteractionData, ModalInteractionDataActionRow,
    ModalInteractionDataComponent,
};
pub use message::{
    ActionRow, Button, ButtonStyle, Component, ComponentType, ReactionType, SelectMenu,
    SelectMenuOption, TextInput, TextInputStyle, MESSAGE_FLAG_EPHEMERAL,
    MESSAGE_FLAG_SUPPRESS_EMBEDS,
};
