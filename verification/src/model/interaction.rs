//! Interaction response payloads and received interaction data.
//!
//! An [`InteractionResponse`] is what a caller hands to the interaction
//! handle: a response kind together with optional body fields. The handle
//! only ever checks which fields are present and forwards them, so every
//! field is an `Option` and absence is meaningful: an absent field is not
//! forwarded at all, which the transport distinguishes from a field set to
//! an empty value.
//!
//! Embeds and attachments keep their `twilight_model` types: the crate never
//! looks inside them, it only carries them to the transport.

use vstd::prelude::*;

use twilight_model::channel::message::Embed;
use twilight_model::http::attachment::Attachment;

use crate::model::message::{Component, ComponentType};

verus! {

#[verifier::external_type_specification]
#[verifier::external_body]
pub struct ExEmbed(Embed);

#[verifier::external_type_specification]
#[verifier::external_body]
pub struct ExAttachment(Attachment);

/// The kind of an interaction response.
#[derive(Clone, Copy, Debug, PartialEq, Eq, Structural)]
pub enum InteractionResponseType {
    /// Acknowledge a ping.
    Pong,
    /// Respond with a new message.
    ChannelMessageWithSource,
    /// Acknowledge an interaction and edit a message later; the user sees a
    /// loading state.
    DeferredChannelMessageWithSource,
    /// Acknowledge a component interaction and edit the message later; the
    /// user does not see a loading state.
    DeferredUpdateMessage,
    /// Edit the message a component is attached to.
    UpdateMessage,
    /// Respond with a modal.
    Modal,
}

/// The body of an interaction response. Every field is optional; an absent
/// field is never forwarded to the transport.
#[derive(Debug, PartialEq)]
pub struct InteractionResponseData {
    pub attachments: Option<Vec<Attachment>>,
    pub components: Option<Vec<Component>>,
    pub content: Option<String>,
    pub custom_id: Option<String>,
    pub embeds: Option<Vec<Embed>>,
    pub flags: Option<u64>,
    pub title: Option<String>,
    pub tts: Option<bool>,
}

/// A full interaction response: its kind and, for kinds that carry one, a
/// body.
#[derive(Debug, PartialEq)]
pub struct InteractionResponse {
    pub kind: InteractionResponseType,
    pub data: Option<InteractionResponseData>,
}

/// The kind of a command option.
#[derive(Clone, Copy, Debug, PartialEq, Eq, Structural)]
pub enum CommandOptionType {
    SubCommand,
    SubCommandGroup,
    String,
    Integer,
    Boolean,
    User,
    Channel,
    Role,
    Mentionable,
    Number,
    Attachment,
}

/// The value of a command option received in an application command.
///
/// Identifiers (users, channels, roles, mentionables, attachments) are held
/// as their numeric snowflake values. A `Number` option holds the IEEE-754
/// bit pattern of the received value; the crate never interprets it, it only
/// hands it back out.
#[derive(Debug, PartialEq)]
pub enum CommandOptionValue {
    Attachment(u64),
    Boolean(bool),
    Channel(u64),
    Focused(String, CommandOptionType),
    Integer(i64),
    Mentionable(u64),
    Number(u64),
    Role(u64),
    String(String),
    SubCommand(Vec<CommandDataOption>),
    SubCommandGroup(Vec<CommandDataOption>),
    User(u64),
}

/// One named option of an application command.
#[derive(Debug, PartialEq)]
pub struct CommandDataOption {
    pub name: String,
    pub value: CommandOptionValue,
}

/// The data of an application command interaction.
#[derive(Debug, PartialEq)]
pub struct CommandData {
    pub name: String,
    pub options: Vec<CommandDataOption>,
}

/// The data of a message component interaction.
#[derive(Clone, Debug, PartialEq)]
pub struct MessageComponentInteractionData {
    pub custom_id: String,
    pub component_type: ComponentType,
    pub values: Vec<String>,
}

/// One component of a submitted modal.
#[derive(Clone, Debug, PartialEq)]
pub struct ModalInteractionDataComponent {
    pub custom_id: String,
    pub kind: ComponentType,
    pub value: Option<String>,
}

/// One action row of a submitted modal.
#[derive(Clone, Debug, PartialEq)]
pub struct ModalInteractionDataActionRow {
    pub components: Vec<ModalInteractionDataComponent>,
}

/// The data of a modal submit interaction.
#[derive(Clone, Debug, PartialEq)]
pub struct ModalInteractionData {
    pub custom_id: String,
    pub components: Vec<ModalInteractionDataActionRow>,
}

/// The data carried by an interaction, by interaction kind.
#[derive(Debug, PartialEq)]
pub enum InteractionData {
    ApplicationCommand(CommandData),
    MessageComponent(MessageComponentInteractionData),
    ModalSubmit(ModalInteractionData),
}

} // verus!
