//! Builders for interaction responses.
//!
//! The entrypoint of this module is [`InteractionResponseBuilder`]. All the
//! other builders can be created using methods on it.

use vstd::prelude::*;

use crate::model::{
    ActionRow, Component, InteractionResponse, InteractionResponseData, InteractionResponseType,
    TextInput, MESSAGE_FLAG_EPHEMERAL, MESSAGE_FLAG_SUPPRESS_EMBEDS,
};

verus! {

/// The flags field of a deferral response: the combination of the chosen
/// flags, or absent when none was chosen.
pub open spec fn spec_defer_flags(is_ephemeral: bool, suppress_embeds: bool) -> Option<u64> {
    if is_ephemeral && suppress_embeds {
        Some((MESSAGE_FLAG_EPHEMERAL + MESSAGE_FLAG_SUPPRESS_EMBEDS) as u64)
    } else if is_ephemeral {
        Some(MESSAGE_FLAG_EPHEMERAL)
    } else if suppress_embeds {
        Some(MESSAGE_FLAG_SUPPRESS_EMBEDS)
    } else {
        None
    }
}

/// Create an [`InteractionResponse`] to defer an interaction with a builder.
///
/// This is created with [`InteractionResponseBuilder::defer_send_message`]
/// or [`InteractionResponseBuilder::defer_update_message`].
#[derive(Clone, Copy, Debug, PartialEq, Eq, Structural)]
pub struct DeferInteractionResponseBuilder {
    pub response_type: InteractionResponseType,
    pub is_ephemeral: bool,
    pub suppress_embeds: bool,
}

impl DeferInteractionResponseBuilder {
    /// Set the response to be ephemeral.
    ///
    /// This makes the response only visible to the user that created the
    /// interaction.
    #[must_use]
    pub fn ephemeral(self) -> (builder: Self)
        ensures
            builder == (Self { is_ephemeral: true, ..self }),
    {
        Self { is_ephemeral: true, ..self }
    }

    /// Set the response to not show embeds.
    #[must_use]
    pub fn suppress_embeds(self) -> (builder: Self)
        ensures
            builder == (Self { suppress_embeds: true, ..self }),
    {
        Self { suppress_embeds: true, ..self }
    }

    /// Consume this builder and return the configured
    /// [`InteractionResponse`]: a deferral of this builder's response type
    /// with an otherwise empty body whose only set field is the combination
    /// of the chosen flags.
    #[must_use]
    pub fn build(self) -> (response: InteractionResponse)
        ensures
            response.kind == self.response_type,
            response.data matches Some(data) && data == (InteractionResponseData {
                attachments: None,
                components: None,
                content: None,
                custom_id: None,
                embeds: None,
                flags: spec_defer_flags(self.is_ephemeral, self.suppress_embeds),
                title: None,
                tts: None,
            }),
    {
        let flags: Option<u64> = if self.is_ephemeral && self.suppress_embeds {
            Some(MESSAGE_FLAG_EPHEMERAL + MESSAGE_FLAG_SUPPRESS_EMBEDS)
        } else if self.is_ephemeral {
            Some(MESSAGE_FLAG_EPHEMERAL)
        } else if self.suppress_embeds {
            Some(MESSAGE_FLAG_SUPPRESS_EMBEDS)
        } else {
            None
        };

        InteractionResponse {
            kind: self.response_type,
            data: Some(
                InteractionResponseData {
                    attachments: None,
                    components: None,
                    content: None,
                    custom_id: None,
                    embeds: None,
                    flags,
                    title: None,
                    tts: None,
                },
            ),
        }
    }
}

/// Create an [`InteractionResponse`] to show a modal with a builder.
///
/// This is created with [`InteractionResponseBuilder::show_modal`].
#[derive(Debug, PartialEq)]
pub struct ModalInteractionResponseBuilder {
    pub action_rows: Vec<ActionRow>,
    pub custom_id: String,
    pub title: String,
}

impl ModalInteractionResponseBuilder {
    /// Add a text input component to this modal, in an action row of its
    /// own after the existing rows.
    #[must_use]
    pub fn text_input(self, text_input: TextInput) -> (builder: Self)
        ensures
            builder.custom_id == self.custom_id,
            builder.title == self.title,
            builder.action_rows@.len() == self.action_rows@.len() + 1,
            builder.action_rows@.take(self.action_rows@.len() as int) == self.action_rows@,
            builder.action_rows@.last().components@ == seq![Component::TextInput(text_input)],
    {
        let ModalInteractionResponseBuilder { mut action_rows, custom_id, title } = self;
        let mut components: Vec<Component> = Vec::new();
        components.push(Component::TextInput(text_input));
        action_rows.push(ActionRow { components });
        proof {
            assert(action_rows@.take(self.action_rows@.len() as int) =~= self.action_rows@);
        }
        ModalInteractionResponseBuilder { action_rows, custom_id, title }
    }

    /// Consume this builder and return the configured
    /// [`InteractionResponse`]: a modal response whose components are this
    /// builder's action rows and whose body carries the modal's custom id
    /// and title.
    #[must_use]
    pub fn build(self) -> (response: InteractionResponse)
        ensures
            response.kind is Modal,
            response.data matches Some(data) && data.components matches Some(components)
                && components@ == self.action_rows@.map_values(
                |row: ActionRow| Component::ActionRow(row),
            ) && data.custom_id == Some(self.custom_id) && data.title == Some(self.title)
                && data.attachments is None && data.content is None && data.embeds is None
                && data.flags is None && data.tts is None,
    {
        let ModalInteractionResponseBuilder { action_rows, custom_id, title } = self;
        let components = rows_to_components(action_rows);
        InteractionResponse {
            kind: InteractionResponseType::Modal,
            data: Some(
                InteractionResponseData {
                    attachments: None,
                    components: Some(components),
                    content: None,
                    custom_id: Some(custom_id),
                    embeds: None,
                    flags: None,
                    title: Some(title),
                    tts: None,
                },
            ),
        }
    }
}

/// Wrap every action row of `rows` as a top-level message component, in
/// order.
pub(crate) fn rows_to_components(rows: Vec<ActionRow>) -> (components: Vec<Component>)
    ensures
        components@ == rows@.map_values(|row: ActionRow| Component::ActionRow(row)),
{
    let ghost original = rows@;
    let mut rows = rows;
    let mut components: Vec<Component> = Vec::new();
    while rows.len() > 0
        invariant
            components@.len() <= original.len(),
            rows@ == original.skip(components@.len() as int),
            components@ == original.take(components@.len() as int).map_values(
                |row: ActionRow| Component::ActionRow(row),
            ),
        decreases rows@.len(),
    {
        let ghost done = components@.len() as int;
        let row = rows.remove(0);
        proof {
            assert(row == original[done]);
            assert(original.skip(done).drop_first() =~= original.skip(done + 1));
            assert(original.take(done + 1).map_values(|r: ActionRow| Component::ActionRow(r))
                =~= original.take(done).map_values(|r: ActionRow| Component::ActionRow(r)).push(
                Component::ActionRow(original[done]),
            ));
        }
        components.push(Component::ActionRow(row));
    }
    proof {
        assert(original.take(original.len() as int) =~= original);
    }
    components
}

/// Create an [`InteractionResponse`] with a builder.
///
/// This builder creates [`InteractionResponse`]s from
/// [`InteractionResponseData`], except for
/// [`InteractionResponseBuilder::show_modal`].
#[derive(Clone, Copy, Debug, PartialEq, Eq, Structural)]
pub struct InteractionResponseBuilder;

impl InteractionResponseBuilder {
    /// Create a response to a ping from the platform.
    ///
    /// This uses [`InteractionResponseType::Pong`] as the response type.
    #[must_use]
    pub fn pong() -> (response: InteractionResponse)
        ensures
            response == (InteractionResponse { kind: InteractionResponseType::Pong, data: None }),
    {
        InteractionResponse { kind: InteractionResponseType::Pong, data: None }
    }

    /// Defer an interaction to follow up with a message later.
    ///
    /// This method should be used when the message is expected to be sent
    /// after the transport's short deadline for the initial response.
    ///
    /// This uses
    /// [`InteractionResponseType::DeferredChannelMessageWithSource`] as the
    /// response type.
    #[must_use]
    pub fn defer_send_message() -> (builder: DeferInteractionResponseBuilder)
        ensures
            builder == (DeferInteractionResponseBuilder {
                response_type: InteractionResponseType::DeferredChannelMessageWithSource,
                is_ephemeral: false,
                suppress_embeds: false,
            }),
    {
        DeferInteractionResponseBuilder {
            response_type: InteractionResponseType::DeferredChannelMessageWithSource,
            is_ephemeral: false,
            suppress_embeds: false,
        }
    }

    /// Respond to an interaction with a message.
    ///
    /// This uses [`InteractionResponseType::ChannelMessageWithSource`] as
    /// the response type.
    #[must_use]
    pub fn send_message(data: InteractionResponseData) -> (response: InteractionResponse)
        ensures
            response == (InteractionResponse {
                kind: InteractionResponseType::ChannelMessageWithSource,
                data: Some(data),
            }),
    {
        InteractionResponse {
            kind: InteractionResponseType::ChannelMessageWithSource,
            data: Some(data),
        }
    }

    /// Defer a message component or modal submit interaction.
    ///
    /// While [`InteractionResponseBuilder::defer_send_message`] sends a new
    /// message showing a loading state, this method shows the loading state
    /// on the component for a few seconds. Followups still behave like
    /// [`InteractionResponseBuilder::defer_send_message`].
    ///
    /// This uses [`InteractionResponseType::DeferredUpdateMessage`] as the
    /// response type.
    #[must_use]
    pub fn defer_update_message() -> (builder: DeferInteractionResponseBuilder)
        ensures
            builder == (DeferInteractionResponseBuilder {
                response_type: InteractionResponseType::DeferredUpdateMessage,
                is_ephemeral: false,
                suppress_embeds: false,
            }),
    {
        DeferInteractionResponseBuilder {
            response_type: InteractionResponseType::DeferredUpdateMessage,
            is_ephemeral: false,
            suppress_embeds: false,
        }
    }

    /// Respond to a message component or modal interaction to edit the
    /// message with the component.
    ///
    /// This uses [`InteractionResponseType::UpdateMessage`] as the response
    /// type.
    #[must_use]
    pub fn update_message(data: InteractionResponseData) -> (response: InteractionResponse)
        ensures
            response == (InteractionResponse {
                kind: InteractionResponseType::UpdateMessage,
                data: Some(data),
            }),
    {
        InteractionResponse { kind: InteractionResponseType::UpdateMessage, data: Some(data) }
    }

    /// Respond to an interaction with a modal.
    ///
    /// This uses [`InteractionResponseType::Modal`] as the response type.
    #[must_use]
    pub fn show_modal(title: String, custom_id: String) -> (builder:
        ModalInteractionResponseBuilder)
        ensures
            builder.action_rows@ == Seq::<ActionRow>::empty(),
            builder.custom_id == custom_id,
            builder.title == title,
    {
        ModalInteractionResponseBuilder { action_rows: Vec::new(), custom_id, title }
    }
}

} // verus!
