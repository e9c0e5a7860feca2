//! Extracting the data of each interaction kind.

use vstd::prelude::*;

use crate::model::{
    CommandData, InteractionData, MessageComponentInteractionData, ModalInteractionData,
};

verus! {

impl InteractionData {
    /// Extract [`CommandData`] from an interaction's data.
    ///
    /// Returns `None` if the interaction is not an application command.
    pub fn command_data(self) -> (data: Option<CommandData>)
        ensures
            self matches InteractionData::ApplicationCommand(command) ==> data == Some(command),
            !(self is ApplicationCommand) ==> data is None,
    {
        if let InteractionData::ApplicationCommand(data) = self {
            Some(data)
        } else {
            None
        }
    }

    /// Extract [`MessageComponentInteractionData`] from an interaction's
    /// data.
    ///
    /// Returns `None` if the interaction is not a message component.
    pub fn component_data(self) -> (data: Option<MessageComponentInteractionData>)
        ensures
            self matches InteractionData::MessageComponent(component) ==> data == Some(component),
            !(self is MessageComponent) ==> data is None,
    {
        if let InteractionData::MessageComponent(data) = self {
            Some(data)
        } else {
            None
        }
    }

    /// Extract [`ModalInteractionData`] from an interaction's data.
    ///
    /// Returns `None` if the interaction is not a modal submit interaction.
    pub fn modal_data(self) -> (data: Option<ModalInteractionData>)
        ensures
            self matches InteractionData::ModalSubmit(modal) ==> data == Some(modal),
            !(self is ModalSubmit) ==> data is None,
    {
        if let InteractionData::ModalSubmit(data) = self {
            Some(data)
        } else {
            None
        }
    }
}

} // verus!
