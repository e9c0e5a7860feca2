//! Message components and related message-level values.
//!
//! These mirror the wire shapes of Discord message components as plain data,
//! so that building and forwarding them can be verified. Message flags are
//! carried as a plain bit set in a `u64`.

use vstd::prelude::*;

verus! {

/// The `EPHEMERAL` message flag: the message is only visible to the user who
/// created the interaction.
pub const MESSAGE_FLAG_EPHEMERAL: u64 = 64;

/// The `SUPPRESS_EMBEDS` message flag: embeds in the message are not shown.
pub const MESSAGE_FLAG_SUPPRESS_EMBEDS: u64 = 4;

/// Style of a button component.
#[derive(Clone, Copy, Debug, PartialEq, Eq, Structural)]
pub enum ButtonStyle {
    Primary,
    Secondary,
    Success,
    Danger,
    Link,
}

/// Style of a text input component.
#[derive(Clone, Copy, Debug, PartialEq, Eq, Structural)]
pub enum TextInputStyle {
    Short,
    Paragraph,
}

/// The kind of a received component, as reported in interaction data.
#[derive(Clone, Copy, Debug, PartialEq, Eq, Structural)]
pub enum ComponentType {
    ActionRow,
    Button,
    SelectMenu,
    TextInput,
}

/// An emoji shown on a button or select menu option: either a custom emoji
/// with its numeric identifier or a plain unicode emoji.
#[derive(Clone, Debug, PartialEq)]
pub enum ReactionType {
    Custom { animated: bool, id: u64, name: Option<String> },
    Unicode { name: String },
}

/// A button component.
#[derive(Clone, Debug, PartialEq)]
pub struct Button {
    pub custom_id: Option<String>,
    pub disabled: bool,
    pub emoji: Option<ReactionType>,
    pub label: Option<String>,
    pub style: ButtonStyle,
    pub url: Option<String>,
}

/// One selectable option of a select menu.
#[derive(Clone, Debug, PartialEq)]
pub struct SelectMenuOption {
    pub default: bool,
    pub description: Option<String>,
    pub emoji: Option<ReactionType>,
    pub label: String,
    pub value: String,
}

/// A select menu component.
#[derive(Clone, Debug, PartialEq)]
pub struct SelectMenu {
    pub custom_id: String,
    pub disabled: bool,
    pub max_values: Option<u8>,
    pub min_values: Option<u8>,
    pub options: Vec<SelectMenuOption>,
    pub placeholder: Option<String>,
}

/// A text input component, shown inside a modal.
#[derive(Clone, Debug, PartialEq)]
pub struct TextInput {
    pub custom_id: String,
    pub label: String,
    pub max_length: Option<u16>,
    pub min_length: Option<u16>,
    pub placeholder: Option<String>,
    pub required: Option<bool>,
    pub style: TextInputStyle,
    pub value: Option<String>,
}

/// A message component.
#[derive(Debug, PartialEq)]
pub enum Component {
    ActionRow(ActionRow),
    Button(Button),
    SelectMenu(SelectMenu),
    TextInput(TextInput),
}

/// A row of components; the only component allowed at the top level of a
/// message.
#[derive(Debug, PartialEq)]
pub struct ActionRow {
    pub components: Vec<Component>,
}

} // verus!
