//! Builders for components.
//!
//! The entrypoint of the builders for buttons and select menus is
//! [`ComponentsBuilder`]. Although this is not enforced, it provides
//! abstractions over managing action rows, making your code safer.
//!
//! Similar abstractions exist for modals at
//! [`InteractionResponseBuilder::show_modal`].
//!
//! [`InteractionResponseBuilder::show_modal`]:
//! crate::builder::InteractionResponseBuilder::show_modal

use vstd::prelude::*;

use crate::model::{
    ActionRow, Button, ButtonStyle, Component, ReactionType, SelectMenu, SelectMenuOption,
    TextInput, TextInputStyle,
};

verus! {

/// Create a [`Button`] with a builder.
#[derive(Debug, PartialEq)]
pub struct ButtonBuilder {
    pub custom_id: Option<String>,
    pub disabled: bool,
    pub emoji: Option<ReactionType>,
    pub label: Option<String>,
    pub style: ButtonStyle,
    pub url: Option<String>,
}

impl ButtonBuilder {
    /// Create a new builder for buttons with a given custom ID.
    #[must_use]
    pub fn with_custom_id(custom_id: String, label: String, style: ButtonStyle) -> (builder: Self)
        ensures
            builder == (Self {
                custom_id: Some(custom_id),
                disabled: false,
                emoji: None,
                label: Some(label),
                style,
                url: None,
            }),
    {
        Self {
            custom_id: Some(custom_id),
            disabled: false,
            emoji: None,
            label: Some(label),
            style,
            url: None,
        }
    }

    /// Create a new builder for buttons with a given URL.
    #[must_use]
    pub fn with_url(url: String, label: String) -> (builder: Self)
        ensures
            builder == (Self {
                custom_id: None,
                disabled: false,
                emoji: None,
                label: Some(label),
                style: ButtonStyle::Link,
                url: Some(url),
            }),
    {
        Self {
            custom_id: None,
            disabled: false,
            emoji: None,
            label: Some(label),
            style: ButtonStyle::Link,
            url: Some(url),
        }
    }

    /// Make this button disabled.
    #[must_use]
    pub fn disable(self) -> (builder: Self)
        ensures
            builder == (Self { disabled: true, ..self }),
    {
        Self { disabled: true, ..self }
    }

    /// Set a custom emoji for this button.
    #[must_use]
    pub fn custom_emoji(self, name: String, id: u64, animated: bool) -> (builder: Self)
        ensures
            builder == (Self {
                emoji: Some(ReactionType::Custom { animated, id, name: Some(name) }),
                ..self
            }),
    {
        Self { emoji: Some(ReactionType::Custom { animated, id, name: Some(name) }), ..self }
    }

    /// Set a unicode emoji for this button.
    #[must_use]
    pub fn unicode_emoji(self, emoji: String) -> (builder: Self)
        ensures
            builder == (Self { emoji: Some(ReactionType::Unicode { name: emoji }), ..self }),
    {
        Self { emoji: Some(ReactionType::Unicode { name: emoji }), ..self }
    }

    /// Consume this builder and return the configured [`Button`].
    #[must_use]
    pub fn build(self) -> (button: Button)
        ensures
            button == (Button {
                custom_id: self.custom_id,
                disabled: self.disabled,
                emoji: self.emoji,
                label: self.label,
                style: self.style,
                url: self.url,
            }),
    {
        Button {
            custom_id: self.custom_id,
            disabled: self.disabled,
            emoji: self.emoji,
            label: self.label,
            style: self.style,
            url: self.url,
        }
    }
}

/// Create a [`SelectMenuOption`] with a builder.
#[derive(Debug, PartialEq)]
pub struct SelectMenuOptionBuilder {
    pub default: bool,
    pub description: Option<String>,
    pub emoji: Option<ReactionType>,
    pub label: String,
    pub value: String,
}

impl SelectMenuOptionBuilder {
    /// Create a new builder for select menu options.
    #[must_use]
    pub fn new(label: String, value: String) -> (builder: Self)
        ensures
            builder == (Self { default: false, description: None, emoji: None, label, value }),
    {
        Self { default: false, description: None, emoji: None, label, value }
    }

    /// Set this select menu option to be selected by default.
    #[must_use]
    pub fn default(self) -> (builder: Self)
        ensures
            builder == (Self { default: true, ..self }),
    {
        Self { default: true, ..self }
    }

    /// Set a description for this select menu option.
    #[must_use]
    pub fn description(self, description: String) -> (builder: Self)
        ensures
            builder == (Self { description: Some(description), ..self }),
    {
        Self { description: Some(description), ..self }
    }

    /// Set a custom emoji for this select menu option.
    #[must_use]
    pub fn custom_emoji(self, name: String, id: u64, animated: bool) -> (builder: Self)
        ensures
            builder == (Self {
                emoji: Some(ReactionType::Custom { animated, id, name: Some(name) }),
                ..self
            }),
    {
        Self { emoji: Some(ReactionType::Custom { animated, id, name: Some(name) }), ..self }
    }

    /// Set a unicode emoji for this select menu option.
    #[must_use]
    pub fn unicode_emoji(self, emoji: String) -> (builder: Self)
        ensures
            builder == (Self { emoji: Some(ReactionType::Unicode { name: emoji }), ..self }),
    {
        Self { emoji: Some(ReactionType::Unicode { name: emoji }), ..self }
    }

    /// Consume this builder and return the configured [`SelectMenuOption`].
    #[must_use]
    pub fn build(self) -> (option: SelectMenuOption)
        ensures
            option == (SelectMenuOption {
                default: self.default,
                description: self.description,
                emoji: self.emoji,
                label: self.label,
                value: self.value,
            }),
    {
        SelectMenuOption {
            default: self.default,
            description: self.description,
            emoji: self.emoji,
            label: self.label,
            value: self.value,
        }
    }
}

/// Create a [`SelectMenu`] with a builder.
#[derive(Debug, PartialEq)]
pub struct SelectMenuBuilder {
    pub custom_id: String,
    pub disabled: bool,
    pub max_values: Option<u8>,
    pub min_values: Option<u8>,
    pub options: Vec<SelectMenuOption>,
    pub placeholder: Option<String>,
}

impl SelectMenuBuilder {
    /// Create a new builder for select menus.
    #[must_use]
    pub fn new(custom_id: String, options: Vec<SelectMenuOption>) -> (builder: Self)
        ensures
            builder == (Self {
                custom_id,
                disabled: false,
                max_values: None,
                min_values: None,
                options,
                placeholder: None,
            }),
    {
        Self {
            custom_id,
            disabled: false,
            max_values: None,
            min_values: None,
            options,
            placeholder: None,
        }
    }

    /// Make this select menu disabled.
    #[must_use]
    pub fn disable(self) -> (builder: Self)
        ensures
            builder == (Self { disabled: true, ..self }),
    {
        Self { disabled: true, ..self }
    }

    /// Set the maximum number of options that can be chosen for this select
    /// menu.
    #[must_use]
    pub fn max_values(self, max_values: u8) -> (builder: Self)
        ensures
            builder == (Self { max_values: Some(max_values), ..self }),
    {
        Self { max_values: Some(max_values), ..self }
    }

    /// Set the minimum number of options that can be chosen for this select
    /// menu.
    #[must_use]
    pub fn min_values(self, min_values: u8) -> (builder: Self)
        ensures
            builder == (Self { min_values: Some(min_values), ..self }),
    {
        Self { min_values: Some(min_values), ..self }
    }

    /// Set the text to be shown when no options are selected.
    #[must_use]
    pub fn placeholder(self, placeholder: String) -> (builder: Self)
        ensures
            builder == (Self { placeholder: Some(placeholder), ..self }),
    {
        Self { placeholder: Some(placeholder), ..self }
    }

    /// Consume this builder and return the configured [`SelectMenu`].
    #[must_use]
    pub fn build(self) -> (menu: SelectMenu)
        ensures
            menu == (SelectMenu {
                custom_id: self.custom_id,
                disabled: self.disabled,
                max_values: self.max_values,
                min_values: self.min_values,
                options: self.options,
                placeholder: self.placeholder,
            }),
    {
        SelectMenu {
            custom_id: self.custom_id,
            disabled: self.disabled,
            max_values: self.max_values,
            min_values: self.min_values,
            options: self.options,
            placeholder: self.placeholder,
        }
    }
}

/// Create a [`TextInput`] with a builder.
#[derive(Debug, PartialEq)]
pub struct TextInputBuilder {
    pub custom_id: String,
    pub label: String,
    pub max_length: Option<u16>,
    pub min_length: Option<u16>,
    pub placeholder: Option<String>,
    pub required: bool,
    pub style: TextInputStyle,
    pub value: Option<String>,
}

impl TextInputBuilder {
    /// Create a new builder for text inputs.
    #[must_use]
    pub fn new(label: String, custom_id: String) -> (builder: Self)
        ensures
            builder == (Self {
                custom_id,
                label,
                max_length: None,
                min_length: None,
                placeholder: None,
                required: false,
                style: TextInputStyle::Short,
                value: None,
            }),
    {
        Self {
            custom_id,
            label,
            max_length: None,
            min_length: None,
            placeholder: None,
            required: false,
            style: TextInputStyle::Short,
            value: None,
        }
    }

    /// Set the maximum number of characters allowed to be entered into this
    /// text input.
    #[must_use]
    pub fn max_length(self, max_length: u16) -> (builder: Self)
        ensures
            builder == (Self { max_length: Some(max_length), ..self }),
    {
        Self { max_length: Some(max_length), ..self }
    }

    /// Set the minimum number of characters allowed to be entered into this
    /// text input.
    #[must_use]
    pub fn min_length(self, min_length: u16) -> (builder: Self)
        ensures
            builder == (Self { min_length: Some(min_length), ..self }),
    {
        Self { min_length: Some(min_length), ..self }
    }

    /// Set the placeholder of this text input.
    #[must_use]
    pub fn placeholder(self, placeholder: String) -> (builder: Self)
        ensures
            builder == (Self { placeholder: Some(placeholder), ..self }),
    {
        Self { placeholder: Some(placeholder), ..self }
    }

    /// Make this text input required.
    #[must_use]
    pub fn require(self) -> (builder: Self)
        ensures
            builder == (Self { required: true, ..self }),
    {
        Self { required: true, ..self }
    }

    /// Make this text input's style paragraph.
    #[must_use]
    pub fn paragraph(self) -> (builder: Self)
        ensures
            builder == (Self { style: TextInputStyle::Paragraph, ..self }),
    {
        Self { style: TextInputStyle::Paragraph, ..self }
    }

    /// Set the prefilled value of this text input.
    #[must_use]
    pub fn value(self, value: String) -> (builder: Self)
        ensures
            builder == (Self { value: Some(value), ..self }),
    {
        Self { value: Some(value), ..self }
    }

    /// Consume this builder and return the configured [`TextInput`].
    #[must_use]
    pub fn build(self) -> (text_input: TextInput)
        ensures
            text_input == (TextInput {
                custom_id: self.custom_id,
                label: self.label,
                max_length: self.max_length,
                min_length: self.min_length,
                placeholder: self.placeholder,
                required: Some(self.required),
                style: self.style,
                value: self.value,
            }),
    {
        TextInput {
            custom_id: self.custom_id,
            label: self.label,
            max_length: self.max_length,
            min_length: self.min_length,
            placeholder: self.placeholder,
            required: Some(self.required),
            style: self.style,
            value: self.value,
        }
    }
}

/// Create a vector of [`Component`]s with a builder.
#[derive(Debug, PartialEq)]
pub struct ComponentsBuilder {
    pub action_rows: Vec<ActionRow>,
}

impl ComponentsBuilder {
    /// Create a new builder for components.
    #[must_use]
    pub fn new() -> (builder: Self)
        ensures
            builder.action_rows@ == Seq::<ActionRow>::empty(),
    {
        Self { action_rows: Vec::new() }
    }

    /// Add an action row of buttons after the existing rows.
    #[must_use]
    pub fn buttons(self, buttons: Vec<Button>) -> (builder: Self)
        ensures
            builder.action_rows@.len() == self.action_rows@.len() + 1,
            builder.action_rows@.take(self.action_rows@.len() as int) == self.action_rows@,
            builder.action_rows@.last().components@ == buttons@.map_values(
                |button: Button| Component::Button(button),
            ),
    {
        let ghost original = buttons@;
        let Self { mut action_rows } = self;
        let mut buttons = buttons;
        let mut components: Vec<Component> = Vec::new();
        while buttons.len() > 0
            invariant
                components@.len() <= original.len(),
                buttons@ == original.skip(components@.len() as int),
                components@ == original.take(components@.len() as int).map_values(
                    |button: Button| Component::Button(button),
                ),
            decreases buttons@.len(),
        {
            let ghost done = components@.len() as int;
            let button = buttons.remove(0);
            proof {
                assert(button == original[done]);
                assert(original.skip(done).drop_first() =~= original.skip(done + 1));
                assert(original.take(done + 1).map_values(|b: Button| Component::Button(b))
                    =~= original.take(done).map_values(|b: Button| Component::Button(b)).push(
                    Component::Button(original[done]),
                ));
            }
            components.push(Component::Button(button));
        }
        proof {
            assert(original.take(original.len() as int) =~= original);
        }
        action_rows.push(ActionRow { components });
        proof {
            assert(action_rows@.take(self.action_rows@.len() as int) =~= self.action_rows@);
        }
        Self { action_rows }
    }

    /// Add a select menu, in an action row of its own after the existing
    /// rows.
    ///
    /// Since an action row can't have multiple select menus or mix select
    /// menus and buttons, this is the only method for adding select menus.
    #[must_use]
    pub fn select_menu(self, select_menu: SelectMenu) -> (builder: Self)
        ensures
            builder.action_rows@.len() == self.action_rows@.len() + 1,
            builder.action_rows@.take(self.action_rows@.len() as int) == self.action_rows@,
            builder.action_rows@.last().components@ == seq![Component::SelectMenu(select_menu)],
    {
        let Self { mut action_rows } = self;
        let mut components: Vec<Component> = Vec::new();
        components.push(Component::SelectMenu(select_menu));
        action_rows.push(ActionRow { components });
        proof {
            assert(action_rows@.take(self.action_rows@.len() as int) =~= self.action_rows@);
        }
        Self { action_rows }
    }

    /// Consume this builder and return the configured [`Component`]s: one
    /// top-level component per action row, in order.
    #[must_use]
    pub fn build(self) -> (components: Vec<Component>)
        ensures
            components@ == self.action_rows@.map_values(|row: ActionRow| Component::ActionRow(row)),
    {
        crate::builder::interaction_response::rows_to_components(self.action_rows)
    }
}

} // verus!
