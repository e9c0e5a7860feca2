use sparkle_interactions::builder::component::{
    ButtonBuilder, ComponentsBuilder, SelectMenuBuilder, SelectMenuOptionBuilder, TextInputBuilder,
};
use sparkle_interactions::builder::InteractionResponseBuilder;
use sparkle_interactions::model::{
    ActionRow, Button, ButtonStyle, Component, InteractionResponseType, ReactionType, SelectMenu,
    SelectMenuOption, TextInput, TextInputStyle, MESSAGE_FLAG_EPHEMERAL,
    MESSAGE_FLAG_SUPPRESS_EMBEDS,
};

#[test]
fn test_pong_and_message_responses() {
    let pong = InteractionResponseBuilder::pong();
    assert_eq!(pong.kind, InteractionResponseType::Pong);
    assert!(pong.data.is_none());

    let data = || sparkle_interactions::model::InteractionResponseData {
        attachments: None,
        components: None,
        content: Some("hello".to_owned()),
        custom_id: None,
        embeds: None,
        flags: None,
        title: None,
        tts: None,
    };

    let send = InteractionResponseBuilder::send_message(data());
    assert_eq!(send.kind, InteractionResponseType::ChannelMessageWithSource);
    assert_eq!(send.data, Some(data()));

    let update = InteractionResponseBuilder::update_message(data());
    assert_eq!(update.kind, InteractionResponseType::UpdateMessage);
    assert_eq!(update.data, Some(data()));
}

#[test]
fn test_defer_builder_flags() {
    assert_eq!(MESSAGE_FLAG_EPHEMERAL, 64);
    assert_eq!(MESSAGE_FLAG_SUPPRESS_EMBEDS, 4);

    let plain = InteractionResponseBuilder::defer_send_message().build();
    assert_eq!(plain.kind, InteractionResponseType::DeferredChannelMessageWithSource);
    assert_eq!(plain.data.unwrap().flags, None);

    let ephemeral = InteractionResponseBuilder::defer_send_message().ephemeral().build();
    assert_eq!(ephemeral.data.unwrap().flags, Some(64));

    let suppressed = InteractionResponseBuilder::defer_send_message().suppress_embeds().build();
    assert_eq!(suppressed.data.unwrap().flags, Some(4));

    let both = InteractionResponseBuilder::defer_send_message()
        .ephemeral()
        .suppress_embeds()
        .build();
    assert_eq!(both.data.unwrap().flags, Some(68));

    let update_defer = InteractionResponseBuilder::defer_update_message().build();
    assert_eq!(update_defer.kind, InteractionResponseType::DeferredUpdateMessage);
    assert_eq!(update_defer.data.unwrap().flags, None);

    let ephemeral_update_defer = InteractionResponseBuilder::defer_update_message()
        .ephemeral()
        .build();
    assert_eq!(
        ephemeral_update_defer.kind,
        InteractionResponseType::DeferredUpdateMessage
    );
    assert_eq!(ephemeral_update_defer.data.unwrap().flags, Some(64));
}

#[test]
fn test_modal_builder() {
    let text_input = TextInputBuilder::new("Name".to_owned(), "name".to_owned()).build();
    let response = InteractionResponseBuilder::show_modal("Form".to_owned(), "form".to_owned())
        .text_input(text_input.clone())
        .build();

    assert_eq!(response.kind, InteractionResponseType::Modal);
    let data = response.data.unwrap();
    assert_eq!(data.custom_id.as_deref(), Some("form"));
    assert_eq!(data.title.as_deref(), Some("Form"));
    assert_eq!(
        data.components,
        Some(vec![Component::ActionRow(ActionRow {
            components: vec![Component::TextInput(text_input)],
        })])
    );
    assert_eq!(data.content, None);
    assert_eq!(data.flags, None);
}

#[test]
fn test_button_builder() {
    let button = ButtonBuilder::with_custom_id(
        "press".to_owned(),
        "Press me".to_owned(),
        ButtonStyle::Primary,
    )
    .disable()
    .unicode_emoji("🔥".to_owned())
    .build();
    assert_eq!(
        button,
        Button {
            custom_id: Some("press".to_owned()),
            disabled: true,
            emoji: Some(ReactionType::Unicode { name: "🔥".to_owned() }),
            label: Some("Press me".to_owned()),
            style: ButtonStyle::Primary,
            url: None,
        }
    );

    let link = ButtonBuilder::with_url("https://example.com".to_owned(), "Open".to_owned())
        .custom_emoji("blob".to_owned(), 12, true)
        .build();
    assert_eq!(
        link,
        Button {
            custom_id: None,
            disabled: false,
            emoji: Some(ReactionType::Custom {
                animated: true,
                id: 12,
                name: Some("blob".to_owned()),
            }),
            label: Some("Open".to_owned()),
            style: ButtonStyle::Link,
            url: Some("https://example.com".to_owned()),
        }
    );
}

#[test]
fn test_select_menu_builder() {
    let option = SelectMenuOptionBuilder::new("Rust".to_owned(), "rust".to_owned())
        .default()
        .description("A language".to_owned())
        .build();
    assert_eq!(
        option,
        SelectMenuOption {
            default: true,
            description: Some("A language".to_owned()),
            emoji: None,
            label: "Rust".to_owned(),
            value: "rust".to_owned(),
        }
    );

    let menu = SelectMenuBuilder::new("languages".to_owned(), vec![option.clone()])
        .min_values(1)
        .max_values(3)
        .placeholder("Pick one".to_owned())
        .disable()
        .build();
    assert_eq!(
        menu,
        SelectMenu {
            custom_id: "languages".to_owned(),
            disabled: true,
            max_values: Some(3),
            min_values: Some(1),
            options: vec![option],
            placeholder: Some("Pick one".to_owned()),
        }
    );
}

#[test]
fn test_text_input_builder() {
    let input = TextInputBuilder::new("Surname".to_owned(), "surname".to_owned())
        .min_length(1)
        .max_length(40)
        .placeholder("Type here".to_owned())
        .require()
        .paragraph()
        .value("prefilled".to_owned())
        .build();
    assert_eq!(
        input,
        TextInput {
            custom_id: "surname".to_owned(),
            label: "Surname".to_owned(),
            max_length: Some(40),
            min_length: Some(1),
            placeholder: Some("Type here".to_owned()),
            required: Some(true),
            style: TextInputStyle::Paragraph,
            value: Some("prefilled".to_owned()),
        }
    );
}

#[test]
fn test_components_builder() {
    let button = ButtonBuilder::with_custom_id("a".to_owned(), "A".to_owned(), ButtonStyle::Danger)
        .build();
    let menu = SelectMenuBuilder::new("menu".to_owned(), Vec::new()).build();

    let components = ComponentsBuilder::new()
        .buttons(vec![button.clone()])
        .select_menu(menu.clone())
        .build();

    assert_eq!(
        components,
        vec![
            Component::ActionRow(ActionRow {
                components: vec![Component::Button(button)],
            }),
            Component::ActionRow(ActionRow {
                components: vec![Component::SelectMenu(menu)],
            }),
        ]
    );
}
