use sparkle_interactions::extract::option::{find_option, option_value, parse_option_name};
use sparkle_interactions::extract::{ExtractModalComponent, ExtractOption};
use sparkle_interactions::model::{
    CommandData, CommandDataOption, CommandOptionType, CommandOptionValue, ComponentType,
    InteractionData, MessageComponentInteractionData, ModalInteractionData,
    ModalInteractionDataActionRow, ModalInteractionDataComponent,
};
use sparkle_interactions::text::str_eq;

#[test]
fn test_extract_component() {
    let custom_id = "custom_id";
    let value = "value";

    assert_eq!(
        vec![ModalInteractionDataActionRow {
            components: vec![ModalInteractionDataComponent {
                custom_id: custom_id.to_owned(),
                kind: ComponentType::TextInput,
                value: Some(value.to_owned()),
            }],
        }]
        .component(custom_id),
        Some(value.to_owned())
    );

    assert_eq!(
        vec![ModalInteractionDataActionRow {
            components: vec![ModalInteractionDataComponent {
                custom_id: "a".to_owned(),
                kind: ComponentType::TextInput,
                value: Some(value.to_owned()),
            }],
        }]
        .component(custom_id),
        None
    );

    assert_eq!(
        vec![ModalInteractionDataActionRow {
            components: vec![ModalInteractionDataComponent {
                custom_id: custom_id.to_owned(),
                kind: ComponentType::TextInput,
                value: None,
            }],
        }]
        .component(custom_id),
        None
    );
}

#[test]
fn test_extract_option() {
    let option_name = "option";
    let subcommand_name = "subcommand";
    let subcommand_group_name = "subcommand_group";
    let option = || CommandOptionValue::Boolean(true);

    let options = || {
        vec![CommandDataOption {
            name: option_name.to_owned(),
            value: option(),
        }]
    };

    let subcommand_options = || {
        vec![CommandDataOption {
            name: subcommand_name.to_owned(),
            value: CommandOptionValue::SubCommand(options()),
        }]
    };

    let subcommand_group_options = vec![CommandDataOption {
        name: subcommand_group_name.to_owned(),
        value: CommandOptionValue::SubCommandGroup(subcommand_options()),
    }];

    assert_eq!(options().option(option_name), Some(option()));
    assert_eq!(
        subcommand_options().option(&format!("{subcommand_name}/{option_name}")),
        Some(option())
    );
    assert_eq!(
        subcommand_group_options.option(&format!(
            "{subcommand_group_name}/{subcommand_name}/{option_name}"
        )),
        Some(option())
    );
}

#[test]
fn test_parse_option_name_parts() {
    assert_eq!(parse_option_name("option"), ("option", None, None));
    assert_eq!(parse_option_name("sub/option"), ("option", Some("sub"), None));
    assert_eq!(
        parse_option_name("group/sub/option"),
        ("option", Some("sub"), Some("group"))
    );
    // Anything before the third-to-last segment is ignored.
    assert_eq!(
        parse_option_name("extra/group/sub/option"),
        ("option", Some("sub"), Some("group"))
    );
    assert_eq!(parse_option_name(""), ("", None, None));
    assert_eq!(parse_option_name("/"), ("", Some(""), None));
}

#[test]
fn test_find_option_takes_first_match() {
    let options = vec![
        CommandDataOption {
            name: "a".to_owned(),
            value: CommandOptionValue::Integer(1),
        },
        CommandDataOption {
            name: "a".to_owned(),
            value: CommandOptionValue::Integer(2),
        },
        CommandDataOption {
            name: "b".to_owned(),
            value: CommandOptionValue::Integer(3),
        },
    ];
    assert_eq!(find_option(options, "a"), Some(CommandOptionValue::Integer(1)));
    assert_eq!(find_option(Vec::new(), "a"), None);
}

#[test]
fn test_option_value_misses() {
    let options = || {
        vec![CommandDataOption {
            name: "sub".to_owned(),
            value: CommandOptionValue::Integer(7),
        }]
    };
    // The named option is not a subcommand, so the nested lookup fails.
    assert_eq!(option_value(options(), "sub/option"), None);
    assert_eq!(option_value(options(), "missing"), None);
    assert_eq!(option_value(options(), "sub"), Some(CommandOptionValue::Integer(7)));
}

#[test]
fn test_extract_option_values() {
    assert_eq!(CommandOptionValue::Attachment(9).attachment(), Some(9));
    assert_eq!(CommandOptionValue::Boolean(false).attachment(), None);
    assert_eq!(CommandOptionValue::Boolean(true).boolean(), Some(true));
    assert_eq!(CommandOptionValue::Channel(3).channel(), Some(3));
    assert_eq!(
        CommandOptionValue::Focused("query".to_owned(), CommandOptionType::String).focused(),
        Some(("query".to_owned(), CommandOptionType::String))
    );
    assert_eq!(CommandOptionValue::Integer(-4).integer(), Some(-4));
    assert_eq!(CommandOptionValue::Mentionable(5).mentionable(), Some(5));
    assert_eq!(
        CommandOptionValue::Number(2.5f64.to_bits()).number(),
        Some(2.5f64.to_bits())
    );
    assert_eq!(CommandOptionValue::Role(6).role(), Some(6));
    assert_eq!(
        CommandOptionValue::String("text".to_owned()).string(),
        Some("text".to_owned())
    );
    assert_eq!(CommandOptionValue::User(8).user(), Some(8));
    assert_eq!(CommandOptionValue::User(8).integer(), None);
    assert_eq!(
        CommandOptionValue::SubCommand(Vec::new()).subcommand(),
        Some(Vec::new())
    );
    assert_eq!(
        CommandOptionValue::SubCommandGroup(Vec::new()).subcommand_group(),
        Some(Vec::new())
    );
    assert_eq!(CommandOptionValue::Integer(1).subcommand(), None);
}

#[test]
fn test_extract_interaction_data() {
    let command = || CommandData {
        name: "mock".to_owned(),
        options: Vec::new(),
    };
    let component = || MessageComponentInteractionData {
        custom_id: "press".to_owned(),
        component_type: ComponentType::Button,
        values: Vec::new(),
    };
    let modal = || ModalInteractionData {
        custom_id: "form".to_owned(),
        components: Vec::new(),
    };

    assert_eq!(
        InteractionData::ApplicationCommand(command()).command_data(),
        Some(command())
    );
    assert_eq!(InteractionData::ApplicationCommand(command()).component_data(), None);
    assert_eq!(InteractionData::ApplicationCommand(command()).modal_data(), None);
    assert_eq!(
        InteractionData::MessageComponent(component()).component_data(),
        Some(component())
    );
    assert_eq!(InteractionData::MessageComponent(component()).command_data(), None);
    assert_eq!(InteractionData::ModalSubmit(modal()).modal_data(), Some(modal()));
    assert_eq!(InteractionData::ModalSubmit(modal()).component_data(), None);
}

#[test]
fn test_component_first_match_across_rows() {
    let rows = vec![
        ModalInteractionDataActionRow {
            components: vec![ModalInteractionDataComponent {
                custom_id: "other".to_owned(),
                kind: ComponentType::TextInput,
                value: Some("first".to_owned()),
            }],
        },
        ModalInteractionDataActionRow {
            components: vec![ModalInteractionDataComponent {
                custom_id: "wanted".to_owned(),
                kind: ComponentType::TextInput,
                value: Some("second".to_owned()),
            }],
        },
    ];
    assert_eq!(rows.component("wanted"), Some("second".to_owned()));
}

#[test]
fn test_str_eq() {
    assert!(str_eq("", ""));
    assert!(str_eq("abc", "abc"));
    assert!(!str_eq("abc", "abd"));
    assert!(!str_eq("abc", "ab"));
    assert!(str_eq("héllo", "héllo"));
    assert!(!str_eq("héllo", "hello"));
}
