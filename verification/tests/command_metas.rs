use orion_bot::bot::commands::{
    AccountCommand, ConfigCommand, DocsCommand, HelpCommand, PanelsCommand, PingCommand, TroubleshootCommand,
    UserCommand,
};
use orion_bot::framework::context::OptionKind;
use orion_bot::framework::meta::{ChoiceValue, ContextType, IntegrationType, OptionBound};

#[test]
fn private_commands_are_for_owners_of_the_support_server() {
    for meta in [ConfigCommand::meta(42), UserCommand::meta(42), PanelsCommand::meta(42)] {
        assert!(meta.owner_only);
        assert_eq!(meta.category, "Private");
        assert_eq!(meta.guilds, Some(vec![42]));
        assert_eq!(meta.installations, vec![IntegrationType::GuildInstall]);
        assert_eq!(meta.contexts, vec![ContextType::Guild]);
    }
    let user = UserCommand::meta(1);
    assert_eq!(user.name, "user");
    assert_eq!(user.options[0].kind, OptionKind::User);
    assert_eq!(user.options[0].required, Some(true));
    let panels = PanelsCommand::meta(1);
    assert_eq!(panels.options[0].name, "name");
    assert_eq!(panels.options[0].kind, OptionKind::String);
}

#[test]
fn config_command_options() {
    let meta = ConfigCommand::meta(7);
    let names: Vec<&str> = meta.options.iter().map(|o| o.name.as_str()).collect();
    assert_eq!(names, vec!["get-available-servers", "set-available-servers", "credits-add"]);
    let set = meta.options[1].options.as_ref().unwrap();
    assert_eq!(set[0].name, "amount");
    assert_eq!(set[0].min_value, Some(OptionBound::Integer(1)));
    assert_eq!(set[0].max_value, Some(OptionBound::Integer(10000)));
    let credits = meta.options[2].options.as_ref().unwrap();
    let names: Vec<&str> = credits.iter().map(|o| o.name.as_str()).collect();
    assert_eq!(names, vec!["user", "type", "amount", "reason"]);
    let choices = credits[1].choices.as_ref().unwrap();
    assert_eq!(choices[0].name, "The user won a giveaway");
    assert!(matches!(choices[0].value, ChoiceValue::Integer(1)));
    assert!(matches!(choices[1].value, ChoiceValue::Integer(0)));
    assert_eq!(credits[3].max_length, Some(500));
    assert_eq!(credits[3].required, None);
}

#[test]
fn public_commands_are_open_everywhere() {
    let loc = || vec![("fr".to_string(), "Aide".to_string())];
    for meta in [
        HelpCommand::meta("Help".to_string(), loc()),
        PingCommand::meta("Ping".to_string(), loc()),
        AccountCommand::meta("Account".to_string(), loc()),
        TroubleshootCommand::meta("Troubleshoot".to_string(), loc()),
        DocsCommand::meta("Docs".to_string(), loc(), "Page".to_string(), loc()),
    ] {
        assert!(!meta.owner_only);
        assert!(meta.guilds.is_none());
        assert_eq!(meta.category, "Informations");
        assert_eq!(meta.installations, vec![IntegrationType::GuildInstall, IntegrationType::UserInstall]);
        assert_eq!(meta.contexts, vec![ContextType::Guild, ContextType::BotDm, ContextType::PrivateChannel]);
        assert_eq!(meta.description_localizations, Some(loc()));
    }
    let docs = DocsCommand::meta("Docs".to_string(), loc(), "Page".to_string(), loc());
    assert_eq!(docs.options.len(), 1);
    assert_eq!(docs.options[0].name, "page");
    assert_eq!(docs.options[0].autocomplete, Some(true));
    assert_eq!(docs.options[0].description, "Page");
}
