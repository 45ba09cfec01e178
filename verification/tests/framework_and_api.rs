use orion_bot::framework::context::{CommandContext, DataOption, OptionError, OptionKind, OptionValue};
use orion_bot::framework::meta::{
    ChoiceValue, CommandMeta, CommandOptionBuilder, ContextType, IntegrationType, OptionBound,
};
use orion_bot::framework::registry::{plan_registration, CommandRegistry};
use orion_bot::framework::reply::{defer_flags, message_data, AllowedMentions, Embed, Reply};
use orion_bot::framework::result::CommandError;
use orion_bot::orion_api::client::{api_url, credits_path, error_from_response, user_path, OrionError, BASE_URL};
use orion_bot::orion_api::types::CreditTransactionType;

fn opt(name: &str, value: OptionValue) -> DataOption {
    DataOption { name: name.to_string(), value }
}

fn ctx(options: Vec<DataOption>) -> CommandContext {
    CommandContext::new(options, 42, Some(7), Some("fr".to_string()), Vec::new())
}

#[test]
fn api_urls_and_paths() {
    assert_eq!(api_url(BASE_URL, "status"), "https://api.orionhost.xyz/api/status");
    assert_eq!(user_path("123"), "users/123");
    assert_eq!(credits_path("123"), "users/123/credits");
}

#[test]
fn error_from_response_reads_the_json_message() {
    let e = error_from_response(404, r#"{"message":"User not found"}"#);
    match &e {
        OrionError::Api { status, message } => {
            assert_eq!(*status, 404);
            assert_eq!(message.as_deref(), Some("User not found"));
        }
        _ => panic!("expected an API error"),
    }
    assert!(e.is_not_found());
    assert_eq!(e.to_text(), "API error 404: User not found");
}

#[test]
fn error_from_response_without_a_message() {
    let e = error_from_response(500, "Internal Server Error");
    assert!(matches!(e, OrionError::Api { status: 500, message: None }));
    assert!(!e.is_not_found());
    assert_eq!(e.to_text(), "API error 500");
    let e = error_from_response(400, r#"{"message": 12}"#);
    assert!(matches!(e, OrionError::Api { status: 400, message: None }));
    let e = error_from_response(401, r#"{"error":"x"}"#);
    assert!(matches!(e, OrionError::Api { status: 401, message: None }));
}

#[test]
fn http_error_text() {
    let e = OrionError::Http("connection closed".to_string());
    assert_eq!(e.to_text(), "HTTP error: connection closed");
    assert!(!e.is_not_found());
}

#[test]
fn credit_kind_numbers_round_trip() {
    for n in 0u8..=7 {
        let k = CreditTransactionType::from_number(n).unwrap();
        assert_eq!(k.number(), n);
    }
    assert_eq!(CreditTransactionType::from_number(0), Some(CreditTransactionType::Custom));
    assert_eq!(CreditTransactionType::from_number(7), Some(CreditTransactionType::DiscordBoost));
    assert_eq!(CreditTransactionType::from_number(8), None);
    assert_eq!(CreditTransactionType::from_number(255), None);
}

#[test]
fn command_error_texts() {
    assert_eq!(CommandError::Anyhow("boom".to_string()).to_text(), "boom");
    assert_eq!(CommandError::Permission("ban".to_string()).to_text(), "Permission: ban");
    assert_eq!(CommandError::Message("hi".to_string(), false).to_text(), "Message: hi");
    assert_eq!(CommandError::NotOwner.to_text(), "The user is not an owner");
    assert_eq!(OptionError::Missing("user").to_text(), "missing required option `user`");
    assert_eq!(OptionError::WrongType("amount").to_text(), "option `amount` had an unexpected type");
    match CommandError::from_option_error(OptionError::Missing("type")) {
        CommandError::Anyhow(msg) => assert_eq!(msg, "missing required option `type`"),
        other => panic!("unexpected {other:?}"),
    }
}

#[test]
fn registry_later_command_replaces_earlier() {
    let reg = CommandRegistry::new(vec![
        ("help".to_string(), 1u32),
        ("ping".to_string(), 2u32),
        ("help".to_string(), 3u32),
    ]);
    assert_eq!(reg.get("help"), Some(&3));
    assert_eq!(reg.get("ping"), Some(&2));
    assert_eq!(reg.get("docs"), None);
    let mut all: Vec<(String, u32)> = reg.all().into_iter().map(|(n, c)| (n.to_string(), *c)).collect();
    all.sort();
    assert_eq!(all, vec![("help".to_string(), 3), ("ping".to_string(), 2)]);
}

#[test]
fn registration_plan_groups_guild_commands() {
    let plan = plan_registration(&vec![None, Some(vec![10, 20]), None, Some(vec![20])]);
    assert_eq!(plan.global, vec![0, 2]);
    let mut guilds = plan.guilds.clone();
    guilds.sort();
    assert_eq!(guilds, vec![(10, vec![1]), (20, vec![1, 3])]);
}

#[test]
fn registration_plan_of_global_commands_only() {
    let plan = plan_registration(&vec![None, None]);
    assert_eq!(plan.global, vec![0, 1]);
    assert!(plan.guilds.is_empty());
}

#[test]
fn option_getters_read_the_subcommand_options() {
    let c = ctx(vec![opt(
        "credits-add",
        OptionValue::SubCommand(vec![
            opt("user", OptionValue::User(99)),
            opt("amount", OptionValue::Integer(-5)),
            opt("reason", OptionValue::String("gift".to_string())),
            opt("flag", OptionValue::Boolean(true)),
        ]),
    )]);
    assert_eq!(c.get_subcommand(), Some("credits-add"));
    assert_eq!(c.get_subcommand_group(), None);
    assert_eq!(c.get_user_option("user"), Some(99));
    assert_eq!(c.get_integer_option("amount"), Some(-5));
    assert_eq!(c.get_string_option("reason"), Some("gift"));
    assert_eq!(c.get_boolean_option("flag"), Some(true));
    assert_eq!(c.get_string_option("amount"), None);
    assert!(matches!(c.require_integer_option("missing"), Err(OptionError::Missing("missing"))));
    assert_eq!(c.require_user_option("user").unwrap(), 99);
    assert_eq!(c.user_id(), 42);
    assert_eq!(c.guild_id(), Some(7));
}

#[test]
fn option_getters_read_a_group() {
    let c = ctx(vec![opt(
        "admin",
        OptionValue::SubCommandGroup(vec![opt(
            "set",
            OptionValue::SubCommand(vec![opt("channel", OptionValue::Channel(5))]),
        )]),
    )]);
    assert_eq!(c.get_subcommand_group(), Some("admin"));
    assert_eq!(c.get_subcommand(), Some("set"));
    assert_eq!(c.get_channel_option("channel"), Some(5));
}

#[test]
fn focused_option_of_autocomplete() {
    let c = ctx(vec![
        opt("page", OptionValue::Focused("fr/start".to_string(), OptionKind::String)),
        opt("other", OptionValue::String("x".to_string())),
    ]);
    let (name, raw, kind) = c.get_focused_option().unwrap();
    assert_eq!((name, raw, kind), ("page", "fr/start", OptionKind::String));
    assert_eq!(c.get_focused_string(), Some("fr/start"));
    let c = ctx(vec![opt("n", OptionValue::Focused("12".to_string(), OptionKind::Integer))]);
    assert_eq!(c.get_focused_string(), None);
    let c = ctx(vec![opt("n", OptionValue::String("12".to_string()))]);
    assert!(c.get_focused_option().is_none());
}

#[test]
fn initial_response_is_claimed_once() {
    let mut c = ctx(Vec::new());
    assert!(!c.has_sent_initial_response());
    assert!(c.claim_initial_response().is_ok());
    assert!(c.has_sent_initial_response());
    assert!(c.claim_initial_response().is_err());
    assert!(c.claim_initial_response().is_err());
}

#[test]
fn reply_flags() {
    let r = Reply::new();
    assert_eq!(r.flags, 0);
    assert!(r.content.is_none());
    let r = Reply::new().ephemeral(true);
    assert_eq!(r.flags, 64);
    let r = r.components_v2(Vec::new());
    assert_eq!(r.flags, 64 | 32768);
    let r = r.ephemeral(false);
    assert_eq!(r.flags, 32768);
    assert_eq!(defer_flags(true), 64);
    assert_eq!(defer_flags(false), 0);
}

#[test]
fn message_data_sends_only_present_parts() {
    let data = message_data(Reply::new().content("hi".to_string()));
    assert_eq!(data.content.as_deref(), Some("hi"));
    assert!(data.embeds.is_none());
    assert!(data.components.is_none());
    assert!(!data.allowed_mentions.everyone && !data.allowed_mentions.replied_user);
    let r = Reply {
        content: None,
        embeds: vec![Embed { color: Some(1), title: None, description: None }],
        components: Vec::new(),
        flags: 64,
        allowed_mentions: None,
    };
    let data = message_data(r);
    assert_eq!(data.flags, 64);
    assert_eq!(data.embeds.map(|e| e.len()), Some(1));
    assert!(data.allowed_mentions.users.is_empty());
    let r = Reply::new().allowed_mentions(AllowedMentions {
        everyone: true,
        roles: vec![],
        users: vec![3],
        replied_user: true,
    });
    let data = message_data(r);
    assert!(data.allowed_mentions.everyone);
    assert_eq!(data.allowed_mentions.users, vec![3]);
}

#[test]
fn command_meta_builder_defaults_and_setters() {
    let meta = CommandMeta::builder("user", "Get a user's Orion account info".to_string())
        .category("Private")
        .owner_only(true)
        .guilds(vec![1306734190238371860])
        .options(vec![CommandOptionBuilder::user("user".to_string(), "The user to look up".to_string()).required(true)])
        .build();
    assert_eq!(meta.name, "user");
    assert_eq!(meta.category, "Private");
    assert!(meta.owner_only);
    assert_eq!(meta.guilds, Some(vec![1306734190238371860]));
    assert_eq!(meta.installations, vec![IntegrationType::GuildInstall]);
    assert_eq!(meta.contexts, vec![ContextType::Guild]);
    assert_eq!(meta.options.len(), 1);
    assert_eq!(meta.options[0].kind, OptionKind::User);
    assert_eq!(meta.options[0].required, Some(true));
    let default = CommandMeta::builder("x", "y".to_string()).build();
    assert_eq!(default.category, "general");
    assert!(!default.owner_only);
    assert!(default.guilds.is_none());
}

#[test]
fn command_option_choices_and_bounds() {
    let o = CommandOptionBuilder::integer("type".to_string(), "Kind".to_string())
        .add_choice_int("Custom".to_string(), 0)
        .add_choice_int("Giveaway".to_string(), 1)
        .min_value_int(0)
        .max_value_int(7)
        .build();
    let choices = o.choices.unwrap();
    assert_eq!(choices.len(), 2);
    assert_eq!(choices[1].name, "Giveaway");
    assert!(matches!(choices[1].value, ChoiceValue::Integer(1)));
    assert_eq!(o.min_value, Some(OptionBound::Integer(0)));
    assert_eq!(o.max_value, Some(OptionBound::Integer(7)));
    let s = CommandOptionBuilder::string("page".to_string(), "Page".to_string())
        .autocomplete(true)
        .min_length(1)
        .max_length(100)
        .add_choice_string("Home".to_string(), "home".to_string())
        .build();
    assert_eq!(s.autocomplete, Some(true));
    assert_eq!(s.min_length, Some(1));
    assert_eq!(s.max_length, Some(100));
    assert!(matches!(&s.choices.unwrap()[0].value, ChoiceValue::String(v) if v == "home"));
    let sub = CommandOptionBuilder::subcommand("credits-add".to_string(), "Add".to_string())
        .option(CommandOptionBuilder::user("user".to_string(), "User".to_string()))
        .build();
    assert_eq!(sub.kind, OptionKind::SubCommand);
    assert_eq!(sub.options.unwrap().len(), 1);
}

#[test]
fn defaults_and_conversions() {
    let r = Reply::default();
    assert_eq!(r.flags, 0);
    assert!(r.content.is_none() && r.embeds.is_empty() && r.components.is_empty());
    let o: orion_bot::framework::meta::CommandOption =
        CommandOptionBuilder::boolean("flag".to_string(), "A flag".to_string()).required(false).into();
    assert_eq!(o.kind, OptionKind::Boolean);
    assert_eq!(o.required, Some(false));
    let c = orion_bot::builders::container::ContainerBuilder::default().build();
    assert!(c.components.is_empty());
    assert_eq!(c.accent_color, None);
    let b = orion_bot::builders::button::ButtonBuilder::default().build();
    assert!(b.label.is_none());
}
