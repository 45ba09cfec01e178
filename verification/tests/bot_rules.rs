use orion_bot::bot::chatbot::{
    api_error_action, build_history, build_system_prompt, chatbot_reply_layout, keep_link_or_text,
    should_handle, strip_self_mention, truncate_to_chars, ApiErrorAction, HistoryMessage, MessageKind,
    PROMPT_HEAD,
};
use orion_bot::bot::commands::{
    amount_updated_text, available_servers_text, credits_added_text, credits_failed_text, ConfigAction,
    ConfigCommand, REASON_NEEDED, REASON_REFUSED,
};
use orion_bot::bot::config::{Color, Config, Emojis, Palette};
use orion_bot::bot::docs::{
    autocomplete_choices, docs_list_for_prompt, fetch_docs_target, find_page, is_suggested, mdx_url, page_choice,
    page_reply, reading_embed, DocPage, FetchDocsArgs, ALREADY_FETCHED, NO_SITEMAP, PAGE_NOT_FOUND,
};
use orion_bot::bot::interaction::{
    dispatch, error_response, log_text, unknown_command_error, usage_log, warning_embed, Dispatch,
};
use orion_bot::bot::localization::{from_discord_locale, get_discord_locale, get_docs_locale, localize_key, Locale};
use orion_bot::bot::status::{
    build_status_container, classify_ping, find_status_message, service_lines, PingOutcome,
};
use orion_bot::builders::component::{ButtonEmoji, ButtonStyle, Component};
use orion_bot::framework::context::{CommandContext, DataOption, OptionValue};
use orion_bot::framework::meta::ChoiceValue;
use orion_bot::framework::result::CommandError;
use orion_bot::orion_api::types::CreditTransactionType;

fn page(name: &str, url: &str, description: &str, lang: &str) -> DocPage {
    DocPage {
        name: name.to_string(),
        url: url.to_string(),
        description: description.to_string(),
        lang: lang.to_string(),
    }
}

fn sitemap() -> Vec<DocPage> {
    vec![
        page("Démarrer", "https://docs.orionhost.xyz/fr/start", "Premiers pas", "fr"),
        page("Getting started", "https://docs.orionhost.xyz/en/start", "First steps", "en"),
        page("Updated/12", "https://docs.orionhost.xyz/fr/changelog", "Notes", "fr"),
        page("Domaines", "https://docs.orionhost.xyz/fr/domains", "Lier un domaine", "fr"),
    ]
}

fn sub(name: &str, options: Vec<DataOption>) -> CommandContext {
    CommandContext::new(
        vec![DataOption { name: name.to_string(), value: OptionValue::SubCommand(options) }],
        1,
        None,
        None,
        Vec::new(),
    )
}

fn opt(name: &str, value: OptionValue) -> DataOption {
    DataOption { name: name.to_string(), value }
}

#[test]
fn locale_codes_round_trip() {
    for l in Locale::all() {
        assert_eq!(from_discord_locale(get_discord_locale(&l)), l);
    }
    assert_eq!(get_discord_locale(&Locale::En), "en-US");
    assert_eq!(from_discord_locale("en-GB"), Locale::En);
    assert_eq!(from_discord_locale("es-419"), Locale::Es);
    assert_eq!(from_discord_locale("ja"), Locale::En);
    assert_eq!(get_docs_locale(&Locale::Fr), "fr");
    assert_eq!(get_docs_locale(&Locale::De), "en");
}

#[test]
fn localize_key_gives_each_locale_its_code() {
    let res = localize_key(|l: Locale| format!("{l:?}!"));
    let codes: Vec<&str> = res.iter().map(|(c, _)| c.as_str()).collect();
    assert_eq!(codes, vec!["de", "en-US", "es-ES", "fr", "lt"]);
    assert_eq!(res[3].1, "Fr!");
}

#[test]
fn owners_and_colors() {
    assert!(Config::is_bot_owner(619838036846575617));
    assert!(Config::is_bot_owner(755054105713704960));
    assert!(!Config::is_bot_owner(1));
    assert_eq!(Color::new(Palette::PRIMARY).value, 0x5496ff);
}

#[test]
fn dispatch_checks_owners() {
    assert_eq!(dispatch(false, false, Some(1)), Dispatch::Unknown);
    assert_eq!(dispatch(true, true, Some(1)), Dispatch::NotOwner);
    assert_eq!(dispatch(true, true, None), Dispatch::NotOwner);
    assert_eq!(dispatch(true, true, Some(619838036846575617)), Dispatch::Run);
    assert_eq!(dispatch(true, false, None), Dispatch::Run);
}

#[test]
fn error_responses() {
    let r = error_response(&CommandError::Permission("x".to_string()), "owners only", "oops");
    assert_eq!(r.flags, 64);
    assert_eq!(r.embeds.len(), 1);
    assert_eq!(r.embeds[0].color, Some(Palette::RED));
    assert_eq!(r.embeds[0].description.as_deref(), Some(":x: Missing Permissions!"));
    let r = error_response(&CommandError::NotOwner, "owners only", "oops");
    assert_eq!(r.embeds[0].description.as_deref(), Some(":x: owners only"));
    let r = error_response(&CommandError::Anyhow("db down".to_string()), "owners only", "oops");
    assert_eq!(r.embeds[0].description.as_deref(), Some(":x: oops"));
    let e = unknown_command_error("nope");
    let r = error_response(&e, "owners only", "oops");
    assert_eq!(r.embeds[0].description.as_deref(), Some(":x: Unknown command: `nope`"));
    assert!(matches!(e, CommandError::Message(_, true)));
}

#[test]
fn log_lines() {
    assert_eq!(usage_log("alice", 12, "ping"), "`alice (12)` has used `/ping`");
    assert_eq!(log_text("hello"), "`[LOG]` hello");
    let long = "é".repeat(3000);
    assert_eq!(log_text(&long).chars().count(), 2000);
    let w = warning_embed(&"w".repeat(5000));
    assert_eq!(w.color, Some(Palette::ORANGE));
    assert_eq!(w.title.as_deref(), Some("Warning"));
    assert_eq!(w.description.unwrap().len(), 4096);
}

#[test]
fn config_plan_reads_credits_add() {
    let c = sub(
        "credits-add",
        vec![
            opt("user", OptionValue::User(5)),
            opt("type", OptionValue::Integer(1)),
            opt("amount", OptionValue::Integer(100)),
            opt("reason", OptionValue::String("  thanks  ".to_string())),
        ],
    );
    match ConfigCommand::plan(&c) {
        Ok(ConfigAction::AddCredits { user_id, body, warning }) => {
            assert_eq!(user_id, 5);
            assert_eq!(body.kind, CreditTransactionType::Giveaway);
            assert_eq!(body.amount, 100);
            assert_eq!(body.reason.as_deref(), Some("thanks"));
            assert_eq!(warning, Some(REASON_REFUSED));
        }
        other => panic!("unexpected {other:?}"),
    }
}

#[test]
fn config_plan_custom_without_reason_warns() {
    let c = sub(
        "credits-add",
        vec![
            opt("user", OptionValue::User(5)),
            opt("type", OptionValue::Integer(42)),
            opt("amount", OptionValue::Integer(-3)),
        ],
    );
    match ConfigCommand::plan(&c) {
        Ok(ConfigAction::AddCredits { body, warning, .. }) => {
            assert_eq!(body.kind, CreditTransactionType::Custom);
            assert!(body.reason.is_none());
            assert_eq!(warning, Some(REASON_NEEDED));
        }
        other => panic!("unexpected {other:?}"),
    }
}

#[test]
fn config_plan_missing_options() {
    let c = sub("credits-add", vec![opt("amount", OptionValue::Integer(1))]);
    match ConfigCommand::plan(&c) {
        Err(CommandError::Anyhow(msg)) => assert_eq!(msg, "missing required option `user`"),
        other => panic!("unexpected {other:?}"),
    }
    let c = sub("set-available-servers", vec![]);
    match ConfigCommand::plan(&c) {
        Err(CommandError::Anyhow(msg)) => assert_eq!(msg, "missing required option `amount`"),
        other => panic!("unexpected {other:?}"),
    }
}

#[test]
fn config_plan_other_subcommands() {
    assert!(matches!(ConfigCommand::plan(&sub("get-available-servers", vec![])), Ok(ConfigAction::GetAvailableServers)));
    match ConfigCommand::plan(&sub("set-available-servers", vec![opt("amount", OptionValue::Integer(12))])) {
        Ok(ConfigAction::SetAvailableServers { amount, body }) => {
            assert_eq!(amount, 12);
            assert_eq!(body.available_free_servers, Some(12));
            assert_eq!(body.maintenance_mode, None);
        }
        other => panic!("unexpected {other:?}"),
    }
    assert!(matches!(ConfigCommand::plan(&sub("other", vec![])), Ok(ConfigAction::Nothing)));
}

#[test]
fn config_answers() {
    assert_eq!(available_servers_text(3), "Available free servers: 3");
    assert_eq!(amount_updated_text(-1), "Amount updated. New value: -1");
    assert_eq!(credits_added_text(250, "tx1"), "Credits added, the user has now 250 credits. Transaction ID: tx1");
    assert_eq!(credits_failed_text(400, Some("bad")), "Failed to add credits: bad (status: 400)");
    assert_eq!(credits_failed_text(500, None), "Failed to add credits: no message (status: 500)");
}

#[test]
fn docs_page_choice_and_lookup() {
    assert_eq!(page_choice(None, &Locale::Fr), "https://docs.orionhost.xyz/fr");
    assert_eq!(page_choice(None, &Locale::Lt), "https://docs.orionhost.xyz/en");
    assert_eq!(page_choice(Some("x"), &Locale::Fr), "x");
    let pages = sitemap();
    assert_eq!(find_page(&pages, "https://docs.orionhost.xyz/fr/domains"), Some(3));
    assert_eq!(find_page(&pages, "https://docs.orionhost.xyz/nope"), None);
}

#[test]
fn docs_page_reply() {
    let pages = sitemap();
    let r = page_reply(Some(&pages[0]), "invalid");
    assert_eq!(
        r.content.as_deref(),
        Some("**<:_:1479652366092599456> [Démarrer](https://docs.orionhost.xyz/fr/start) **\nPremiers pas")
    );
    assert_eq!(r.flags, 0);
    let r = page_reply(None, "invalid");
    assert_eq!(r.content.as_deref(), Some(":x: invalid"));
    assert_eq!(r.flags, 64);
}

#[test]
fn docs_autocomplete_skips_changelogs_and_ignores_case() {
    let pages = sitemap();
    let choices = autocomplete_choices(&pages, "D");
    let names: Vec<&str> = choices.iter().map(|c| c.name.as_str()).collect();
    assert_eq!(names, vec!["fr - Démarrer", "en - Getting started", "fr - Domaines"]);
    assert!(matches!(&choices[2].value, ChoiceValue::String(u) if u == "https://docs.orionhost.xyz/fr/domains"));
    let many: Vec<DocPage> = (0..40).map(|i| page(&format!("Page {i}"), &format!("u{i}"), "", "en")).collect();
    assert_eq!(autocomplete_choices(&many, "page").len(), 25);
}

#[test]
fn docs_list_for_the_prompt() {
    let list = docs_list_for_prompt(&sitemap());
    assert_eq!(
        list,
        "- [Démarrer](/fr/start): Premiers pas\n\n- [Updated/12](/fr/changelog): Notes\n\n- [Domaines](/fr/domains): Lier un domaine"
    );
    assert_eq!(docs_list_for_prompt(&Vec::new()), "");
}

#[test]
fn fetch_docs_tool_decisions() {
    let pages = sitemap();
    let args = FetchDocsArgs { url: "https://docs.orionhost.xyz/fr/domains".to_string() };
    assert_eq!(fetch_docs_target(false, Some(&pages), &args).unwrap(), 3);
    assert_eq!(fetch_docs_target(true, Some(&pages), &args).unwrap_err().0, ALREADY_FETCHED);
    assert_eq!(fetch_docs_target(false, None, &args).unwrap_err().0, NO_SITEMAP);
    let missing = FetchDocsArgs { url: "https://docs.orionhost.xyz/x".to_string() };
    assert_eq!(fetch_docs_target(false, Some(&pages), &missing).unwrap_err().0, PAGE_NOT_FOUND);
    assert_eq!(mdx_url("https://docs.orionhost.xyz/fr/start"), "https://docs.orionhost.xyz/fr/start.mdx");
    let e = reading_embed();
    assert_eq!(e.color, Some(Palette::GREEN));
    assert_eq!(e.description.as_deref(), Some("<a:_:1479652276573438003> Reading the documentation..."));
}

#[test]
fn system_prompt_and_history() {
    assert_eq!(build_system_prompt("docs", ""), format!("{PROMPT_HEAD}docs"));
    assert_eq!(build_system_prompt("docs", "@a: b\n"), format!("{PROMPT_HEAD}docs\n# Conversation history\n@a: b\n"));
    let msgs = vec![
        HistoryMessage { author: "bob".to_string(), content: "hi".to_string() },
        HistoryMessage { author: "eve".to_string(), content: "".to_string() },
        HistoryMessage { author: "amy".to_string(), content: "yo".to_string() },
    ];
    assert_eq!(build_history(&msgs), "@bob: hi\n@amy: yo\n");
}

#[test]
fn history_keeps_at_most_ten_lines_and_the_budget() {
    let msgs: Vec<HistoryMessage> =
        (0..15).map(|i| HistoryMessage { author: format!("u{i}"), content: "x".to_string() }).collect();
    assert_eq!(build_history(&msgs).lines().count(), 10);
    let big = vec![
        HistoryMessage { author: "a".to_string(), content: "y".repeat(2000) },
        HistoryMessage { author: "b".to_string(), content: "z".to_string() },
    ];
    assert_eq!(build_history(&big), format!("@a: {}\n", "y".repeat(2000)));
    let two = vec![
        HistoryMessage { author: "a".to_string(), content: "y".repeat(1000) },
        HistoryMessage { author: "b".to_string(), content: "z".repeat(500) },
    ];
    assert_eq!(build_history(&two), format!("@a: {}\n", "y".repeat(1000)));
}

#[test]
fn chatbot_should_handle() {
    let all = Some(1024 | 2048 | 16384 | 8);
    assert!(should_handle(10, 10, false, false, all, MessageKind::Regular, false));
    assert!(!should_handle(11, 10, false, false, all, MessageKind::Regular, false));
    assert!(!should_handle(10, 10, true, false, all, MessageKind::Regular, false));
    assert!(!should_handle(10, 10, false, true, all, MessageKind::Regular, false));
    assert!(!should_handle(10, 10, false, false, Some(1024 | 2048), MessageKind::Regular, false));
    assert!(!should_handle(10, 10, false, false, None, MessageKind::Regular, false));
    assert!(should_handle(10, 10, false, false, all, MessageKind::Reply, true));
    assert!(!should_handle(10, 10, false, false, all, MessageKind::Reply, false));
    assert!(!should_handle(10, 10, false, false, all, MessageKind::Other, true));
}

#[test]
fn chatbot_api_errors() {
    assert!(matches!(api_error_action("status 503 overloaded", 100, 0), (ApiErrorAction::React, 0)));
    assert!(matches!(api_error_action("429 too many", 100, 0), (ApiErrorAction::Notify, 100)));
    assert!(matches!(api_error_action("429 too many", 100, 40), (ApiErrorAction::Ignore, 40)));
    assert!(matches!(api_error_action("429 too many", 100, 39), (ApiErrorAction::Notify, 100)));
    match api_error_action("bad key", 5, 5) {
        (ApiErrorAction::Fail(msg), 5) => assert_eq!(msg, "Chatbot API error: bad key"),
        other => panic!("unexpected {other:?}"),
    }
    assert!(matches!(api_error_action("503 and 429", 5, 90), (ApiErrorAction::React, 90)));
    assert!(matches!(api_error_action("bad key", 5, 90), (ApiErrorAction::Fail(_), 90)));
}

#[test]
fn chatbot_cleans_answers() {
    assert_eq!(keep_link_or_text("[a](a)", Some("a"), Some("a")), "a");
    assert_eq!(keep_link_or_text("[a](b)", Some("a"), Some("b")), "[a](b)");
    assert_eq!(keep_link_or_text("[a](a)", Some("a"), None), "[a](a)");
    assert_eq!(
        strip_self_mention("@Orion Hosting: see [https://x.y](https://x.y) and [docs](https://d)  ").unwrap(),
        "see https://x.y and [docs](https://d)"
    );
    assert_eq!(strip_self_mention("Content:   hello").unwrap(), "hello");
    assert_eq!(strip_self_mention("Orion Hosting: hi").unwrap(), "hi");
    assert_eq!(strip_self_mention("@bob.smith: hey").unwrap(), "hey");
    assert_eq!(strip_self_mention("plain").unwrap(), "plain");
    assert_eq!(strip_self_mention("say Content: here").unwrap(), "say Content: here");
    assert_eq!(strip_self_mention("  [x](x)  ").unwrap(), "x");
    assert_eq!(truncate_to_chars("héllo", 3), "hél");
    assert_eq!(truncate_to_chars("abc", 10), "abc");
}

#[test]
fn chatbot_reply_layouts() {
    let short = chatbot_reply_layout("hello", None);
    assert_eq!(short.content.as_deref(), Some("hello"));
    assert!(short.components.is_empty());
    assert_eq!(short.flags, None);
    let long_text = "a".repeat(4500);
    let long = chatbot_reply_layout(&long_text, Some(("Guide".to_string(), "https://d/g".to_string())));
    assert!(long.content.is_none());
    assert_eq!(long.flags, Some(32768));
    assert_eq!(long.components.len(), 2);
    match &long.components[0] {
        Component::TextDisplay(t) => assert_eq!(t.content.len(), 4000),
        other => panic!("unexpected {other:?}"),
    }
    match &long.components[1] {
        Component::ActionRow(row) => match &row.components[0] {
            Component::Button(b) => {
                assert_eq!(b.label.as_deref(), Some("Source - Guide"));
                assert_eq!(b.url.as_deref(), Some("https://d/g"));
                assert_eq!(b.style, ButtonStyle::Link);
                assert!(matches!(&b.emoji, Some(ButtonEmoji::Unicode { name }) if name == "🔗"));
            }
            other => panic!("unexpected {other:?}"),
        },
        other => panic!("unexpected {other:?}"),
    }
    let exactly = "b".repeat(2000);
    assert_eq!(chatbot_reply_layout(&exactly, None).content.as_deref(), Some(exactly.as_str()));
}

#[test]
fn status_pings() {
    assert_eq!(classify_ping(&PingOutcome::Answered, 12), Some(12));
    assert_eq!(classify_ping(&PingOutcome::Failed("tcp connect error: connection refused".to_string()), 7), Some(7));
    assert_eq!(classify_ping(&PingOutcome::Failed("dns error".to_string()), 7), None);
    assert_eq!(classify_ping(&PingOutcome::TimedOut, 7), None);
}

#[test]
fn status_lines_and_container() {
    let lines = service_lines(&vec![("Orion Website", Some(12)), ("Node fr1", None)], "offline");
    assert_eq!(
        lines,
        format!("> {} Orion Website: `12ms`\n> {} Node fr1: `offline`", Emojis::ONLINE, Emojis::DND)
    );
    let c = build_status_container(Some(1), None, Some(2), Some(3), None, Some(4), 1000);
    assert_eq!(c.accent_color, Some(Some(Palette::PRIMARY)));
    assert_eq!(c.components.len(), 7);
    match &c.components[3] {
        Component::TextDisplay(t) => assert_eq!(t.content, "> Next update <t:1060:R>"),
        other => panic!("unexpected {other:?}"),
    }
    match &c.components[2] {
        Component::TextDisplay(t) => {
            assert_eq!(t.content.lines().count(), 6);
            assert!(t.content.contains("Orion Panel: `offline`"));
        }
        other => panic!("unexpected {other:?}"),
    }
}

#[test]
fn status_message_is_the_first_bot_message_with_layout_flag() {
    let msgs = vec![(5, Some(32768)), (9, None), (9, Some(64)), (9, Some(32768 | 64)), (9, Some(32768))];
    assert_eq!(find_status_message(&msgs, 9), Some(3));
    assert_eq!(find_status_message(&msgs, 7), None);
}

#[test]
fn suggestion_rule() {
    assert!(is_suggested("Démarrer", "démarrer", "dém"));
    assert!(!is_suggested("Démarrer", "démarrer", "DÉM"));
    assert!(!is_suggested("Updated/12", "updated/12", "up"));
    assert!(is_suggested("Updated/123", "updated/123", "up"));
    assert!(is_suggested("Anything", "anything", ""));
}

#[test]
fn emoji_texts_name_their_ids() {
    assert_eq!(Emojis::PROPERTY, format!("<:_:{}>", Emojis::PROPERTY_ID));
    assert_eq!(Emojis::LOADER_GREEN, format!("<a:_:{}>", Emojis::LOADER_GREEN_ID));
    assert_eq!(Emojis::LOGO, format!("<:_:{}>", Emojis::LOGO_ID));
    assert_eq!(Emojis::DISCORD, format!("<:_:{}>", Emojis::DISCORD_ID));
    assert_eq!(Emojis::ONLINE, format!("<:_:{}>", Emojis::ONLINE_ID));
    assert_eq!(Emojis::DND, format!("<:_:{}>", Emojis::DND_ID));
}
