use orion_bot::bot::cards::{
    account_answer, card_reply, help_card, ping_card, pinging_card, timestamp_secs, user_card,
    user_lookup_answer, AccountTexts, HelpTexts, PingLatencies, PingTexts,
};
use orion_bot::bot::config::{Config, Emojis, Palette};
use orion_bot::bot::panels::{build_links_components, build_rules_components, panel_kind, PanelKind};
use orion_bot::bot::troubleshoot::{
    build_troubleshoot_menu, get_crash_node_data, get_inaccessible_node_data, get_node_data, parent_path,
    selected_path, NodeData, TroubleshootText, TroubleshootTexts,
};
use orion_bot::builders::action_row::ActionRowBuilder;
use orion_bot::builders::button::ButtonBuilder;
use orion_bot::builders::component::{ButtonEmoji, ButtonStyle, Component, Container, SeparatorSpacing};
use orion_bot::builders::container::ContainerBuilder;
use orion_bot::builders::media_gallery::MediaGalleryBuilder;
use orion_bot::builders::section::SectionBuilder;
use orion_bot::builders::select_menu::{StringSelectMenuBuilder, StringSelectMenuOptionBuilder};
use orion_bot::builders::separator::SeparatorBuilder;
use orion_bot::builders::text_display::TextDisplayBuilder;
use orion_bot::framework::result::CommandError;
use orion_bot::orion_api::client::OrionError;
use orion_bot::orion_api::types::OrionUser;

fn text_of(c: &Component) -> &str {
    match c {
        Component::TextDisplay(t) => t.content.as_str(),
        other => panic!("not a text display: {other:?}"),
    }
}

fn tr(k: TroubleshootText) -> String {
    format!("{k:?}")
}

fn texts() -> TroubleshootTexts {
    TroubleshootTexts::new(TroubleshootText::all().into_iter().map(tr).collect()).unwrap()
}

fn user() -> OrionUser {
    OrionUser {
        id: "u1".to_string(),
        panel_id: 12,
        discord_id: "99".to_string(),
        last_login_at: 1_700_000_000_999,
        username: "alice".to_string(),
        credits: -5,
        referral_code: "ALICE".to_string(),
        referral_usage: 3,
        referral_gains: 30,
    }
}

fn account_texts() -> AccountTexts {
    AccountTexts {
        your_account: "Your account".to_string(),
        dashboard: "Dashboard".to_string(),
        panel: "Panel".to_string(),
        guide: "Create one".to_string(),
        create_account: "Create account".to_string(),
    }
}

#[test]
fn button_builder_defaults_and_setters() {
    let b = ButtonBuilder::new().build();
    assert_eq!(b.style, ButtonStyle::Primary);
    assert!(b.url.is_none() && b.label.is_none() && !b.disabled);
    let b = ButtonBuilder::new()
        .link("https://x".to_string())
        .label("Go".to_string())
        .custom_emoji(5, true)
        .build();
    assert_eq!(b.style, ButtonStyle::Link);
    assert_eq!(b.url.as_deref(), Some("https://x"));
    assert!(matches!(b.emoji, Some(ButtonEmoji::Custom { animated: true, id: 5 })));
    let b = ButtonBuilder::new().danger().custom_id("del".to_string()).disabled(true).build();
    assert_eq!(b.style, ButtonStyle::Danger);
    assert_eq!(b.custom_id.as_deref(), Some("del"));
    assert!(b.disabled);
    let b = ButtonBuilder::new().premium(77).build();
    assert_eq!(b.style, ButtonStyle::Premium);
    assert_eq!(b.sku_id, Some(77));
}

#[test]
fn container_builder_keeps_the_order_of_components() {
    let c = ContainerBuilder::new()
        .accent_color(Palette::PRIMARY)
        .add_text_display(|d| d.content("hello".to_string()))
        .add_media_gallery(|m| m.add_item_from_url(Config::BANNER_URL.to_string()))
        .add_separator(|s| s.divider(false).spacing(SeparatorSpacing::Small))
        .add_action_row(|r| r.add_button(|b| b.link("https://a".to_string()).label("A".to_string())))
        .add_section(|s| s.add_text_display(|d| d.content("sec".to_string())).set_thumbnail_accessory("https://t".to_string()))
        .build();
    assert_eq!(c.accent_color, Some(Some(Palette::PRIMARY)));
    assert_eq!(c.spoiler, Some(false));
    assert_eq!(c.components.len(), 5);
    assert_eq!(text_of(&c.components[0]), "hello");
    match &c.components[1] {
        Component::MediaGallery(g) => {
            assert_eq!(g.items.len(), 1);
            assert_eq!(g.items[0].url, Config::BANNER_URL);
        }
        other => panic!("unexpected {other:?}"),
    }
    match &c.components[2] {
        Component::Separator(s) => {
            assert_eq!(s.divider, Some(false));
            assert_eq!(s.spacing, Some(SeparatorSpacing::Small));
        }
        other => panic!("unexpected {other:?}"),
    }
    assert!(matches!(&c.components[3], Component::ActionRow(r) if r.components.len() == 1));
    match &c.components[4] {
        Component::Section(s) => {
            assert_eq!(s.components.len(), 1);
            assert!(matches!(&*s.accessory, Component::Thumbnail(t) if t.url == "https://t"));
        }
        other => panic!("unexpected {other:?}"),
    }
    let plain = ContainerBuilder::new().spoiler(true).build();
    assert_eq!(plain.accent_color, None);
    assert_eq!(plain.spoiler, Some(true));
}

#[test]
fn other_builders() {
    let t = TextDisplayBuilder::new().content("x".to_string()).build();
    assert_eq!(t.content, "x");
    let s = SeparatorBuilder::new().build();
    assert_eq!(s.divider, None);
    assert_eq!(s.spacing, None);
    let g = MediaGalleryBuilder::new()
        .add_item("https://i".to_string(), |i| i.description("d".to_string()).spoiler(true))
        .build();
    assert_eq!(g.items[0].url, "https://i");
    assert_eq!(g.items[0].description.as_deref(), Some("d"));
    assert_eq!(g.items[0].spoiler, Some(true));
    let sec = SectionBuilder::new()
        .add_text_display(|d| d.content("a".to_string()))
        .set_button_accessory(|b| b.link("https://b".to_string()))
        .build();
    assert!(matches!(&*sec.accessory, Component::Button(b) if b.url.as_deref() == Some("https://b")));
    let row = ActionRowBuilder::new()
        .add_select_menu(|m| {
            m.custom_id("menu".to_string())
                .placeholder("Pick".to_string())
                .min_values(1)
                .max_values(2)
                .add_option(|o| o.label("One".to_string()).value("1".to_string()).default(true))
        })
        .build();
    match &row.components[0] {
        Component::SelectMenu(m) => {
            assert_eq!(m.custom_id, "menu");
            assert_eq!(m.placeholder.as_deref(), Some("Pick"));
            assert_eq!(m.min_values, Some(1));
            assert_eq!(m.max_values, Some(2));
            assert_eq!(m.options.len(), 1);
            assert_eq!(m.options[0].value, "1");
            assert!(m.options[0].default);
        }
        other => panic!("unexpected {other:?}"),
    }
    let o = StringSelectMenuOptionBuilder::new().label("L".to_string()).value("v".to_string()).description("d".to_string()).build();
    assert_eq!(o.description.as_deref(), Some("d"));
    let m = StringSelectMenuBuilder::new().custom_id("c".to_string()).disabled(true).build();
    assert!(m.disabled);
}

#[test]
fn panels() {
    assert_eq!(panel_kind("links"), Some(PanelKind::Links));
    assert_eq!(panel_kind("rules"), Some(PanelKind::Rules));
    assert_eq!(panel_kind("other"), None);
    let links = build_links_components();
    assert_eq!(links.len(), 2);
    match &links[0] {
        Component::Container(c) => {
            assert_eq!(c.components.len(), 11);
            assert_eq!(text_of(&c.components[0]), format!("## {} Orion - Links", Emojis::LOGO));
        }
        other => panic!("unexpected {other:?}"),
    }
    let rules = build_rules_components();
    assert_eq!(rules.len(), 2);
    match &rules[0] {
        Component::Container(c) => assert_eq!(c.components.len(), 11),
        other => panic!("unexpected {other:?}"),
    }
}

#[test]
fn troubleshoot_parent_paths() {
    assert_eq!(parent_path("home"), None);
    assert_eq!(parent_path("home.options.crash.next").as_deref(), Some("home"));
    assert_eq!(
        parent_path("home.options.crash.next.options.port_in_use").as_deref(),
        Some("home.options.crash.next")
    );
    assert_eq!(parent_path("nothing"), None);
}

#[test]
fn troubleshoot_pages() {
    let home = get_node_data(&texts(), "home").unwrap();
    assert_eq!(home.title, "HomeTitle");
    assert_eq!(home.options.len(), 2);
    assert_eq!(home.options[0], ("home.options.crash.next", "CrashLabel".to_string()));
    let crash = get_crash_node_data(&texts(), "home.options.crash.next").unwrap();
    assert_eq!(crash.options.len(), 5);
    let leaf = get_node_data(&texts(), "home.options.crash.next.options.syntax_error").unwrap();
    assert_eq!(leaf.title, "## SyntaxErrorLabel");
    assert_eq!(leaf.message, "SyntaxErrorMessage");
    assert!(leaf.options.is_empty());
    let inacc = get_inaccessible_node_data(&texts(), "home.options.inaccessible.next").unwrap();
    assert_eq!(inacc.options.len(), 3);
    assert!(get_node_data(&texts(), "home.options.crash.next.options.nope").is_none());
    assert!(get_node_data(&texts(), "elsewhere").is_none());
    let empty = NodeData::new().title("t".to_string()).message("m".to_string()).options(vec![("p", "l".to_string())]);
    assert_eq!(empty.options.len(), 1);
}

#[test]
fn troubleshoot_menu() {
    let r = build_troubleshoot_menu(&texts(), "home.options.inaccessible.next").unwrap();
    assert_eq!(r.flags, 32768 | 64);
    match &r.components[0] {
        Component::Container(c) => {
            assert_eq!(text_of(&c.components[0]), "**InaccessibleTitle**\nInaccessibleMessage");
            match &c.components[1] {
                Component::ActionRow(row) => match &row.components[0] {
                    Component::SelectMenu(m) => {
                        assert_eq!(m.custom_id, "troubleshoot-select");
                        assert_eq!(m.options.len(), 4);
                        assert_eq!(m.options[3].value, "home");
                        assert_eq!(m.options[3].label, "Return");
                    }
                    other => panic!("unexpected {other:?}"),
                },
                other => panic!("unexpected {other:?}"),
            }
        }
        other => panic!("unexpected {other:?}"),
    }
    let home = build_troubleshoot_menu(&texts(), "home").unwrap();
    match &home.components[0] {
        Component::Container(c) => match &c.components[1] {
            Component::ActionRow(row) => match &row.components[0] {
                Component::SelectMenu(m) => assert_eq!(m.options.len(), 2),
                other => panic!("unexpected {other:?}"),
            },
            other => panic!("unexpected {other:?}"),
        },
        other => panic!("unexpected {other:?}"),
    }
    assert_eq!(
        build_troubleshoot_menu(&texts(), "bad").unwrap_err(),
        "Path 'bad' could not be resolved in troubleshoot menu"
    );
    assert_eq!(selected_path(&vec!["home.options.crash.next".to_string()]), "home.options.crash.next");
    assert_eq!(selected_path(&Vec::new()), "home");
}

#[test]
fn help_card_layout() {
    let t = HelpTexts {
        title: "Help".to_string(),
        hosting_title: "Hosting".to_string(),
        hosting_description: "Free servers".to_string(),
        create_free_server: "Create".to_string(),
        services_title: "Services".to_string(),
        website: "Website".to_string(),
        dashboard: "Dashboard".to_string(),
        panel: "Panel".to_string(),
        documentation: "Docs".to_string(),
        status: "Status".to_string(),
        join_support: "Join".to_string(),
        add_bot: "Add".to_string(),
    };
    let c = help_card(t);
    assert_eq!(c.components.len(), 9);
    assert_eq!(text_of(&c.components[0]), format!("## {} Orion - Help", Emojis::LOGO));
    assert_eq!(text_of(&c.components[2]), "### Hosting\n> Free servers");
    assert_eq!(
        text_of(&c.components[5]),
        "### Services\n> Website: https://orionhost.xyz\n> Dashboard: https://orionhost.xyz/dashboard\n> Panel: https://panel.orionhost.xyz\n> Docs: https://docs.orionhost.xyz\n> Status : https://status.orionhost.xyz"
    );
    assert_eq!(
        text_of(&c.components[7]),
        "### GitHubs\n> Orion Hosting: https://github.com/orionhosting\n> Orion Bot: https://github.com/orionhosting/orion-bot\n> Orion CLI: https://github.com/orionhosting/cli"
    );
    match &c.components[8] {
        Component::ActionRow(row) => {
            assert_eq!(row.components.len(), 2);
            assert!(matches!(&row.components[0], Component::Button(b) if b.url.as_deref() == Some(Config::SUPPORT_INVITE)));
        }
        other => panic!("unexpected {other:?}"),
    }
}

#[test]
fn ping_cards() {
    let c = pinging_card("Pinging...");
    assert_eq!(text_of(&c.components[0]), format!("{} Pinging...", Emojis::LOADER_GREEN));
    let t = PingTexts {
        services_title: "Services".to_string(),
        services_more: "More".to_string(),
        status_page: "Status page".to_string(),
        bot_title: "Bot".to_string(),
        offline: "Hors Ligne".to_string(),
    };
    let l = PingLatencies {
        domain: Some(10),
        panel: None,
        docs: Some(30),
        api: Some(40),
        fr1: None,
        gateway: None,
        discord_api: 120,
    };
    let c = ping_card(t, &l);
    assert_eq!(c.components.len(), 7);
    assert_eq!(text_of(&c.components[0]), format!("## {}  Services", Emojis::LOGO));
    let lines = text_of(&c.components[1]);
    assert_eq!(lines.lines().count(), 5);
    assert!(lines.contains("Orion Panel: `hors ligne`"));
    assert!(lines.contains("Orion Docs: `30ms`"));
    assert_eq!(text_of(&c.components[6]), "> Discord Gateway: `-1ms`\n> Discord API: `120ms`");
    let l2 = PingLatencies { gateway: Some(45), ..l };
    let t2 = PingTexts {
        services_title: String::new(),
        services_more: String::new(),
        status_page: String::new(),
        bot_title: String::new(),
        offline: "offline".to_string(),
    };
    let c2 = ping_card(t2, &l2);
    assert_eq!(text_of(&c2.components[6]), "> Discord Gateway: `45ms`\n> Discord API: `120ms`");
}

#[test]
fn account_answers() {
    let c = account_answer(Ok(user()), account_texts(), |n: i64| format!("You have {n} credits")).unwrap();
    assert_eq!(c.components.len(), 3);
    assert_eq!(text_of(&c.components[0]), format!("## {} Orion - Your account", Emojis::LOGO));
    assert_eq!(text_of(&c.components[1]), "You have -5 credits");
    let none = account_answer(
        Err(OrionError::Api { status: 404, message: None }),
        account_texts(),
        |n: i64| n.to_string(),
    )
    .unwrap();
    assert_eq!(text_of(&none.components[0]), format!("## {} Orion", Emojis::LOGO));
    assert_eq!(text_of(&none.components[1]), "Create one");
    match account_answer(Err(OrionError::Http("timeout".to_string())), account_texts(), |n: i64| n.to_string()) {
        Err(CommandError::Anyhow(msg)) => assert_eq!(msg, "HTTP error: timeout"),
        other => panic!("unexpected {other:?}"),
    }
}

#[test]
fn user_lookup_answers() {
    assert_eq!(timestamp_secs(1_700_000_000_999), 1_700_000_000);
    assert_eq!(timestamp_secs(-1999), -1);
    assert_eq!(timestamp_secs(0), 0);
    assert_eq!(timestamp_secs(i64::MIN), -9_223_372_036_854_775);
    let c: Container = user_card(&user());
    assert_eq!(text_of(&c.components[1]), "\n> Discord ID: `99`\n> Orion ID: `u1`\n> Panel ID: `12`");
    assert_eq!(text_of(&c.components[2]), "\n> Username: `alice`\n> Credits: `-5`");
    assert_eq!(
        text_of(&c.components[3]),
        "\n> Referral code: `ALICE`\n> Referral usage: `3`\n> Referral reward: `30` credits"
    );
    assert_eq!(text_of(&c.components[4]), "\n> Last dashboard login: <t:1700000000:R>");
    let r = user_lookup_answer(Ok(user())).unwrap();
    assert_eq!(r.flags, 32768);
    assert_eq!(r.components.len(), 1);
    let r = user_lookup_answer(Err(OrionError::Api { status: 404, message: Some("no".to_string()) })).unwrap();
    assert_eq!(r.content.as_deref(), Some("This user does not have an Orion account"));
    assert_eq!(r.flags, 0);
    match user_lookup_answer(Err(OrionError::Api { status: 500, message: Some("down".to_string()) })) {
        Err(CommandError::Anyhow(msg)) => assert_eq!(msg, "API error 500: down"),
        other => panic!("unexpected {other:?}"),
    }
    let reply = card_reply(user_card(&user()));
    assert!(reply.content.is_none());
}

#[test]
fn troubleshoot_menu_has_no_dead_ends() {
    let mut queue = vec!["home".to_string()];
    let mut seen = Vec::new();
    while let Some(path) = queue.pop() {
        if seen.contains(&path) {
            continue;
        }
        let page = get_node_data(&texts(), &path).unwrap_or_else(|| panic!("no page at {path}"));
        if let Some(parent) = parent_path(&path) {
            assert!(get_node_data(&texts(), &parent).is_some(), "no page at the parent of {path}");
        }
        for (next, _) in page.options {
            queue.push(next.to_string());
        }
        seen.push(path);
    }
    assert_eq!(seen.len(), 11);
}

#[test]
fn troubleshoot_options_lead_back() {
    let mut queue = vec!["home".to_string()];
    let mut seen = Vec::new();
    while let Some(path) = queue.pop() {
        if seen.contains(&path) {
            continue;
        }
        let page = get_node_data(&texts(), &path).unwrap();
        for (next, _) in page.options {
            assert!(get_node_data(&texts(), next).is_some(), "no page at {next}");
            assert_eq!(parent_path(next).as_deref(), Some(path.as_str()));
            queue.push(next.to_string());
        }
        seen.push(path);
    }
    assert_eq!(seen.len(), 11);
}

#[test]
fn troubleshoot_doubled_prefix_shows_the_submenu() {
    let doubled = "home.options.crash.nexthome.options.crash.next";
    let page = get_node_data(&texts(), doubled).unwrap();
    assert_eq!(page.title, "CrashTitle");
    assert_eq!(parent_path(page.options[0].0).as_deref(), Some("home.options.crash.next"));
}

#[test]
fn troubleshoot_choices_are_headed_by_their_labels() {
    for root in ["home.options.crash.next", "home.options.inaccessible.next"] {
        let page = get_node_data(&texts(), root).unwrap();
        assert!(!page.options.is_empty());
        for (next, label) in page.options {
            let leaf = get_node_data(&texts(), next).unwrap();
            assert_eq!(leaf.title, format!("## {label}"));
            assert!(leaf.options.is_empty());
            assert!(get_node_data(&texts(), &format!("{next}.x")).is_none());
        }
    }
    assert!(get_node_data(&texts(), "home.options.inaccessible").is_none());
    assert!(get_node_data(&texts(), "home.options.crash").is_none());
}

#[test]
fn troubleshoot_texts_need_one_per_key() {
    assert!(TroubleshootTexts::new(vec!["a".to_string()]).is_none());
    let t = texts();
    assert_eq!(t.text(TroubleshootText::Return), "Return");
    assert_eq!(t.text(TroubleshootText::DomainNotPointingMessage), "DomainNotPointingMessage");
    assert_eq!(TroubleshootText::all().len(), 25);
    assert_eq!(TroubleshootText::NotFoundLabel.index(), 21);
}
