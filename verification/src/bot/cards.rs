//! The cards that the informational commands answer with: help, ping and
//! account cards.

use vstd::prelude::*;

use crate::builders::component::{Button, Component, Container, SeparatorSpacing};
use crate::bot::config::{Config, Emojis, Palette};
use crate::bot::layout::{
    banner, is_banner, is_link, is_separator, is_text, link_with_emoji, plain_link, row1, row2, separator, text,
};
use crate::bot::status::{lemma_lines_contain_each, service_line, service_lines, service_lines_text};
use crate::builders::component::{custom_emoji, is_button_row};
use crate::framework::reply::{components_v2_bit, Reply};
use crate::framework::result::CommandError;
use crate::orion_api::client::{orion_error_text, OrionError};
use crate::orion_api::types::OrionUser;
use crate::text::{contains_seq, decimal, decimal_int, i64_to_decimal, lowercase, to_lowercase, u64_to_decimal};

verus! {

/// The translated texts of the help card.
pub struct HelpTexts {
    pub title: String,
    pub hosting_title: String,
    pub hosting_description: String,
    pub create_free_server: String,
    pub services_title: String,
    pub website: String,
    pub dashboard: String,
    pub panel: String,
    pub documentation: String,
    pub status: String,
    pub join_support: String,
    pub add_bot: String,
}

/// The services paragraph of the help card.
pub open spec fn help_services_text(t: HelpTexts) -> Seq<char> {
    "### "@ + t.services_title@ + "\n> "@ + t.website@ + ": "@ + Config::DOMAIN_URL@ + "\n> "@
        + t.dashboard@ + ": "@ + Config::DASHBOARD_URL@ + "\n> "@ + t.panel@ + ": "@
        + Config::PANEL_URL@ + "\n> "@ + t.documentation@ + ": "@ + Config::DOCS_URL@ + "\n> "@
        + t.status@ + " : "@ + Config::STATUS_URL@
}

/// The GitHub paragraph of the help card.
pub open spec fn help_github_text() -> Seq<char> {
    "### GitHubs\n> Orion Hosting: "@ + Config::ORION_GITHUB_URL@ + "\n> Orion Bot: "@
        + Config::BOT_GITHUB_URL@ + "\n> Orion CLI: "@ + Config::CLI_GITHUB_URL@
}

/// The help card: a heading, the banner, the hosting paragraph with a button
/// to the dashboard, the services paragraph, the GitHub links, and buttons to
/// the support server and to add the bot.
pub open spec fn is_help_card(c: Container, t: HelpTexts) -> bool {
    &&& c.accent_color == Some(Some(Palette::PRIMARY))
    &&& c.spoiler == Some(false)
    &&& c.components@.len() == 9
    &&& is_text(c.components@[0], "## "@ + Emojis::LOGO@ + " Orion - "@ + t.title@)
    &&& is_banner(c.components@[1])
    &&& is_text(c.components@[2], "### "@ + t.hosting_title@ + "\n> "@ + t.hosting_description@)
    &&& exists|b: Button|
        is_button_row(c.components@[3], seq![b])
            && is_link(b, Config::DASHBOARD_URL@, t.create_free_server@, custom_emoji(Emojis::LOGO_ID))
    &&& is_separator(c.components@[4], false, SeparatorSpacing::Small)
    &&& is_text(c.components@[5], help_services_text(t))
    &&& is_separator(c.components@[6], false, SeparatorSpacing::Small)
    &&& is_text(c.components@[7], help_github_text())
    &&& exists|a: Button, b: Button|
        is_button_row(c.components@[8], seq![a, b])
            && is_link(a, Config::SUPPORT_INVITE@, t.join_support@, custom_emoji(Emojis::DISCORD_ID))
            && is_link(b, Config::BOT_INVITE@, t.add_bot@, custom_emoji(Emojis::LOGO_ID))
}

/// Builds the help card.
pub fn help_card(t: HelpTexts) -> (res: Container)
    ensures
        is_help_card(res, t),
{
    let ghost g = t;
    let HelpTexts {
        title,
        hosting_title,
        hosting_description,
        create_free_server,
        services_title,
        website,
        dashboard,
        panel,
        documentation,
        status,
        join_support,
        add_bot,
    } = t;
    let heading = String::from_str("## ").concat(Emojis::LOGO).concat(" Orion - ").concat(title.as_str());
    let hosting = String::from_str("### ").concat(hosting_title.as_str()).concat("\n> ").concat(
        hosting_description.as_str(),
    );
    let services = String::from_str("### ").concat(services_title.as_str()).concat("\n> ").concat(
        website.as_str(),
    ).concat(": ").concat(Config::DOMAIN_URL).concat("\n> ").concat(dashboard.as_str()).concat(
        ": ",
    ).concat(Config::DASHBOARD_URL).concat("\n> ").concat(panel.as_str()).concat(": ").concat(
        Config::PANEL_URL,
    ).concat("\n> ").concat(documentation.as_str()).concat(": ").concat(Config::DOCS_URL).concat(
        "\n> ",
    ).concat(status.as_str()).concat(" : ").concat(Config::STATUS_URL);
    let github = String::from_str("### GitHubs\n> Orion Hosting: ").concat(Config::ORION_GITHUB_URL).concat(
        "\n> Orion Bot: ",
    ).concat(Config::BOT_GITHUB_URL).concat("\n> Orion CLI: ").concat(Config::CLI_GITHUB_URL);
    let create = link_with_emoji(String::from_str(Config::DASHBOARD_URL), create_free_server, Emojis::LOGO_ID);
    let support = link_with_emoji(String::from_str(Config::SUPPORT_INVITE), join_support, Emojis::DISCORD_ID);
    let invite = link_with_emoji(String::from_str(Config::BOT_INVITE), add_bot, Emojis::LOGO_ID);
    let ghost (b0, b1, b2) = (create, support, invite);
    let res = Container {
        accent_color: Some(Some(Palette::PRIMARY)),
        components: vec![
            text(heading),
            banner(),
            text(hosting),
            row1(create),
            separator(false, SeparatorSpacing::Small),
            text(services),
            separator(false, SeparatorSpacing::Small),
            text(github),
            row2(support, invite),
        ],
        spoiler: Some(false),
    };
    proof {
        assert(is_button_row(res.components@[3], seq![b0]));
        assert(is_button_row(res.components@[8], seq![b1, b2]));
    }
    res
}

/// The card shown while the ping command measures: a loader and the
/// translated "pinging" text.
pub open spec fn is_pinging_card(c: Container, pinging: Seq<char>) -> bool {
    &&& c.accent_color is None
    &&& c.spoiler == Some(false)
    &&& c.components@.len() == 1
    &&& is_text(c.components@[0], Emojis::LOADER_GREEN@ + " "@ + pinging)
}

/// Builds the card shown while the ping command measures.
pub fn pinging_card(pinging: &str) -> (res: Container)
    ensures
        is_pinging_card(res, pinging@),
{
    Container {
        accent_color: None,
        components: vec![text(String::from_str(Emojis::LOADER_GREEN).concat(" ").concat(pinging))],
        spoiler: Some(false),
    }
}

/// The translated texts of the ping card.
pub struct PingTexts {
    pub services_title: String,
    pub services_more: String,
    pub status_page: String,
    pub bot_title: String,
    pub offline: String,
}

/// The latencies that the ping command measured, in milliseconds; `None` for
/// a service that did not answer, or for a gateway latency not known yet.
pub struct PingLatencies {
    pub domain: Option<u64>,
    pub panel: Option<u64>,
    pub docs: Option<u64>,
    pub api: Option<u64>,
    pub fr1: Option<u64>,
    pub gateway: Option<u64>,
    pub discord_api: u64,
}

/// The service lines of the ping card; an offline service shows the offline
/// text in lowercase.
pub open spec fn ping_service_lines(l: PingLatencies, offline: Seq<char>) -> Seq<char> {
    service_lines_text(
        seq![
            ("Orion Website", l.domain),
            ("Orion Panel", l.panel),
            ("Orion Docs", l.docs),
            ("Orion API", l.api),
            ("Node fr1", l.fr1),
        ],
        lowercase(offline),
    )
}

/// The ping card shows each service with its own latency: the website with
/// `l.domain`, the panel with `l.panel`, the documentation with `l.docs`, the
/// API with `l.api` and the node with `l.fr1`.
pub proof fn lemma_ping_lines_show_own_latencies(l: PingLatencies, offline: Seq<char>)
    ensures
        contains_seq(ping_service_lines(l, offline), service_line("Orion Website"@, l.domain, lowercase(offline))),
        contains_seq(ping_service_lines(l, offline), service_line("Orion Panel"@, l.panel, lowercase(offline))),
        contains_seq(ping_service_lines(l, offline), service_line("Orion Docs"@, l.docs, lowercase(offline))),
        contains_seq(ping_service_lines(l, offline), service_line("Orion API"@, l.api, lowercase(offline))),
        contains_seq(ping_service_lines(l, offline), service_line("Node fr1"@, l.fr1, lowercase(offline))),
{
    let services = seq![
        ("Orion Website", l.domain),
        ("Orion Panel", l.panel),
        ("Orion Docs", l.docs),
        ("Orion API", l.api),
        ("Node fr1", l.fr1),
    ];
    lemma_lines_contain_each(services, lowercase(offline), 0);
    lemma_lines_contain_each(services, lowercase(offline), 1);
    lemma_lines_contain_each(services, lowercase(offline), 2);
    lemma_lines_contain_each(services, lowercase(offline), 3);
    lemma_lines_contain_each(services, lowercase(offline), 4);
}

/// The Discord latencies of the ping card; an unknown gateway latency shows as `-1`.
pub open spec fn discord_latency_text(l: PingLatencies) -> Seq<char> {
    let gateway = match l.gateway {
        Some(ms) => decimal(ms as nat),
        None => "-1"@,
    };
    "> Discord Gateway: `"@ + gateway + "ms`\n> Discord API: `"@ + decimal(l.discord_api as nat)
        + "ms`"@
}

/// The ping card: the services heading and lines, a pointer to the status
/// page with a button to it, a wide divider, and the Discord latencies.
pub open spec fn is_ping_card(c: Container, t: PingTexts, l: PingLatencies) -> bool {
    &&& c.accent_color is None
    &&& c.spoiler == Some(false)
    &&& c.components@.len() == 7
    &&& is_text(c.components@[0], "## "@ + Emojis::LOGO@ + "  "@ + t.services_title@)
    &&& is_text(c.components@[1], ping_service_lines(l, t.offline@))
    &&& is_text(c.components@[2], t.services_more@)
    &&& exists|b: Button|
        is_button_row(c.components@[3], seq![b])
            && is_link(b, Config::STATUS_URL@, t.status_page@, custom_emoji(Emojis::PROPERTY_ID))
    &&& is_separator(c.components@[4], true, SeparatorSpacing::Large)
    &&& is_text(c.components@[5], "## "@ + Emojis::DISCORD@ + "  "@ + t.bot_title@)
    &&& is_text(c.components@[6], discord_latency_text(l))
}

/// Builds the ping card.
pub fn ping_card(t: PingTexts, l: &PingLatencies) -> (res: Container)
    ensures
        is_ping_card(res, t, *l),
{
    let ghost g = t;
    let PingTexts { services_title, services_more, status_page, bot_title, offline } = t;
    let offline_label = to_lowercase(offline.as_str());
    let services = vec![
        ("Orion Website", l.domain),
        ("Orion Panel", l.panel),
        ("Orion Docs", l.docs),
        ("Orion API", l.api),
        ("Node fr1", l.fr1),
    ];
    let lines = service_lines(&services, offline_label.as_str());
    assert(services@ =~= seq![
        ("Orion Website", l.domain),
        ("Orion Panel", l.panel),
        ("Orion Docs", l.docs),
        ("Orion API", l.api),
        ("Node fr1", l.fr1),
    ]);
    let gateway = match l.gateway {
        Some(ms) => u64_to_decimal(ms),
        None => String::from_str("-1"),
    };
    let discord = String::from_str("> Discord Gateway: `").concat(gateway.as_str()).concat(
        "ms`\n> Discord API: `",
    ).concat(u64_to_decimal(l.discord_api).as_str()).concat("ms`");
    let button = link_with_emoji(String::from_str(Config::STATUS_URL), status_page, Emojis::PROPERTY_ID);
    let ghost b = button;
    let res = Container {
        accent_color: None,
        components: vec![
            text(String::from_str("## ").concat(Emojis::LOGO).concat("  ").concat(services_title.as_str())),
            text(lines),
            text(services_more),
            row1(button),
            separator(true, SeparatorSpacing::Large),
            text(String::from_str("## ").concat(Emojis::DISCORD).concat("  ").concat(bot_title.as_str())),
            text(discord),
        ],
        spoiler: Some(false),
    };
    proof {
        assert(is_button_row(res.components@[3], seq![b]));
    }
    res
}

/// The translated texts of the account cards.
pub struct AccountTexts {
    pub your_account: String,
    pub dashboard: String,
    pub panel: String,
    pub guide: String,
    pub create_account: String,
}

/// The card of a user's own account: a heading, the credits line, and
/// buttons to the dashboard and the panel.
pub open spec fn is_account_card(c: Container, t: AccountTexts, credits_line: Seq<char>) -> bool {
    &&& c.accent_color == Some(Some(Palette::PRIMARY))
    &&& c.spoiler == Some(false)
    &&& c.components@.len() == 3
    &&& is_text(c.components@[0], "## "@ + Emojis::LOGO@ + " Orion - "@ + t.your_account@)
    &&& is_text(c.components@[1], credits_line)
    &&& exists|a: Button, b: Button|
        is_button_row(c.components@[2], seq![a, b]) && is_link(a, Config::DASHBOARD_URL@, t.dashboard@, None)
            && is_link(b, Config::PANEL_URL@, t.panel@, None)
}

/// The card for a user without an account: a heading, the guide, and a
/// button to create an account on the dashboard.
pub open spec fn is_no_account_card(c: Container, t: AccountTexts) -> bool {
    &&& c.accent_color == Some(Some(Palette::PRIMARY))
    &&& c.spoiler == Some(false)
    &&& c.components@.len() == 3
    &&& is_text(c.components@[0], "## "@ + Emojis::LOGO@ + " Orion"@)
    &&& is_text(c.components@[1], t.guide@)
    &&& exists|b: Button|
        is_button_row(c.components@[2], seq![b]) && is_link(b, Config::DASHBOARD_URL@, t.create_account@, None)
}

/// The API answered that the user does not exist.
pub open spec fn is_not_found_error(e: OrionError) -> bool {
    e matches OrionError::Api { status, .. } && status == 404
}

/// The error a command returns for an Orion error: its text.
pub open spec fn is_orion_command_error(res: CommandError, e: OrionError) -> bool {
    res matches CommandError::Anyhow(msg) && msg@ == orion_error_text(e)
}

/// The answer of the account command to what the API gave for the user: the
/// account card, whose credits line `credits` writes from the user's credits;
/// the no-account card when the API does not know the user; the error otherwise.
pub fn account_answer<F: FnOnce(i64) -> String>(
    result: Result<OrionUser, OrionError>,
    t: AccountTexts,
    credits: F,
) -> (res: Result<Container, CommandError>)
    requires
        forall|n: i64| call_requires(credits, (n,)),
    ensures
        match result {
            Ok(u) => res matches Ok(c) && exists|line: String|
                call_ensures(credits, (u.credits,), line) && is_account_card(c, t, line@),
            Err(e) => if is_not_found_error(e) {
                res matches Ok(c) && is_no_account_card(c, t)
            } else {
                res matches Err(err) && is_orion_command_error(err, e)
            },
        },
{
    let ghost g = t;
    let AccountTexts { your_account, dashboard, panel, guide, create_account } = t;
    match result {
        Ok(user) => {
            let line = credits(user.credits);
            let ghost l = line;
            let a = plain_link(String::from_str(Config::DASHBOARD_URL), dashboard);
            let b = plain_link(String::from_str(Config::PANEL_URL), panel);
            let ghost (ga, gb) = (a, b);
            let c = Container {
                accent_color: Some(Some(Palette::PRIMARY)),
                components: vec![
                    text(String::from_str("## ").concat(Emojis::LOGO).concat(" Orion - ").concat(your_account.as_str())),
                    text(line),
                    row2(a, b),
                ],
                spoiler: Some(false),
            };
            proof {
                assert(is_button_row(c.components@[2], seq![ga, gb]));
                assert(is_account_card(c, g, l@));
            }
            Ok(c)
        },
        Err(e) => {
            if e.is_not_found() {
                let b = plain_link(String::from_str(Config::DASHBOARD_URL), create_account);
                let ghost gb = b;
                let c = Container {
                    accent_color: Some(Some(Palette::PRIMARY)),
                    components: vec![
                        text(String::from_str("## ").concat(Emojis::LOGO).concat(" Orion")),
                        text(guide),
                        row1(b),
                    ],
                    spoiler: Some(false),
                };
                proof {
                    assert(is_button_row(c.components@[2], seq![gb]));
                }
                Ok(c)
            } else {
                Err(CommandError::Anyhow(e.to_text()))
            }
        },
    }
}

/// `n / 1000` as Rust computes it on an `i64`: rounded toward zero.
pub open spec fn millis_to_secs(n: i64) -> int {
    if n >= 0 {
        n / 1000
    } else {
        -((-n) / 1000)
    }
}

/// Seconds of a millisecond timestamp, rounded toward zero.
pub fn timestamp_secs(n: i64) -> (res: i64)
    ensures
        res == millis_to_secs(n),
{
    if n >= 0 {
        n / 1000
    } else {
        let magnitude: u64 = if n == i64::MIN {
            9223372036854775808u64
        } else {
            (-n) as u64
        };
        let q: u64 = magnitude / 1000;
        assert(q <= 9223372036854775u64);
        -(q as i64)
    }
}

/// The account card of any user, for owners: the user's ids, name, credits,
/// referral figures and last dashboard login.
pub open spec fn is_user_card(c: Container, u: OrionUser) -> bool {
    &&& c.accent_color == Some(Some(Palette::PRIMARY))
    &&& c.spoiler == Some(false)
    &&& c.components@.len() == 5
    &&& is_text(c.components@[0], "## "@ + Emojis::LOGO@ + " Orion Account"@)
    &&& is_text(c.components@[1], "\n> Discord ID: `"@ + u.discord_id@ + "`\n> Orion ID: `"@ + u.id@
        + "`\n> Panel ID: `"@ + decimal(u.panel_id as nat) + "`"@)
    &&& is_text(c.components@[2], "\n> Username: `"@ + u.username@ + "`\n> Credits: `"@ + decimal_int(
        u.credits as int,
    ) + "`"@)
    &&& is_text(c.components@[3], "\n> Referral code: `"@ + u.referral_code@ + "`\n> Referral usage: `"@
        + decimal(u.referral_usage as nat) + "`\n> Referral reward: `"@ + decimal_int(u.referral_gains as int)
        + "` credits"@)
    &&& is_text(c.components@[4], "\n> Last dashboard login: <t:"@ + decimal_int(millis_to_secs(u.last_login_at))
        + ":R>"@)
}

/// Builds the account card of any user.
pub fn user_card(u: &OrionUser) -> (res: Container)
    ensures
        is_user_card(res, *u),
{
    let ids = String::from_str("\n> Discord ID: `").concat(u.discord_id.as_str()).concat("`\n> Orion ID: `").concat(
        u.id.as_str(),
    ).concat("`\n> Panel ID: `").concat(u64_to_decimal(u.panel_id).as_str()).concat("`");
    let name = String::from_str("\n> Username: `").concat(u.username.as_str()).concat("`\n> Credits: `").concat(
        i64_to_decimal(u.credits).as_str(),
    ).concat("`");
    let referral = String::from_str("\n> Referral code: `").concat(u.referral_code.as_str()).concat(
        "`\n> Referral usage: `",
    ).concat(u64_to_decimal(u.referral_usage).as_str()).concat("`\n> Referral reward: `").concat(
        i64_to_decimal(u.referral_gains).as_str(),
    ).concat("` credits");
    let secs = timestamp_secs(u.last_login_at);
    let login = String::from_str("\n> Last dashboard login: <t:").concat(i64_to_decimal(secs).as_str()).concat(
        ":R>",
    );
    Container {
        accent_color: Some(Some(Palette::PRIMARY)),
        components: vec![
            text(String::from_str("## ").concat(Emojis::LOGO).concat(" Orion Account")),
            text(ids),
            text(name),
            text(referral),
            text(login),
        ],
        spoiler: Some(false),
    }
}

/// A fresh reply whose only component is the container `c`, sent as layout components.
pub open spec fn is_card_reply(r: Reply, c: Container) -> bool {
    &&& r.content is None
    &&& r.embeds@.len() == 0
    &&& r.components@ == seq![Component::Container(c)]
    &&& r.flags == components_v2_bit()
    &&& r.allowed_mentions matches Some(m) && m.is_none()
}

/// A fresh reply of the text `s`.
pub open spec fn is_text_reply(r: Reply, s: Seq<char>) -> bool {
    &&& r.content matches Some(x) && x@ == s
    &&& r.embeds@.len() == 0
    &&& r.components@.len() == 0
    &&& r.flags == 0
    &&& r.allowed_mentions matches Some(m) && m.is_none()
}

/// A fresh reply whose only component is `c`.
pub fn card_reply(c: Container) -> (res: Reply)
    ensures
        is_card_reply(res, c),
{
    let ghost gc = c;
    let components = vec![Component::Container(c)];
    assert(components@ == seq![Component::Container(gc)]);
    let r = Reply::new().components_v2(components);
    assert(0u64 | 32768u64 == 32768u64) by (bit_vector);
    assert(r.flags == 32768u64);
    r
}

/// The answer of the owners' user lookup to what the API gave for the user:
/// the user's card; a text saying the user has no account when the API does
/// not know the user; the error otherwise.
pub fn user_lookup_answer(result: Result<OrionUser, OrionError>) -> (res: Result<Reply, CommandError>)
    ensures
        match result {
            Ok(u) => res matches Ok(r) && exists|c: Container| is_card_reply(r, c) && is_user_card(c, u),
            Err(e) => if is_not_found_error(e) {
                res matches Ok(r) && is_text_reply(r, "This user does not have an Orion account"@)
            } else {
                res matches Err(err) && is_orion_command_error(err, e)
            },
        },
{
    match result {
        Ok(user) => {
            let c = user_card(&user);
            let ghost gc = c;
            let r = card_reply(c);
            assert(is_card_reply(r, gc) && is_user_card(gc, user));
            Ok(r)
        },
        Err(e) => {
            if e.is_not_found() {
                Ok(Reply::new().content(String::from_str("This user does not have an Orion account")))
            } else {
                Err(CommandError::Anyhow(e.to_text()))
            }
        },
    }
}

} // verus!
