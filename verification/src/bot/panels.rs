//! The custom panels that owners post: the links panel and the rules panel.

use vstd::prelude::*;

use crate::builders::component::{Button, ButtonEmoji, Component, Container, SeparatorSpacing};
use crate::bot::config::{Config, Emojis, Palette};
use crate::bot::layout::{
    banner, is_banner, is_link, is_section, is_separator, is_text, is_unicode_link, link_with_emoji,
    link_with_unicode, row3, section, separator, text,
};
use crate::text::str_eq;

verus! {

pub const RULES_CIVILIZED: &'static str = "## Civilized behavior\n\
                Treat other members with respect, even if you disagree with them.\n\
                Hate speech, harassment and discriminatory language are strictly forbidden.\n\
                Please respect the decisions of moderators and administrators.";

pub const RULES_PRIVACY: &'static str = "## Privacy\n\
                Private messages (PMs) may not be used for advertising or spamming.\n\
                Invitations to other servers or the addition of bots are strictly forbidden.\n\
                Members' personal information must not be shared without their consent.";

pub const RULES_SECURITY: &'static str = "## Security\n\
                Passwords and other sensitive information must not be shared.\n\
                Report any suspicious behavior or fraudulent activity to the moderators.";

pub const RULES_OTHER: &'static str = "## Other\n\
                Links to malicious websites or explicit content are prohibited.\n\
                Excessive use of capital letters, spam or animated emotes is prohibited.\n\
                Members may not impersonate others.";

pub const RULES_CIVILIZED_AGAIN: &'static str = "## Civilized behavior\n\
                Treat other members with respect, even if you disagree with them.\n\
                Hate speech, harassment and discriminatory language are strictly forbidden.\n\
                Personal conflicts should be resolved privately or with the help of a moderator.\n\
                Please respect the decisions of moderators and administrators.";

/// A static custom emoji.
pub open spec fn emoji(id: u64) -> Option<ButtonEmoji> {
    Some(ButtonEmoji::Custom { animated: false, id })
}

/// The links panel: a container in the primary color with a heading, the
/// banner, and five sections (website, panel, documentation, status, tickets),
/// each with its link button, separated by thin dividers; then a container of
/// the legal links.
pub open spec fn is_links_panel(cs: Seq<Component>) -> bool {
    &&& cs.len() == 2
    &&& cs[0] matches Component::Container(c) && {
        &&& c.accent_color == Some(Some(Palette::PRIMARY))
        &&& c.spoiler == Some(false)
        &&& c.components@.len() == 11
        &&& is_text(c.components@[0], "## "@ + Emojis::LOGO@ + " Orion - Links"@)
        &&& is_banner(c.components@[1])
        &&& exists|b: Button| is_section(c.components@[2], "> Explore our hosting services or login in the dashboard."@, b)
            && is_link(b, Config::DOMAIN_URL@, "Website / Dashboard"@, emoji(Emojis::LOGO_ID))
        &&& is_separator(c.components@[3], true, SeparatorSpacing::Small)
        &&& exists|b: Button| is_section(c.components@[4], "> Use the panel to manage your servers."@, b)
            && is_unicode_link(b, Config::PANEL_URL@, "Panel"@, "🔗"@)
        &&& is_separator(c.components@[5], true, SeparatorSpacing::Small)
        &&& exists|b: Button| is_section(c.components@[6], "> Read the documentation to learn how to use our hosting."@, b)
            && is_unicode_link(b, Config::DOCS_URL@, "Documentation"@, "📚"@)
        &&& is_separator(c.components@[7], true, SeparatorSpacing::Small)
        &&& exists|b: Button| is_section(c.components@[8], "> Get the status of our services in real-time."@, b)
            && is_link(b, Config::STATUS_URL@, "Status"@, emoji(Emojis::PROPERTY_ID))
        &&& is_separator(c.components@[9], true, SeparatorSpacing::Small)
        &&& exists|b: Button| is_section(c.components@[10], "> Need help? Open a ticket!"@, b)
            && is_link(b, Config::TICKETS_PANEL_URL@, "Open a ticket"@, emoji(Emojis::DISCORD_ID))
    }
    &&& cs[1] matches Component::Container(l) && {
        &&& l.accent_color == Some(Some(Palette::PRIMARY))
        &&& l.spoiler == Some(false)
        &&& l.components@.len() == 2
        &&& is_text(l.components@[0], "## "@ + Emojis::LOGO@ + " Legal Links"@)
        &&& is_text(l.components@[1], "> Terms of Service: "@ + Config::DOMAIN_URL@ + "/terms\n> Privacy Policy: "@
            + Config::DOMAIN_URL@ + "/privacy"@)
    }
}

/// Builds the links panel.
pub fn build_links_components() -> (res: Vec<Component>)
    ensures
        is_links_panel(res@),
{
    let b1 = link_with_emoji(String::from_str(Config::DOMAIN_URL), String::from_str("Website / Dashboard"), Emojis::LOGO_ID);
    let b2 = link_with_unicode(String::from_str(Config::PANEL_URL), String::from_str("Panel"), "🔗");
    let b3 = link_with_unicode(String::from_str(Config::DOCS_URL), String::from_str("Documentation"), "📚");
    let b4 = link_with_emoji(String::from_str(Config::STATUS_URL), String::from_str("Status"), Emojis::PROPERTY_ID);
    let b5 = link_with_emoji(String::from_str(Config::TICKETS_PANEL_URL), String::from_str("Open a ticket"), Emojis::DISCORD_ID);
    let ghost (g1, g2, g3, g4, g5) = (b1, b2, b3, b4, b5);
    let container = Container {
        accent_color: Some(Some(Palette::PRIMARY)),
        components: vec![
            text(String::from_str("## ").concat(Emojis::LOGO).concat(" Orion - Links")),
            banner(),
            section(String::from_str("> Explore our hosting services or login in the dashboard."), b1),
            separator(true, SeparatorSpacing::Small),
            section(String::from_str("> Use the panel to manage your servers."), b2),
            separator(true, SeparatorSpacing::Small),
            section(String::from_str("> Read the documentation to learn how to use our hosting."), b3),
            separator(true, SeparatorSpacing::Small),
            section(String::from_str("> Get the status of our services in real-time."), b4),
            separator(true, SeparatorSpacing::Small),
            section(String::from_str("> Need help? Open a ticket!"), b5),
        ],
        spoiler: Some(false),
    };
    let legal = Container {
        accent_color: Some(Some(Palette::PRIMARY)),
        components: vec![
            text(String::from_str("## ").concat(Emojis::LOGO).concat(" Legal Links")),
            text(String::from_str("> Terms of Service: ").concat(Config::DOMAIN_URL).concat(
                "/terms\n> Privacy Policy: ",
            ).concat(Config::DOMAIN_URL).concat("/privacy")),
        ],
        spoiler: Some(false),
    };
    let res = vec![Component::Container(container), Component::Container(legal)];
    proof {
        assert(res@[0] matches Component::Container(c) && is_section(c.components@[2], "> Explore our hosting services or login in the dashboard."@, g1));
        assert(res@[0] matches Component::Container(c) && is_section(c.components@[4], "> Use the panel to manage your servers."@, g2));
        assert(res@[0] matches Component::Container(c) && is_section(c.components@[6], "> Read the documentation to learn how to use our hosting."@, g3));
        assert(res@[0] matches Component::Container(c) && is_section(c.components@[8], "> Get the status of our services in real-time."@, g4));
        assert(res@[0] matches Component::Container(c) && is_section(c.components@[10], "> Need help? Open a ticket!"@, g5));
    }
    res
}

/// The rules panel: a container in the primary color with a heading, the
/// banner, and the five rule texts separated by wide dividers; then a row of
/// links to the website, the terms of service and the privacy policy.
pub open spec fn is_rules_panel(cs: Seq<Component>) -> bool {
    &&& cs.len() == 2
    &&& cs[0] matches Component::Container(c) && {
        &&& c.accent_color == Some(Some(Palette::PRIMARY))
        &&& c.spoiler == Some(false)
        &&& c.components@.len() == 11
        &&& is_text(c.components@[0], "## "@ + Emojis::LOGO@ + " Orion - Rules"@)
        &&& is_banner(c.components@[1])
        &&& is_text(c.components@[2], RULES_CIVILIZED@)
        &&& is_separator(c.components@[3], true, SeparatorSpacing::Large)
        &&& is_text(c.components@[4], RULES_PRIVACY@)
        &&& is_separator(c.components@[5], true, SeparatorSpacing::Large)
        &&& is_text(c.components@[6], RULES_SECURITY@)
        &&& is_separator(c.components@[7], true, SeparatorSpacing::Large)
        &&& is_text(c.components@[8], RULES_OTHER@)
        &&& is_separator(c.components@[9], true, SeparatorSpacing::Large)
        &&& is_text(c.components@[10], RULES_CIVILIZED_AGAIN@)
    }
    &&& cs[1] matches Component::ActionRow(r) && {
        &&& r.components@.len() == 3
        &&& r.components@[0] matches Component::Button(b) && is_link(b, Config::DOMAIN_URL@, "Website"@, emoji(Emojis::LOGO_ID))
        &&& r.components@[1] matches Component::Button(b) && is_link(b, Config::DOMAIN_URL@ + "/terms"@, "ToS"@, emoji(Emojis::LOGO_ID))
        &&& r.components@[2] matches Component::Button(b) && is_link(b, Config::DOMAIN_URL@ + "/privacy"@, "Privacy Policy"@, emoji(Emojis::LOGO_ID))
    }
}

/// Builds the rules panel.
pub fn build_rules_components() -> (res: Vec<Component>)
    ensures
        is_rules_panel(res@),
{
    let container = Container {
        accent_color: Some(Some(Palette::PRIMARY)),
        components: vec![
            text(String::from_str("## ").concat(Emojis::LOGO).concat(" Orion - Rules")),
            banner(),
            text(String::from_str(RULES_CIVILIZED)),
            separator(true, SeparatorSpacing::Large),
            text(String::from_str(RULES_PRIVACY)),
            separator(true, SeparatorSpacing::Large),
            text(String::from_str(RULES_SECURITY)),
            separator(true, SeparatorSpacing::Large),
            text(String::from_str(RULES_OTHER)),
            separator(true, SeparatorSpacing::Large),
            text(String::from_str(RULES_CIVILIZED_AGAIN)),
        ],
        spoiler: Some(false),
    };
    let row = row3(
        link_with_emoji(String::from_str(Config::DOMAIN_URL), String::from_str("Website"), Emojis::LOGO_ID),
        link_with_emoji(String::from_str(Config::DOMAIN_URL).concat("/terms"), String::from_str("ToS"), Emojis::LOGO_ID),
        link_with_emoji(String::from_str(Config::DOMAIN_URL).concat("/privacy"), String::from_str("Privacy Policy"), Emojis::LOGO_ID),
    );
    vec![Component::Container(container), row]
}

/// The panel that a name asks for.
#[derive(Clone, Copy, Debug, PartialEq, Eq, Structural)]
pub enum PanelKind {
    Links,
    Rules,
}

/// Reads the panel name: `links` or `rules`, none for any other name.
pub fn panel_kind(name: &str) -> (res: Option<PanelKind>)
    ensures
        res == if name@ == "links"@ {
            Some(PanelKind::Links)
        } else if name@ == "rules"@ {
            Some(PanelKind::Rules)
        } else {
            None
        },
{
    if str_eq(name, "links") {
        Some(PanelKind::Links)
    } else if str_eq(name, "rules") {
        Some(PanelKind::Rules)
    } else {
        None
    }
}

} // verus!
