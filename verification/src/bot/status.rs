//! The status service: what a ping tells of a service, the status message in
//! the status channel, and the lines that show service latencies.

use vstd::prelude::*;

use crate::builders::component::{
    ActionRow, Button, ButtonEmoji, ButtonStyle, Component, Container, MediaGallery,
    MediaGalleryItem, Separator, SeparatorSpacing, TextDisplay, is_link_button, is_button_row, custom_emoji,
};
use crate::bot::config::{Config, Emojis, Palette};
use crate::framework::reply::components_v2_flag;
use crate::text::{contains_seq, decimal, occurs_at, str_contains, u64_to_decimal};

verus! {

/// Seconds between two updates of the status message.
pub const UPDATE_INTERVAL_SECS: u64 = 60;

/// How a ping request ended.
#[derive(Debug)]
pub enum PingOutcome {
    /// The service answered.
    Answered,
    /// The request failed, with this error text.
    Failed(String),
    /// No answer within the time limit.
    TimedOut,
}

/// An error text that still shows the service is reachable: the connection
/// was refused, reset, or closed by the other side.
pub open spec fn reachable_error(msg: Seq<char>) -> bool {
    contains_seq(msg, "connection refused"@) || contains_seq(msg, "other side closed"@)
        || contains_seq(msg, "Connection reset"@)
}

/// The latency a ping shows, in milliseconds: the elapsed time when the
/// service answered or failed in a way that shows it reachable, none otherwise.
pub open spec fn ping_latency(outcome: PingOutcome, elapsed_ms: u64) -> Option<u64> {
    match outcome {
        PingOutcome::Answered => Some(elapsed_ms),
        PingOutcome::Failed(msg) => if reachable_error(msg@) {
            Some(elapsed_ms)
        } else {
            None
        },
        PingOutcome::TimedOut => None,
    }
}

/// Gets the latency a ping shows.
pub fn classify_ping(outcome: &PingOutcome, elapsed_ms: u64) -> (res: Option<u64>)
    ensures
        res == ping_latency(*outcome, elapsed_ms),
{
    match outcome {
        PingOutcome::Answered => Some(elapsed_ms),
        PingOutcome::Failed(msg) => {
            let m = msg.as_str();
            if str_contains(m, "connection refused") || str_contains(m, "other side closed")
                || str_contains(m, "Connection reset") {
                Some(elapsed_ms)
            } else {
                None
            }
        },
        PingOutcome::TimedOut => None,
    }
}

/// The icon of a service: online when it has a latency, do-not-disturb otherwise.
pub open spec fn status_icon(latency: Option<u64>) -> Seq<char> {
    match latency {
        Some(_) => Emojis::ONLINE@,
        None => Emojis::DND@,
    }
}

/// The latency text of a service: `{ms}ms`, or the offline text.
pub open spec fn latency_text(latency: Option<u64>, offline: Seq<char>) -> Seq<char> {
    match latency {
        Some(ms) => decimal(ms as nat) + "ms"@,
        None => offline,
    }
}

/// The line of a service: `> {icon} {name}: `{latency}``.
pub open spec fn service_line(name: Seq<char>, latency: Option<u64>, offline: Seq<char>) -> Seq<char> {
    "> "@ + status_icon(latency) + " "@ + name + ": `"@ + latency_text(latency, offline) + "`"@
}

/// The lines of services, one per line.
pub open spec fn service_lines_text(services: Seq<(&'static str, Option<u64>)>, offline: Seq<char>) -> Seq<char>
    decreases services.len(),
{
    if services.len() == 0 {
        Seq::empty()
    } else if services.len() == 1 {
        service_line(services[0].0@, services[0].1, offline)
    } else {
        service_lines_text(services.drop_last(), offline) + "\n"@ + service_line(
            services.last().0@,
            services.last().1,
            offline,
        )
    }
}

proof fn lemma_occurs_in_longer(a: Seq<char>, b: Seq<char>, n: Seq<char>, j: int)
    requires
        occurs_at(a, n, j),
    ensures
        occurs_at(a + b, n, j),
{
    assert((a + b).subrange(j, j + n.len()) =~= a.subrange(j, j + n.len()));
}

/// Each service's own line, with its name and its own latency, is among the
/// lines of the services.
pub proof fn lemma_lines_contain_each(services: Seq<(&'static str, Option<u64>)>, offline: Seq<char>, i: int)
    requires
        0 <= i < services.len(),
    ensures
        contains_seq(service_lines_text(services, offline), service_line(services[i].0@, services[i].1, offline)),
    decreases services.len(),
{
    let text = service_lines_text(services, offline);
    let line = service_line(services[i].0@, services[i].1, offline);
    if services.len() == 1 {
        assert(text.subrange(0, line.len() as int) =~= line);
        assert(occurs_at(text, line, 0));
    } else {
        let pre = service_lines_text(services.drop_last(), offline);
        let last = service_line(services.last().0@, services.last().1, offline);
        assert(text == pre + "\n"@ + last);
        if i == services.len() - 1 {
            reveal_strlit("\n");
            assert(line == last);
            let j: int = pre.len() as int + 1;
            assert(text.subrange(j, j + line.len()) =~= line);
            assert(occurs_at(text, line, j));
        } else {
            lemma_lines_contain_each(services.drop_last(), offline, i);
            assert(services.drop_last()[i] == services[i]);
            let j = choose|j: int| occurs_at(pre, line, j);
            lemma_occurs_in_longer(pre, "\n"@ + last, line, j);
            assert(pre + "\n"@ + last =~= pre + ("\n"@ + last));
            assert(occurs_at(text, line, j));
        }
    }
}

/// The status message shows each service with its own latency: the website
/// with `domain`, the panel with `panel`, the documentation with `docs`, the
/// bot with `bot_api`, the API with `api` and the node with `fr1`.
pub proof fn lemma_status_lines_show_own_latencies(
    domain: Option<u64>,
    panel: Option<u64>,
    docs: Option<u64>,
    bot_api: Option<u64>,
    api: Option<u64>,
    fr1: Option<u64>,
)
    ensures
        contains_seq(status_lines(domain, panel, docs, bot_api, api, fr1), service_line("Orion Website"@, domain, "offline"@)),
        contains_seq(status_lines(domain, panel, docs, bot_api, api, fr1), service_line("Orion Panel"@, panel, "offline"@)),
        contains_seq(status_lines(domain, panel, docs, bot_api, api, fr1), service_line("Orion Docs"@, docs, "offline"@)),
        contains_seq(status_lines(domain, panel, docs, bot_api, api, fr1), service_line("Orion Bot"@, bot_api, "offline"@)),
        contains_seq(status_lines(domain, panel, docs, bot_api, api, fr1), service_line("Orion API"@, api, "offline"@)),
        contains_seq(status_lines(domain, panel, docs, bot_api, api, fr1), service_line("Node fr1"@, fr1, "offline"@)),
{
    let services = seq![
        ("Orion Website", domain),
        ("Orion Panel", panel),
        ("Orion Docs", docs),
        ("Orion Bot", bot_api),
        ("Orion API", api),
        ("Node fr1", fr1),
    ];
    lemma_lines_contain_each(services, "offline"@, 0);
    lemma_lines_contain_each(services, "offline"@, 1);
    lemma_lines_contain_each(services, "offline"@, 2);
    lemma_lines_contain_each(services, "offline"@, 3);
    lemma_lines_contain_each(services, "offline"@, 4);
    lemma_lines_contain_each(services, "offline"@, 5);
}

/// Writes the lines of services, one per line.
pub fn service_lines(services: &Vec<(&'static str, Option<u64>)>, offline: &str) -> (res: String)
    ensures
        res@ == service_lines_text(services@, offline@),
{
    let mut res = String::new();
    let mut i: usize = 0;
    while i < services.len()
        invariant
            i <= services@.len(),
            res@ == service_lines_text(services@.take(i as int), offline@),
        decreases services@.len() - i,
    {
        let (name, latency) = services[i];
        let icon = match latency {
            Some(_) => Emojis::ONLINE,
            None => Emojis::DND,
        };
        let text = match latency {
            Some(ms) => u64_to_decimal(ms).concat("ms"),
            None => String::from_str(offline),
        };
        let line = String::from_str("> ").concat(icon).concat(" ").concat(name).concat(": `").concat(
            text.as_str(),
        ).concat("`");
        proof {
            assert(services@.take(i + 1).drop_last() =~= services@.take(i as int));
            assert(services@.take(i + 1).last() == services@[i as int]);
            assert(line@ == service_line(name@, latency, offline@));
        }
        if i == 0 {
            res = line;
        } else {
            res = res.concat("\n").concat(line.as_str());
        }
        i = i + 1;
    }
    assert(services@.take(i as int) =~= services@);
    res
}

/// The status container: a heading, the banner, the service lines, the time
/// of the next update, a separator, a pointer to the status page and a link
/// button to it.
pub open spec fn is_status_container(c: Container, lines: Seq<char>, next_update: u64) -> bool {
    &&& c.accent_color == Some(Some(Palette::PRIMARY))
    &&& c.spoiler == Some(false)
    &&& c.components@.len() == 7
    &&& c.components@[0] matches Component::TextDisplay(t) && t.content@ == "## "@ + Emojis::LOGO@ + " Services Status"@
    &&& c.components@[1] matches Component::MediaGallery(g) && g.items@.len() == 1
        && g.items@[0].url@ == Config::BANNER_URL@ && g.items@[0].description is None
        && g.items@[0].spoiler == Some(false)
    &&& c.components@[2] matches Component::TextDisplay(t) && t.content@ == lines
    &&& c.components@[3] matches Component::TextDisplay(t) && t.content@ == "> Next update <t:"@ + decimal(
        next_update as nat,
    ) + ":R>"@
    &&& c.components@[4] matches Component::Separator(s) && s.divider == Some(false) && s.spacing == Some(
        SeparatorSpacing::Large,
    )
    &&& c.components@[5] matches Component::TextDisplay(t) && t.content@
        == "Use the status page for more details about our services."@
    &&& exists|b: Button|
        is_button_row(c.components@[6], seq![b]) && is_link_button(b, Config::STATUS_URL@, "Status Page"@)
            && b.emoji == custom_emoji(Emojis::PROPERTY_ID)
}

/// The service lines of the status message.
pub open spec fn status_lines(
    domain: Option<u64>,
    panel: Option<u64>,
    docs: Option<u64>,
    bot_api: Option<u64>,
    api: Option<u64>,
    fr1: Option<u64>,
) -> Seq<char> {
    service_lines_text(
        seq![
            ("Orion Website", domain),
            ("Orion Panel", panel),
            ("Orion Docs", docs),
            ("Orion Bot", bot_api),
            ("Orion API", api),
            ("Node fr1", fr1),
        ],
        "offline"@,
    )
}

/// Builds the status container, at time `now` (seconds): the next update is one
/// interval later.
pub fn build_status_container(
    domain: Option<u64>,
    panel: Option<u64>,
    docs: Option<u64>,
    bot_api: Option<u64>,
    api: Option<u64>,
    fr1: Option<u64>,
    now: u64,
) -> (res: Container)
    requires
        now <= u64::MAX - 60,
    ensures
        is_status_container(res, status_lines(domain, panel, docs, bot_api, api, fr1), (now + 60) as u64),
{
    let services = vec![
        ("Orion Website", domain),
        ("Orion Panel", panel),
        ("Orion Docs", docs),
        ("Orion Bot", bot_api),
        ("Orion API", api),
        ("Node fr1", fr1),
    ];
    let lines = service_lines(&services, "offline");
    assert(services@ =~= seq![
        ("Orion Website", domain),
        ("Orion Panel", panel),
        ("Orion Docs", docs),
        ("Orion Bot", bot_api),
        ("Orion API", api),
        ("Node fr1", fr1),
    ]);
    let next_update = now + UPDATE_INTERVAL_SECS;
    let heading = String::from_str("## ").concat(Emojis::LOGO).concat(" Services Status");
    let next = String::from_str("> Next update <t:").concat(u64_to_decimal(next_update).as_str()).concat(":R>");
    let banner = MediaGallery {
        items: vec![MediaGalleryItem { url: String::from_str(Config::BANNER_URL), description: None, spoiler: Some(false) }],
    };
    let button = Button {
        custom_id: None,
        disabled: false,
        emoji: Some(ButtonEmoji::Custom { animated: false, id: Emojis::PROPERTY_ID }),
        label: Some(String::from_str("Status Page")),
        style: ButtonStyle::Link,
        url: Some(String::from_str(Config::STATUS_URL)),
        sku_id: None,
    };
    let ghost b = button;
    let row = ActionRow { components: vec![Component::Button(button)] };
    let res = Container {
        accent_color: Some(Some(Palette::PRIMARY)),
        components: vec![
            Component::TextDisplay(TextDisplay { content: heading }),
            Component::MediaGallery(banner),
            Component::TextDisplay(TextDisplay { content: lines }),
            Component::TextDisplay(TextDisplay { content: next }),
            Component::Separator(Separator { divider: Some(false), spacing: Some(SeparatorSpacing::Large) }),
            Component::TextDisplay(TextDisplay { content: String::from_str("Use the status page for more details about our services.") }),
            Component::ActionRow(row),
        ],
        spoiler: Some(false),
    };
    proof {
        assert(is_button_row(res.components@[6], seq![b]));
        assert(is_link_button(b, Config::STATUS_URL@, "Status Page"@));
        assert(res.components@[2] matches Component::TextDisplay(t) && t.content@ == status_lines(domain, panel, docs, bot_api, api, fr1));
        assert(res.components@[1] matches Component::MediaGallery(g) && g.items@.len() == 1);
        assert(res.components@[3] matches Component::TextDisplay(t) && t.content@ == "> Next update <t:"@ + decimal(
        (now + 60) as nat) + ":R>"@);
    }
    res
}

/// The previous status message among recent messages of the status channel:
/// the first one that the bot wrote with the components-v2 flag. Messages are
/// given by author id and flags.
pub open spec fn status_message_index(messages: Seq<(u64, Option<u64>)>, app_id: u64) -> Option<int>
    decreases messages.len(),
{
    if messages.len() == 0 {
        None
    } else {
        match status_message_index(messages.drop_last(), app_id) {
            Some(i) => Some(i),
            None => if messages.last().0 == app_id && (match messages.last().1 {
                Some(f) => f & 32768u64 == 32768u64,
                None => false,
            }) {
                Some(messages.len() - 1)
            } else {
                None
            },
        }
    }
}

/// Finds the previous status message.
pub fn find_status_message(messages: &Vec<(u64, Option<u64>)>, app_id: u64) -> (res: Option<usize>)
    ensures
        match res {
            Some(i) => status_message_index(messages@, app_id) == Some(i as int),
            None => status_message_index(messages@, app_id) is None,
        },
{
    let flag = components_v2_flag();
    let mut i: usize = 0;
    while i < messages.len()
        invariant
            i <= messages@.len(),
            flag == 32768,
            status_message_index(messages@.take(i as int), app_id) is None,
        decreases messages@.len() - i,
    {
        proof {
            assert(messages@.take(i + 1).drop_last() =~= messages@.take(i as int));
        }
        let (author, flags) = messages[i];
        let has_flag = match flags {
            Some(f) => f & flag == flag,
            None => false,
        };
        if author == app_id && has_flag {
            proof {
                lemma_status_index_prefix(messages@, app_id, i + 1);
            }
            return Some(i);
        }
        i = i + 1;
    }
    assert(messages@.take(i as int) =~= messages@);
    None
}

proof fn lemma_status_index_prefix(messages: Seq<(u64, Option<u64>)>, app_id: u64, n: int)
    requires
        0 <= n <= messages.len(),
        status_message_index(messages.take(n), app_id) is Some,
    ensures
        status_message_index(messages, app_id) == status_message_index(messages.take(n), app_id),
    decreases messages.len() - n,
{
    if n < messages.len() {
        assert(messages.take(n + 1).drop_last() =~= messages.take(n));
        lemma_status_index_prefix(messages, app_id, n + 1);
    } else {
        assert(messages.take(n) =~= messages);
    }
}

/// The address pinged for the node `fr1`: `http://fr1.{domain}:8080`.
pub fn fr1_url() -> (res: String)
    ensures
        res@ == "http://fr1."@ + Config::DOMAIN@ + ":8080"@,
{
    String::from_str("http://fr1.").concat(Config::DOMAIN).concat(":8080")
}

} // verus!
