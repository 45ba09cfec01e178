//! The support chatbot: its system prompt, the conversation history it is
//! given, how its answers are laid out, and when it answers at all.

use vstd::prelude::*;

use crate::builders::component::{ActionRow, Button, ButtonEmoji, ButtonStyle, Component, TextDisplay};
use crate::bot::config::Config;
use crate::framework::reply::{components_v2_bit, components_v2_flag};
use crate::text::{char_count, contains_seq, str_contains, take_chars, trim, trimmed};

verus! {

/// The head of the system prompt, which the documentation list follows.
pub const PROMPT_HEAD: &'static str = "You are a Discord bot called 'Orion Hosting'. You are on the support server, in the chatbot channel.\n\
        \n\
        Orion Hosting is a free hosting platform made by 'Octara' (octara.xyz) and 'Voctal' (voctal.dev).\n\
        Help users with questions about the hosting platform, programming, and IT.\n\
        If asked about unrelated topics, kindly say you're not designed for that.\n\
        If you are missing information, tell the user to open a ticket.\n\
        Do NOT use [link](link) format when both texts are identical, use the raw URL.\n\
        \n\
        # Links\n\
        - https://orionhost.xyz - Website\n\
        - https://orionhost.xyz/dashboard - Dashboard\n\
        - https://panel.orionhost.xyz - Panel\n\
        - https://status.orionhost.xyz - Status page\n\
        - https://docs.orionhost.xyz - Documentation\n\
        - https://github.com/orionhosting - GitHub\n\
        - https://github.com/orionhosting/orion-cli - CLI (to deploy, etc.)\n\
        - https://github.com/orionhosting/orion-bot - Your source code\n\
        \n\
        # Ports\n\
        - http://fr1.orionhost.xyz:4xxx - HTTP port (port is in the 'Network' panel tab)\n\
        - https://4xxx.fr1.orionhost.xyz - HTTPS URL\n\
        - Custom *.orionhost.app subdomain configurable in the dashboard\n\
        \n\
        # Docs (replace 'fr' by 'en' for english docs)\n\
        You can fetch the docs using the fetch_docs tool.\n\
        You can only call the tool ONCE per turn.\n\
        Here are the pages urls:\n\
        ";

/// The system prompt: its fixed head, the documentation list, then the
/// conversation history under its own heading when there is any.
pub open spec fn system_prompt(docs_list: Seq<char>, history: Seq<char>) -> Seq<char> {
    PROMPT_HEAD@ + docs_list + if history.len() == 0 {
        Seq::<char>::empty()
    } else {
        "\n# Conversation history\n"@ + history
    }
}

/// Builds the chatbot's system prompt.
pub fn build_system_prompt(docs_list: &str, history: &str) -> (res: String)
    ensures
        res@ == system_prompt(docs_list@, history@),
{
    let head = String::from_str(PROMPT_HEAD).concat(docs_list);
    if history.is_empty() {
        assert(head@ + Seq::<char>::empty() =~= head@);
        head
    } else {
        let res = head.concat("\n# Conversation history\n").concat(history);
        assert(res@ =~= system_prompt(docs_list@, history@));
        res
    }
}


/// Milliseconds the chatbot waits after an answer before taking another message.
pub const COOLDOWN: u64 = 1_500;

/// A cached message offered as conversation history.
#[derive(Debug)]
pub struct HistoryMessage {
    pub author: String,
    pub content: String,
}

/// The history line of a message: `@author: content` and a line break.
pub open spec fn history_line(m: HistoryMessage) -> Seq<char> {
    "@"@ + m.author@ + ": "@ + m.content@ + "\n"@
}

/// The size of a text in bytes (UTF-8), as std's `str::len` gives it.
pub open spec fn byte_len(s: Seq<char>) -> int {
    (vstd::utf8::encode_utf8(s).len() as usize) as int
}

/// The most history text, in bytes of message contents, once a first message is in.
pub open spec fn history_budget() -> int {
    1500
}

/// The most history lines.
pub open spec fn history_max_lines() -> int {
    10
}

/// The history text from message `i` on (newest first), with `total` bytes and
/// `count` lines taken so far: empty messages are skipped; a message that would
/// bring the total to the budget ends the history, unless nothing is taken yet;
/// the history ends after its tenth line.
pub open spec fn history_from(ms: Seq<HistoryMessage>, i: int, total: int, count: int) -> Seq<char>
    decreases ms.len() - i,
{
    if i < 0 || i >= ms.len() {
        Seq::empty()
    } else if ms[i].content@.len() == 0 {
        history_from(ms, i + 1, total, count)
    } else if total > 0 && total + byte_len(ms[i].content@) >= history_budget() {
        Seq::empty()
    } else if count + 1 >= history_max_lines() {
        history_line(ms[i])
    } else {
        history_line(ms[i]) + history_from(ms, i + 1, total + byte_len(ms[i].content@), count + 1)
    }
}

/// The history always holds a message when one is there: however long the
/// newest non-empty message is, it is taken before the size budget applies.
pub proof fn lemma_history_keeps_a_message(ms: Seq<HistoryMessage>, i: int, k: int)
    requires
        0 <= i <= k < ms.len(),
        ms[k].content@.len() > 0,
    ensures
        history_from(ms, i, 0, 0).len() > 0,
    decreases k - i,
{
    if ms[i].content@.len() == 0 {
        lemma_history_keeps_a_message(ms, i + 1, k);
    } else {
        assert(history_line(ms[i]).len() > 0);
    }
}

/// The messages that the history from message `i` on takes, in order, on the
/// rule of `history_from`.
pub open spec fn history_taken(ms: Seq<HistoryMessage>, i: int, total: int, count: int) -> Seq<HistoryMessage>
    decreases ms.len() - i,
{
    if i < 0 || i >= ms.len() {
        Seq::empty()
    } else if ms[i].content@.len() == 0 {
        history_taken(ms, i + 1, total, count)
    } else if total > 0 && total + byte_len(ms[i].content@) >= history_budget() {
        Seq::empty()
    } else if count + 1 >= history_max_lines() {
        seq![ms[i]]
    } else {
        seq![ms[i]] + history_taken(ms, i + 1, total + byte_len(ms[i].content@), count + 1)
    }
}

/// The history lines of messages, in order.
pub open spec fn lines_of(taken: Seq<HistoryMessage>) -> Seq<char>
    decreases taken.len(),
{
    if taken.len() == 0 {
        Seq::empty()
    } else {
        history_line(taken[0]) + lines_of(taken.skip(1))
    }
}

/// The history is the lines of at most ten messages, none of them empty.
pub proof fn lemma_history_at_most_ten_messages(ms: Seq<HistoryMessage>, i: int, total: int, count: int)
    requires
        0 <= count < history_max_lines(),
    ensures
        history_from(ms, i, total, count) == lines_of(history_taken(ms, i, total, count)),
        history_taken(ms, i, total, count).len() <= history_max_lines() - count,
        forall|j: int|
            0 <= j < history_taken(ms, i, total, count).len() ==> (#[trigger] history_taken(ms, i, total, count)[j]).content@.len() > 0,
    decreases ms.len() - i,
{
    if i < 0 || i >= ms.len() {
    } else if ms[i].content@.len() == 0 {
        lemma_history_at_most_ten_messages(ms, i + 1, total, count);
    } else if total > 0 && total + byte_len(ms[i].content@) >= history_budget() {
    } else if count + 1 >= history_max_lines() {
        let t = seq![ms[i]];
        assert(t.skip(1) =~= Seq::<HistoryMessage>::empty());
        assert(lines_of(t) == history_line(ms[i]) + lines_of(t.skip(1)));
        assert(history_line(ms[i]) + Seq::<char>::empty() =~= history_line(ms[i]));
    } else {
        let next_total = total + byte_len(ms[i].content@);
        lemma_history_at_most_ten_messages(ms, i + 1, next_total, count + 1);
        let rest = history_taken(ms, i + 1, next_total, count + 1);
        let t = seq![ms[i]] + rest;
        assert(t.skip(1) =~= rest);
        assert(t[0] == ms[i]);
        assert forall|j: int| 0 <= j < t.len() implies (#[trigger] t[j]).content@.len() > 0 by {
            if j > 0 {
                assert(t[j] == rest[j - 1]);
            }
        }
    }
}

/// The size in bytes of the contents of messages.
pub open spec fn content_bytes(taken: Seq<HistoryMessage>) -> int
    decreases taken.len(),
{
    if taken.len() == 0 {
        0
    } else {
        byte_len(taken[0].content@) + content_bytes(taken.skip(1))
    }
}

/// A text whose UTF-8 form fits in memory, as every `String`'s does.
pub open spec fn fits(s: Seq<char>) -> bool {
    vstd::utf8::encode_utf8(s).len() <= usize::MAX
}

proof fn lemma_byte_len_positive(s: Seq<char>)
    requires
        s.len() > 0,
        fits(s),
    ensures
        byte_len(s) > 0,
{
    assert(vstd::utf8::encode_utf8(s) == vstd::utf8::encode_scalar(s[0] as u32) + vstd::utf8::encode_utf8(s.drop_first()));
}

proof fn lemma_history_budget(ms: Seq<HistoryMessage>, i: int, total: int, count: int)
    requires
        total > 0,
        forall|j: int| 0 <= j < ms.len() ==> fits(#[trigger] ms[j].content@),
    ensures
        history_taken(ms, i, total, count).len() > 0 ==> total + content_bytes(history_taken(ms, i, total, count)) < history_budget(),
    decreases ms.len() - i,
{
    if i < 0 || i >= ms.len() {
    } else if ms[i].content@.len() == 0 {
        lemma_history_budget(ms, i + 1, total, count);
    } else if total > 0 && total + byte_len(ms[i].content@) >= history_budget() {
    } else {
        let b = byte_len(ms[i].content@);
        let t = history_taken(ms, i, total, count);
        if count + 1 >= history_max_lines() {
            assert(t == seq![ms[i]]);
            assert(t.skip(1) =~= Seq::<HistoryMessage>::empty());
            assert(content_bytes(t.skip(1)) == 0);
            assert(content_bytes(t) == b + content_bytes(t.skip(1)));
        } else {
            let rest = history_taken(ms, i + 1, total + b, count + 1);
            lemma_history_budget(ms, i + 1, total + b, count + 1);
            assert(t == seq![ms[i]] + rest);
            assert(t.skip(1) =~= rest);
            assert(t[0] == ms[i]);
            assert(content_bytes(t) == b + content_bytes(rest));
            if rest.len() == 0 {
                assert(content_bytes(rest) == 0);
            }
        }
    }
}

/// Past its first message, the history keeps to its budget: when it holds two
/// messages or more, their contents come to less than 1500 bytes.
pub proof fn lemma_history_within_budget(ms: Seq<HistoryMessage>, i: int, count: int)
    requires
        forall|j: int| 0 <= j < ms.len() ==> fits(#[trigger] ms[j].content@),
    ensures
        history_taken(ms, i, 0, count).len() > 1 ==> content_bytes(history_taken(ms, i, 0, count)) < history_budget(),
    decreases ms.len() - i,
{
    if i < 0 || i >= ms.len() {
    } else if ms[i].content@.len() == 0 {
        lemma_history_within_budget(ms, i + 1, count);
    } else if count + 1 >= history_max_lines() {
    } else {
        let b = byte_len(ms[i].content@);
        lemma_byte_len_positive(ms[i].content@);
        lemma_history_budget(ms, i + 1, b, count + 1);
        let rest = history_taken(ms, i + 1, b, count + 1);
        let t = history_taken(ms, i, 0, count);
        assert(t == seq![ms[i]] + rest);
        assert(t.skip(1) =~= rest);
        assert(t[0] == ms[i]);
        assert(content_bytes(t) == b + content_bytes(rest));
    }
}

/// Builds the conversation history text from cached messages, newest first.
pub fn build_history(messages: &Vec<HistoryMessage>) -> (res: String)
    ensures
        res@ == history_from(messages@, 0, 0, 0),
{
    let mut res = String::new();
    let mut total: usize = 0;
    let mut count: usize = 0;
    let mut i: usize = 0;
    while i < messages.len()
        invariant
            i <= messages@.len(),
            count < 10,
            history_from(messages@, 0, 0, 0) == res@ + history_from(messages@, i as int, total as int, count as int),
        decreases messages@.len() - i,
    {
        let m = &messages[i];
        let content = m.content.as_str();
        let ghost i0 = i as int;
        if content.is_empty() {
            assert(history_from(messages@, i0, total as int, count as int) == history_from(messages@, i0 + 1, total as int, count as int));
            i = i + 1;
            continue;
        }
        let len = content.len();
        let over = if total >= 1500 {
            total > 0
        } else {
            total > 0 && len >= 1500 - total
        };
        if over {
            assert(history_from(messages@, i0, total as int, count as int) == Seq::<char>::empty());
            assert(res@ + Seq::<char>::empty() =~= res@);
            return res;
        }
        let line = String::from_str("@").concat(m.author.as_str()).concat(": ").concat(content).concat("\n");
        let ghost before = res@;
        res = res.concat(line.as_str());
        proof {
            assert(line@ == history_line(*m));
        }
        if count + 1 >= 10 {
            assert(history_from(messages@, i0, total as int, count as int) == history_line(*m));
            assert(res@ =~= before + history_line(*m));
            return res;
        }
        assert(history_from(messages@, i0, total as int, count as int) == history_line(*m) + history_from(messages@, i0 + 1, total + len, count + 1));
        total = total + len;
        count = count + 1;
        i = i + 1;
        proof {
            assert(before + (history_line(*m) + history_from(messages@, i as int, total as int, count as int))
                =~= res@ + history_from(messages@, i as int, total as int, count as int));
        }
    }
    assert(res@ + Seq::<char>::empty() =~= res@);
    res
}

/// How an answer is sent: as content, or, when over 2000 characters, as a text
/// display holding its first 4000 characters (with the components-v2 flag).
pub struct ChatbotReply {
    pub content: Option<String>,
    pub components: Vec<Component>,
    pub flags: Option<u64>,
}

/// The source button row of an answer built on a documentation page: a link
/// button to the page, with the link emoji and the label `Source - name`.
pub open spec fn source_row(c: Component, name: Seq<char>, url: Seq<char>) -> bool {
    &&& c matches Component::ActionRow(row)
    &&& row.components@.len() == 1
    &&& row.components@[0] matches Component::Button(b)
    &&& b.style == ButtonStyle::Link
    &&& b.url matches Some(u) && u@ == url
    &&& b.label matches Some(l) && l@ == "Source - "@ + name
    &&& b.emoji matches Some(ButtonEmoji::Unicode { name: e }) && e@ == "🔗"@
    &&& b.custom_id is None
    &&& !b.disabled
    &&& b.sku_id is None
}

/// Lays out the chatbot's answer, with the source page when the answer was built on one.
pub fn chatbot_reply_layout(text: &str, source: Option<(String, String)>) -> (res: ChatbotReply)
    ensures
        ({
            let extra: int = if source is Some { 1 } else { 0 };
            let long = text@.len() > 2000;
            &&& long ==> (res.content is None && res.flags == Some(components_v2_bit())
                && res.components@.len() == 1 + extra
                && (res.components@[0] matches Component::TextDisplay(t)
                && t.content@ == text@.take(if 4000 < text@.len() { 4000 } else { text@.len() as int })))
            &&& !long ==> (res.flags is None && res.components@.len() == extra
                && (res.content matches Some(c) && c@ == text@))
            &&& source matches Some((name, url)) ==> source_row(res.components@[res.components@.len() - 1], name@, url@)
        }),
{
    let mut components: Vec<Component> = Vec::new();
    let long = char_count(text) > 2000;
    if long {
        let truncated = take_chars(text, 4000);
        components.push(Component::TextDisplay(TextDisplay { content: truncated }));
    }
    match source {
        Some((name, url)) => {
            let button = Button {
                custom_id: None,
                disabled: false,
                emoji: Some(ButtonEmoji::Unicode { name: String::from_str("🔗") }),
                label: Some(String::from_str("Source - ").concat(name.as_str())),
                style: ButtonStyle::Link,
                url: Some(url),
                sku_id: None,
            };
            components.push(Component::ActionRow(ActionRow { components: vec![Component::Button(button)] }));
        },
        None => {},
    }
    if long {
        ChatbotReply { content: None, components, flags: Some(components_v2_flag()) }
    } else {
        ChatbotReply { content: Some(String::from_str(text)), components, flags: None }
    }
}



/// twilight-model's `Permissions::VIEW_CHANNEL`, whose bit is `1 << 10` there.
#[verifier::external_body]
fn view_channel_permission() -> (res: u64)
    ensures
        res == 1024,
{
    twilight_model::guild::Permissions::VIEW_CHANNEL.bits()
}

/// twilight-model's `Permissions::SEND_MESSAGES`, whose bit is `1 << 11` there.
#[verifier::external_body]
fn send_messages_permission() -> (res: u64)
    ensures
        res == 2048,
{
    twilight_model::guild::Permissions::SEND_MESSAGES.bits()
}

/// twilight-model's `Permissions::EMBED_LINKS`, whose bit is `1 << 14` there.
#[verifier::external_body]
fn embed_links_permission() -> (res: u64)
    ensures
        res == 16384,
{
    twilight_model::guild::Permissions::EMBED_LINKS.bits()
}

/// The permissions the chatbot needs in its channel: view it, send messages
/// and embed links.
pub open spec fn chatbot_permissions() -> u64 {
    1024u64 | 2048u64 | 16384u64
}

/// The kind of a message, as far as the chatbot tells them apart.
#[derive(Clone, Copy, Debug, PartialEq, Eq, Structural)]
pub enum MessageKind {
    Regular,
    Reply,
    Other,
}

/// Whether the chatbot answers a message: it must be in the chatbot channel,
/// from a user (not a bot, not a webhook), in a channel where the bot holds the
/// permissions it needs (unknown permissions count as missing), and either a
/// regular message or a reply that mentions the bot.
pub open spec fn answers(
    channel_id: u64,
    chatbot_channel_id: u64,
    author_is_bot: bool,
    from_webhook: bool,
    permissions: Option<u64>,
    kind: MessageKind,
    mentions_bot: bool,
) -> bool {
    &&& channel_id == chatbot_channel_id
    &&& !author_is_bot && !from_webhook
    &&& permissions matches Some(p) && p & chatbot_permissions() == chatbot_permissions()
    &&& match kind {
        MessageKind::Regular => true,
        MessageKind::Reply => mentions_bot,
        MessageKind::Other => false,
    }
}

/// The chatbot answers exactly the messages of its channel from a user (not a
/// bot, not through a webhook), where the bot's known permissions let it view
/// the channel (bit 1024), send messages (bit 2048) and embed links (bit
/// 16384), and that are regular messages or replies that mention the bot.
pub proof fn lemma_answers_needs_each_permission(
    channel_id: u64,
    chatbot_channel_id: u64,
    author_is_bot: bool,
    from_webhook: bool,
    permissions: Option<u64>,
    kind: MessageKind,
    mentions_bot: bool,
)
    ensures
        answers(channel_id, chatbot_channel_id, author_is_bot, from_webhook, permissions, kind, mentions_bot) <==> {
            &&& channel_id == chatbot_channel_id
            &&& !author_is_bot
            &&& !from_webhook
            &&& permissions matches Some(p) && p & 1024 == 1024 && p & 2048 == 2048 && p & 16384 == 16384
            &&& (kind == MessageKind::Regular || (kind == MessageKind::Reply && mentions_bot))
        },
{
    assert(forall|p: u64|
        ((p & (1024u64 | 2048u64 | 16384u64)) == (1024u64 | 2048u64 | 16384u64)) <==> (p & 1024 == 1024 && p
            & 2048 == 2048 && p & 16384 == 16384)) by (bit_vector);
}

/// Checks the channel, the author, the permissions and the kind of a message.
pub fn should_handle(
    channel_id: u64,
    chatbot_channel_id: u64,
    author_is_bot: bool,
    from_webhook: bool,
    permissions: Option<u64>,
    kind: MessageKind,
    mentions_bot: bool,
) -> (res: bool)
    ensures
        res == answers(channel_id, chatbot_channel_id, author_is_bot, from_webhook, permissions, kind, mentions_bot),
{
    if channel_id != chatbot_channel_id {
        return false;
    }
    if author_is_bot || from_webhook {
        return false;
    }
    let needed = view_channel_permission() | send_messages_permission() | embed_links_permission();
    match permissions {
        Some(p) => {
            if p & needed != needed {
                return false;
            }
        },
        None => {
            return false;
        },
    }
    match kind {
        MessageKind::Regular => true,
        MessageKind::Reply => mentions_bot,
        MessageKind::Other => false,
    }
}

/// The answer when the model's API limits the chatbot's rate.
pub const RATE_LIMIT_NOTICE: &'static str = "*The chatbot has reached its message limit. Please wait a moment or contact support instead.*";

/// What the chatbot does about an error of the model's API.
#[derive(Debug)]
pub enum ApiErrorAction {
    /// Overloaded (503): react to the message with an alarm clock.
    React,
    /// Rate limited (429), and no notice in the last minute: tell the user.
    Notify,
    /// Rate limited, but the user was told less than a minute ago.
    Ignore,
    /// Any other error, reported with this text.
    Fail(String),
}

/// The action for an API error text, at time `now` (seconds), the last rate
/// limit notice having been at `last_notice`; and when the last notice is then.
pub open spec fn api_error_action_spec(err: Seq<char>, now: u64, last_notice: u64) -> (int, u64) {
    if contains_seq(err, "503"@) {
        (0, last_notice)
    } else if contains_seq(err, "429"@) {
        if now - last_notice > 60 {
            (1, now)
        } else {
            (2, last_notice)
        }
    } else {
        (3, last_notice)
    }
}

/// The code of an action, in declaration order.
pub open spec fn action_code(a: ApiErrorAction) -> int {
    match a {
        ApiErrorAction::React => 0,
        ApiErrorAction::Notify => 1,
        ApiErrorAction::Ignore => 2,
        ApiErrorAction::Fail(_) => 3,
    }
}

/// Rate-limit notices come at most once a minute: once a notice went out at
/// `noticed`, a rate-limit error up to 60 seconds later is ignored, and one
/// later than that brings a new notice.
pub proof fn lemma_notice_once_a_minute(err: Seq<char>, noticed: u64, now: u64)
    requires
        !contains_seq(err, "503"@),
        contains_seq(err, "429"@),
        noticed <= now,
    ensures
        now - noticed <= 60 ==> api_error_action_spec(err, now, noticed) == (2int, noticed),
        now - noticed > 60 ==> api_error_action_spec(err, now, noticed) == (1int, now),
{
}

/// Decides what to do about an API error.
pub fn api_error_action(err: &str, now: u64, last_notice: u64) -> (res: (ApiErrorAction, u64))
    requires
        contains_seq(err@, "429"@) && !contains_seq(err@, "503"@) ==> last_notice <= now,
    ensures
        (action_code(res.0), res.1) == api_error_action_spec(err@, now, last_notice),
        res.0 matches ApiErrorAction::Fail(msg) ==> msg@ == "Chatbot API error: "@ + err@,
{
    if str_contains(err, "503") {
        (ApiErrorAction::React, last_notice)
    } else if str_contains(err, "429") {
        if now - last_notice > 60 {
            (ApiErrorAction::Notify, now)
        } else {
            (ApiErrorAction::Ignore, last_notice)
        }
    } else {
        (ApiErrorAction::Fail(String::from_str("Chatbot API error: ").concat(err)), last_notice)
    }
}

/// The prompt the model answers: the message, after its author's name.
pub fn user_prompt(author: &str, content: &str) -> (res: String)
    ensures
        res@ == "@"@ + author@ + ": "@ + content@,
{
    String::from_str("@").concat(author).concat(": ").concat(content)
}

/// The pattern of a markdown link `[text](target)`: its text is the first
/// group, its target the second.
pub const LINK_PATTERN: &'static str = "\\[([^\\]]+)\\]\\(([^)]+)\\)";

/// The pattern of a speaker prefix at the start of an answer: `@name:`,
/// `@Orion Hosting:`, `Orion Hosting:` or `Content:`, with the white space after it.
pub const SPEAKER_PREFIX_PATTERN: &'static str = "^(@[\\w.]+:\\s*|@Orion Hosting:\\s*|Orion Hosting:\\s*|Content:\\s*)";

/// Keeps a markdown link whose text differs from its target, or its text alone
/// when both are there and the same.
pub fn keep_link_or_text(whole: &str, text: Option<&str>, url: Option<&str>) -> (res: String)
    ensures
        res@ == match (text, url) {
            (Some(t), Some(u)) => if t@ == u@ { t@ } else { whole@ },
            _ => whole@,
        },
{
    match (text, url) {
        (Some(t), Some(u)) => {
            if crate::text::str_eq(t, u) {
                String::from_str(t)
            } else {
                String::from_str(whole)
            }
        },
        _ => String::from_str(whole),
    }
}

/// What the regex crate's `Regex::replace_all` gives for `pattern` over `text`
/// when each match is replaced by what `keep_link_or_text` makes of the whole
/// match and its first two groups; none when `pattern` does not compile.
pub uninterp spec fn links_kept(pattern: Seq<char>, text: Seq<char>) -> Option<Seq<char>>;

/// What the regex crate's `Regex::replace` gives for `pattern` over `text` with
/// the replacement `rep` (its first match replaced); none when `pattern` does
/// not compile.
pub uninterp spec fn regex_replaced(pattern: Seq<char>, text: Seq<char>, rep: Seq<char>) -> Option<Seq<char>>;

/// Compiles `pattern` with the regex crate's `Regex::new`, and replaces each of
/// its matches in `text` (`Regex::replace_all`) as `keep_link_or_text` decides
/// from the whole match and its first two groups. Returns none when the pattern
/// does not compile. What the result holds is named, not stated.
#[verifier::external_body]
fn replace_links(pattern: &str, text: &str) -> (res: Option<String>)
    ensures
        match res {
            Some(r) => links_kept(pattern@, text@) == Some(r@),
            None => links_kept(pattern@, text@) is None,
        },
{
    match regex::Regex::new(pattern) {
        Ok(re) => Some(re.replace_all(text, |caps: &regex::Captures| {
            keep_link_or_text(&caps[0], caps.get(1).map(|m| m.as_str()), caps.get(2).map(|m| m.as_str()))
        }).into_owned()),
        Err(_) => None,
    }
}

/// Compiles `pattern` with the regex crate's `Regex::new`, and replaces its
/// first match in `text` by `rep` (`Regex::replace`). Returns none when the
/// pattern does not compile. What the result holds is named, not stated.
#[verifier::external_body]
fn regex_replace(pattern: &str, text: &str, rep: &str) -> (res: Option<String>)
    ensures
        match res {
            Some(r) => regex_replaced(pattern@, text@, rep@) == Some(r@),
            None => regex_replaced(pattern@, text@, rep@) is None,
        },
{
    match regex::Regex::new(pattern) {
        Ok(re) => Some(re.replace(text, rep).into_owned()),
        Err(_) => None,
    }
}

/// The cleaned answer: self links of `text` made plain, then a leading speaker
/// prefix removed, then the surrounding white space; none when one of the two
/// patterns does not compile.
pub open spec fn cleaned_answer(text: Seq<char>) -> Option<Seq<char>> {
    match links_kept(LINK_PATTERN@, text) {
        Some(l) => match regex_replaced(SPEAKER_PREFIX_PATTERN@, l, ""@) {
            Some(p) => Some(trimmed(p)),
            None => None,
        },
        None => None,
    }
}

/// Cleans the model's answer: links whose text is their target become plain
/// text, a leading speaker prefix goes, and so does the surrounding white
/// space. None when one of the patterns does not compile.
pub fn strip_self_mention(text: &str) -> (res: Option<String>)
    ensures
        res is Some <==> cleaned_answer(text@) is Some,
        res matches Some(r) ==> r@ == cleaned_answer(text@)->0,
{
    let replaced = match replace_links(LINK_PATTERN, text) {
        Some(r) => r,
        None => return None,
    };
    let stripped = match regex_replace(SPEAKER_PREFIX_PATTERN, replaced.as_str(), "") {
        Some(r) => r,
        None => return None,
    };
    Some(trim(stripped.as_str()))
}

/// The first `max` characters of `s`, or all of it when it is shorter.
pub fn truncate_to_chars(s: &str, max: usize) -> (res: String)
    ensures
        res@ == s@.take(if max < s@.len() { max as int } else { s@.len() as int }),
{
    take_chars(s, max)
}

} // verus!
