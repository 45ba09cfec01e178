//! How interactions reach commands, how command errors are answered, and what
//! the remote logger sends.

use vstd::prelude::*;

use crate::bot::config::{owner_ids, Config, Emojis, Palette};
use crate::framework::reply::{ephemeral_bit, Embed, Reply};
use crate::framework::result::CommandError;
use crate::text::{decimal, take_chars, u64_to_decimal};

verus! {

/// What to do with a slash command interaction.
#[derive(Clone, Copy, Debug, PartialEq, Eq, Structural)]
pub enum Dispatch {
    /// No command has that name: answer with an error.
    Unknown,
    /// The command is for owners and the user is not one: answer with an error.
    NotOwner,
    /// Run the command.
    Run,
}

/// What to do with a slash command: whether a command of that name exists,
/// whether it is for owners only, and who invoked it.
pub open spec fn dispatch_of(found: bool, owner_only: bool, author: Option<u64>) -> Dispatch {
    if !found {
        Dispatch::Unknown
    } else if owner_only && !(author matches Some(id) && owner_ids().contains(id)) {
        Dispatch::NotOwner
    } else {
        Dispatch::Run
    }
}

/// Decides what to do with a slash command.
pub fn dispatch(found: bool, owner_only: bool, author: Option<u64>) -> (res: Dispatch)
    ensures
        res == dispatch_of(found, owner_only, author),
{
    if !found {
        return Dispatch::Unknown;
    }
    let allowed = match author {
        Some(id) => Config::is_bot_owner(id),
        None => false,
    };
    if owner_only && !allowed {
        Dispatch::NotOwner
    } else {
        Dispatch::Run
    }
}

/// A command runs only when it exists, and a command for owners runs only for
/// an owner.
pub proof fn lemma_only_owners_run_owner_commands(found: bool, owner_only: bool, author: Option<u64>)
    ensures
        dispatch_of(found, owner_only, author) == Dispatch::Run ==> found,
        dispatch_of(found, owner_only, author) == Dispatch::Run && owner_only ==> (author matches Some(id)
            && owner_ids().contains(id)),
        found && !owner_only ==> dispatch_of(found, owner_only, author) == Dispatch::Run,
{
}

/// The error answered for an unknown command.
pub fn unknown_command_error(name: &str) -> (res: CommandError)
    ensures
        res matches CommandError::Message(msg, edit) && msg@ == "Unknown command: `"@ + name@ + "`"@ && edit,
{
    CommandError::Message(String::from_str("Unknown command: `").concat(name).concat("`"), true)
}

/// The log line of a command use: `` `name (id)` has used `/command` ``.
pub fn usage_log(user_name: &str, user_id: u64, command: &str) -> (res: String)
    ensures
        res@ == "`"@ + user_name@ + " ("@ + decimal(user_id as nat) + ")` has used `/"@ + command@ + "`"@,
{
    String::from_str("`").concat(user_name).concat(" (").concat(u64_to_decimal(user_id).as_str()).concat(
        ")` has used `/",
    ).concat(command).concat("`")
}

/// The text shown for a command error: a fixed text for a missing permission,
/// the translated texts for a non-owner and for any other error, and the
/// message itself for a message error.
pub open spec fn error_content(err: CommandError, not_owner_text: Seq<char>, unknown_text: Seq<char>) -> Seq<char> {
    match err {
        CommandError::Permission(_) => "Missing Permissions!"@,
        CommandError::NotOwner => not_owner_text,
        CommandError::Message(msg, _) => msg@,
        CommandError::Anyhow(_) => unknown_text,
    }
}

/// The ephemeral answer to a command error: one red embed whose description is
/// the warning emoji and the error text.
pub fn error_response(err: &CommandError, not_owner_text: &str, unknown_text: &str) -> (res: Reply)
    ensures
        res.content is None,
        res.components@.len() == 0,
        res.embeds@.len() == 1,
        res.embeds@[0].color == Some(Palette::RED),
        res.embeds@[0].title is None,
        res.embeds@[0].description matches Some(d) && d@ == Emojis::WARN@ + " "@ + error_content(
            *err,
            not_owner_text@,
            unknown_text@,
        ),
        res.flags == 0u64 | ephemeral_bit(),
        res.allowed_mentions matches Some(m) && m.is_none(),
{
    let content = match err {
        CommandError::Permission(_) => "Missing Permissions!",
        CommandError::NotOwner => not_owner_text,
        CommandError::Message(msg, _) => msg.as_str(),
        CommandError::Anyhow(_) => unknown_text,
    };
    let text = String::from_str(Emojis::WARN).concat(" ").concat(content);
    let embed = Embed { color: Some(Palette::RED), title: None, description: Some(text) };
    Reply::new().embed(embed).ephemeral(true)
}

/// The longest content a log message may have, in characters.
pub open spec fn log_limit() -> int {
    2000
}

/// The longest description a warning embed may have, in characters.
pub open spec fn warning_limit() -> int {
    4096
}

/// The first characters of a text, up to a limit.
pub open spec fn cut(s: Seq<char>, limit: int) -> Seq<char> {
    s.take(if limit < s.len() { limit } else { s.len() as int })
}

/// The content of a log message: `` `[LOG]` `` and the message, cut to 2000 characters.
pub fn log_text(message: &str) -> (res: String)
    ensures
        res@ == cut("`[LOG]` "@ + message@, log_limit()),
{
    let full = String::from_str("`[LOG]` ").concat(message);
    take_chars(full.as_str(), 2000)
}

/// The embed of a warning: orange, titled `Warning`, the warning cut to 4096 characters.
pub fn warning_embed(warning: &str) -> (res: Embed)
    ensures
        res.color == Some(Palette::ORANGE),
        res.title matches Some(t) && t@ == "Warning"@,
        res.description matches Some(d) && d@ == cut(warning@, warning_limit()),
{
    Embed {
        color: Some(Palette::ORANGE),
        title: Some(String::from_str("Warning")),
        description: Some(take_chars(warning, 4096)),
    }
}

} // verus!
