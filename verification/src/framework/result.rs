//! The errors of command handlers.

use vstd::prelude::*;

use crate::framework::context::OptionError;

verus! {

/// The error type of a command handler.
#[derive(Debug)]
pub enum CommandError {
    /// Any error, by its message.
    Anyhow(String),
    /// The user is missing a permission required to run the command.
    Permission(String),
    /// An error message.
    Message(String, bool),
    /// Command is restricted to the bot owner.
    NotOwner,
}

/// The text of an option error.
pub open spec fn option_error_text(e: OptionError) -> Seq<char> {
    match e {
        OptionError::Missing(name) => "missing required option `"@ + name@ + "`"@,
        OptionError::WrongType(name) => "option `"@ + name@ + "` had an unexpected type"@,
    }
}

/// The text of a command error.
pub open spec fn command_error_text(e: CommandError) -> Seq<char> {
    match e {
        CommandError::Anyhow(msg) => msg@,
        CommandError::Permission(msg) => "Permission: "@ + msg@,
        CommandError::Message(msg, _) => "Message: "@ + msg@,
        CommandError::NotOwner => "The user is not an owner"@,
    }
}

impl OptionError {
    /// The text of the error (its `Display`).
    pub fn to_text(&self) -> (res: String)
        ensures
            res@ == option_error_text(*self),
    {
        match self {
            OptionError::Missing(name) => String::from_str("missing required option `").concat(
                name,
            ).concat("`"),
            OptionError::WrongType(name) => String::from_str("option `").concat(name).concat(
                "` had an unexpected type",
            ),
        }
    }
}

impl CommandError {
    /// The text of the error (its `Display`).
    pub fn to_text(&self) -> (res: String)
        ensures
            res@ == command_error_text(*self),
    {
        match self {
            CommandError::Anyhow(msg) => msg.clone(),
            CommandError::Permission(msg) => String::from_str("Permission: ").concat(msg.as_str()),
            CommandError::Message(msg, _) => String::from_str("Message: ").concat(msg.as_str()),
            CommandError::NotOwner => String::from_str("The user is not an owner"),
        }
    }

    /// An option error, as a command error carrying its text.
    pub fn from_option_error(e: OptionError) -> (res: CommandError)
        ensures
            res matches CommandError::Anyhow(msg) && msg@ == option_error_text(e),
    {
        CommandError::Anyhow(e.to_text())
    }
}

} // verus!
