//! What a command handler reads of its interaction, and the rule of the
//! initial response.

use vstd::prelude::*;

use crate::text::str_eq;

verus! {

/// The type of a command option.
#[derive(Clone, Copy, Debug, PartialEq, Eq, Structural)]
pub enum OptionKind {
    SubCommand,
    SubCommandGroup,
    String,
    Integer,
    Boolean,
    User,
    Channel,
    Role,
    Mentionable,
    Number,
    Attachment,
}

/// The value of an option of an invoked command.
#[derive(Debug)]
pub enum OptionValue {
    SubCommand(Vec<DataOption>),
    SubCommandGroup(Vec<DataOption>),
    String(String),
    Integer(i64),
    Boolean(bool),
    User(u64),
    Channel(u64),
    Role(u64),
    Mentionable(u64),
    Attachment(u64),
    /// A number option; its floating-point value is not carried here.
    Number,
    /// The option being typed during autocomplete: its raw text and its type.
    Focused(String, OptionKind),
}

/// A named option of an invoked command.
#[derive(Debug)]
pub struct DataOption {
    pub name: String,
    pub value: OptionValue,
}

/// Errors of the option getters.
#[derive(Debug)]
pub enum OptionError {
    Missing(&'static str),
    WrongType(&'static str),
}

/// The options that apply to the invoked (sub)command: those of the subcommand
/// when the first option is one, those of the first subcommand of a group when
/// the first option is a group whose first option is a subcommand, and the
/// top-level options otherwise.
pub open spec fn resolved(top: Seq<DataOption>) -> Seq<DataOption> {
    if top.len() > 0 {
        match top[0].value {
            OptionValue::SubCommand(opts) => opts@,
            OptionValue::SubCommandGroup(group) => {
                if group@.len() > 0 {
                    match group@[0].value {
                        OptionValue::SubCommand(opts) => opts@,
                        _ => top,
                    }
                } else {
                    top
                }
            },
            _ => top,
        }
    } else {
        top
    }
}

/// The first option named `name`, if any.
pub open spec fn first_named(opts: Seq<DataOption>, name: Seq<char>) -> Option<DataOption>
    decreases opts.len(),
{
    if opts.len() == 0 {
        None
    } else if opts[0].name@ == name {
        Some(opts[0])
    } else {
        first_named(opts.drop_first(), name)
    }
}

/// The first focused option, if any.
pub open spec fn first_focused(opts: Seq<DataOption>) -> Option<DataOption>
    decreases opts.len(),
{
    if opts.len() == 0 {
        None
    } else if opts[0].value is Focused {
        Some(opts[0])
    } else {
        first_focused(opts.drop_first())
    }
}

/// What a command handler reads of its interaction.
pub struct CommandContext {
    /// The options of the invoked command, as sent.
    pub options: Vec<DataOption>,
    /// The user who invoked the command.
    pub user_id: u64,
    /// The guild it was invoked in, if any.
    pub guild_id: Option<u64>,
    /// The user's Discord locale, if sent.
    pub locale: Option<String>,
    /// The values chosen in a select menu, for a component interaction.
    pub values: Vec<String>,
    /// Whether the initial interaction response (ack, defer or reply) has been sent.
    pub has_sent_initial_response: bool,
}

fn first_named_index(opts: &Vec<DataOption>, name: &str) -> (res: Option<usize>)
    ensures
        match res {
            Some(i) => i < opts@.len() && first_named(opts@, name@) == Some(opts@[i as int]),
            None => first_named(opts@, name@) is None,
        },
{
    let mut i: usize = 0;
    assert(opts@.skip(0) =~= opts@);
    while i < opts.len()
        invariant
            i <= opts@.len(),
            first_named(opts@.skip(i as int), name@) == first_named(opts@, name@),
        decreases opts@.len() - i,
    {
        assert(opts@.skip(i as int)[0] == opts@[i as int]);
        if str_eq(opts[i].name.as_str(), name) {
            return Some(i);
        }
        assert(opts@.skip(i as int).drop_first() =~= opts@.skip(i + 1));
        i = i + 1;
    }
    None
}

fn first_focused_index(opts: &Vec<DataOption>) -> (res: Option<usize>)
    ensures
        match res {
            Some(i) => i < opts@.len() && first_focused(opts@) == Some(opts@[i as int]),
            None => first_focused(opts@) is None,
        },
{
    let mut i: usize = 0;
    assert(opts@.skip(0) =~= opts@);
    while i < opts.len()
        invariant
            i <= opts@.len(),
            first_focused(opts@.skip(i as int)) == first_focused(opts@),
        decreases opts@.len() - i,
    {
        assert(opts@.skip(i as int)[0] == opts@[i as int]);
        if let OptionValue::Focused(_, _) = &opts[i].value {
            return Some(i);
        }
        assert(opts@.skip(i as int).drop_first() =~= opts@.skip(i + 1));
        i = i + 1;
    }
    None
}

/// The name of the invoked subcommand: the first option when it is a subcommand,
/// or the first option of the first option when that is a group.
pub open spec fn subcommand_name(top: Seq<DataOption>) -> Option<Seq<char>> {
    if top.len() > 0 {
        match top[0].value {
            OptionValue::SubCommand(_) => Some(top[0].name@),
            OptionValue::SubCommandGroup(group) => if group@.len() > 0 {
                Some(group@[0].name@)
            } else {
                None
            },
            _ => None,
        }
    } else {
        None
    }
}

/// The name of the invoked subcommand group: the first option when it is a group.
pub open spec fn subcommand_group_name(top: Seq<DataOption>) -> Option<Seq<char>> {
    if top.len() > 0 && top[0].value is SubCommandGroup {
        Some(top[0].name@)
    } else {
        None
    }
}

/// The text of the string option `name` of the invoked (sub)command: the first
/// option so named must hold a string.
pub open spec fn string_option(top: Seq<DataOption>, name: Seq<char>) -> Option<Seq<char>> {
    match first_named(resolved(top), name) {
        Some(o) => match o.value {
            OptionValue::String(s) => Some(s@),
            _ => None,
        },
        None => None,
    }
}

/// The integer option `name`, on the same rule.
pub open spec fn integer_option(top: Seq<DataOption>, name: Seq<char>) -> Option<i64> {
    match first_named(resolved(top), name) {
        Some(o) => match o.value {
            OptionValue::Integer(v) => Some(v),
            _ => None,
        },
        None => None,
    }
}

/// The boolean option `name`, on the same rule.
pub open spec fn boolean_option(top: Seq<DataOption>, name: Seq<char>) -> Option<bool> {
    match first_named(resolved(top), name) {
        Some(o) => match o.value {
            OptionValue::Boolean(v) => Some(v),
            _ => None,
        },
        None => None,
    }
}

/// The kinds of options that hold an id.
#[derive(Clone, Copy, Debug, PartialEq, Eq, Structural)]
pub enum IdKind {
    User,
    Channel,
    Role,
    Mentionable,
    Attachment,
}

/// The id an option value holds, if it is of the given kind.
pub open spec fn id_of(v: OptionValue, kind: IdKind) -> Option<u64> {
    match (v, kind) {
        (OptionValue::User(id), IdKind::User) => Some(id),
        (OptionValue::Channel(id), IdKind::Channel) => Some(id),
        (OptionValue::Role(id), IdKind::Role) => Some(id),
        (OptionValue::Mentionable(id), IdKind::Mentionable) => Some(id),
        (OptionValue::Attachment(id), IdKind::Attachment) => Some(id),
        _ => None,
    }
}

/// The id option `name` of the given kind, on the same rule.
pub open spec fn id_option(top: Seq<DataOption>, name: Seq<char>, kind: IdKind) -> Option<u64> {
    match first_named(resolved(top), name) {
        Some(o) => id_of(o.value, kind),
        None => None,
    }
}

/// The name, raw text and type of the focused option of the invoked (sub)command.
pub open spec fn focused_option(top: Seq<DataOption>) -> Option<(Seq<char>, Seq<char>, OptionKind)> {
    match first_focused(resolved(top)) {
        Some(o) => match o.value {
            OptionValue::Focused(raw, kind) => Some((o.name@, raw@, kind)),
            _ => None,
        },
        None => None,
    }
}

/// The focused text, when the focused option is neither an integer nor a number.
pub open spec fn focused_string(top: Seq<DataOption>) -> Option<Seq<char>> {
    match focused_option(top) {
        Some((_, raw, kind)) => if kind == OptionKind::Integer || kind == OptionKind::Number {
            None
        } else {
            Some(raw)
        },
        None => None,
    }
}

/// What a required getter gives for a found value.
pub open spec fn required<T>(found: Option<T>, name: &'static str) -> Result<T, OptionError> {
    match found {
        Some(v) => Ok(v),
        None => Err(OptionError::Missing(name)),
    }
}

impl CommandContext {
    pub fn new(
        options: Vec<DataOption>,
        user_id: u64,
        guild_id: Option<u64>,
        locale: Option<String>,
        values: Vec<String>,
    ) -> (res: Self)
        ensures
            res.options == options,
            res.user_id == user_id,
            res.guild_id == guild_id,
            res.locale == locale,
            res.values == values,
            !res.has_sent_initial_response,
    {
        CommandContext { options, user_id, guild_id, locale, values, has_sent_initial_response: false }
    }

    pub fn user_id(&self) -> (res: u64)
        ensures
            res == self.user_id,
    {
        self.user_id
    }

    pub fn guild_id(&self) -> (res: Option<u64>)
        ensures
            res == self.guild_id,
    {
        self.guild_id
    }

    /// The options of the invoked command, as sent.
    pub fn options(&self) -> (res: &[DataOption])
        ensures
            res@ == self.options@,
    {
        self.options.as_slice()
    }

    /// Name of the invoked subcommand.
    pub fn get_subcommand(&self) -> (res: Option<&str>)
        ensures
            match res {
                Some(s) => subcommand_name(self.options@) == Some(s@),
                None => subcommand_name(self.options@) is None,
            },
    {
        if self.options.len() == 0 {
            return None;
        }
        let first = &self.options[0];
        match &first.value {
            OptionValue::SubCommand(_) => Some(first.name.as_str()),
            OptionValue::SubCommandGroup(group) => {
                if group.len() > 0 {
                    Some(group[0].name.as_str())
                } else {
                    None
                }
            },
            _ => None,
        }
    }

    /// Name of the invoked subcommand group.
    pub fn get_subcommand_group(&self) -> (res: Option<&str>)
        ensures
            match res {
                Some(s) => subcommand_group_name(self.options@) == Some(s@),
                None => subcommand_group_name(self.options@) is None,
            },
    {
        if self.options.len() == 0 {
            return None;
        }
        let first = &self.options[0];
        match &first.value {
            OptionValue::SubCommandGroup(_) => Some(first.name.as_str()),
            _ => None,
        }
    }

    fn resolved_options(&self) -> (res: &Vec<DataOption>)
        ensures
            res@ == resolved(self.options@),
    {
        let top = &self.options;
        if top.len() == 0 {
            return top;
        }
        match &top[0].value {
            OptionValue::SubCommand(opts) => opts,
            OptionValue::SubCommandGroup(group) => {
                if group.len() > 0 {
                    match &group[0].value {
                        OptionValue::SubCommand(opts) => opts,
                        _ => top,
                    }
                } else {
                    top
                }
            },
            _ => top,
        }
    }

    fn find_option(&self, name: &str) -> (res: Option<&DataOption>)
        ensures
            match res {
                Some(o) => first_named(resolved(self.options@), name@) == Some(*o),
                None => first_named(resolved(self.options@), name@) is None,
            },
    {
        let opts = self.resolved_options();
        match first_named_index(opts, name) {
            Some(i) => Some(&opts[i]),
            None => None,
        }
    }

    pub fn get_string_option(&self, name: &str) -> (res: Option<&str>)
        ensures
            match res {
                Some(s) => string_option(self.options@, name@) == Some(s@),
                None => string_option(self.options@, name@) is None,
            },
    {
        match self.find_option(name) {
            Some(o) => match &o.value {
                OptionValue::String(s) => Some(s.as_str()),
                _ => None,
            },
            None => None,
        }
    }

    pub fn require_string_option(&self, name: &'static str) -> (res: Result<&str, OptionError>)
        ensures
            match res {
                Ok(s) => string_option(self.options@, name@) == Some(s@),
                Err(e) => string_option(self.options@, name@) is None && e == OptionError::Missing(
                    name,
                ),
            },
    {
        match self.get_string_option(name) {
            Some(s) => Ok(s),
            None => Err(OptionError::Missing(name)),
        }
    }

    pub fn get_integer_option(&self, name: &str) -> (res: Option<i64>)
        ensures
            res == integer_option(self.options@, name@),
    {
        match self.find_option(name) {
            Some(o) => match &o.value {
                OptionValue::Integer(v) => Some(*v),
                _ => None,
            },
            None => None,
        }
    }

    pub fn require_integer_option(&self, name: &'static str) -> (res: Result<i64, OptionError>)
        ensures
            res == required(integer_option(self.options@, name@), name),
    {
        match self.get_integer_option(name) {
            Some(v) => Ok(v),
            None => Err(OptionError::Missing(name)),
        }
    }

    pub fn get_boolean_option(&self, name: &str) -> (res: Option<bool>)
        ensures
            res == boolean_option(self.options@, name@),
    {
        match self.find_option(name) {
            Some(o) => match &o.value {
                OptionValue::Boolean(v) => Some(*v),
                _ => None,
            },
            None => None,
        }
    }

    pub fn require_boolean_option(&self, name: &'static str) -> (res: Result<bool, OptionError>)
        ensures
            res == required(boolean_option(self.options@, name@), name),
    {
        match self.get_boolean_option(name) {
            Some(v) => Ok(v),
            None => Err(OptionError::Missing(name)),
        }
    }

    fn get_id_option(&self, name: &str, kind: IdKind) -> (res: Option<u64>)
        ensures
            res == id_option(self.options@, name@, kind),
    {
        match self.find_option(name) {
            Some(o) => match (&o.value, kind) {
                (OptionValue::User(id), IdKind::User) => Some(*id),
                (OptionValue::Channel(id), IdKind::Channel) => Some(*id),
                (OptionValue::Role(id), IdKind::Role) => Some(*id),
                (OptionValue::Mentionable(id), IdKind::Mentionable) => Some(*id),
                (OptionValue::Attachment(id), IdKind::Attachment) => Some(*id),
                _ => None,
            },
            None => None,
        }
    }

    pub fn get_user_option(&self, name: &str) -> (res: Option<u64>)
        ensures
            res == id_option(self.options@, name@, IdKind::User),
    {
        self.get_id_option(name, IdKind::User)
    }

    pub fn require_user_option(&self, name: &'static str) -> (res: Result<u64, OptionError>)
        ensures
            res == required(id_option(self.options@, name@, IdKind::User), name),
    {
        match self.get_id_option(name, IdKind::User) {
            Some(v) => Ok(v),
            None => Err(OptionError::Missing(name)),
        }
    }

    pub fn get_channel_option(&self, name: &str) -> (res: Option<u64>)
        ensures
            res == id_option(self.options@, name@, IdKind::Channel),
    {
        self.get_id_option(name, IdKind::Channel)
    }

    pub fn require_channel_option(&self, name: &'static str) -> (res: Result<u64, OptionError>)
        ensures
            res == required(id_option(self.options@, name@, IdKind::Channel), name),
    {
        match self.get_id_option(name, IdKind::Channel) {
            Some(v) => Ok(v),
            None => Err(OptionError::Missing(name)),
        }
    }

    pub fn get_role_option(&self, name: &str) -> (res: Option<u64>)
        ensures
            res == id_option(self.options@, name@, IdKind::Role),
    {
        self.get_id_option(name, IdKind::Role)
    }

    pub fn require_role_option(&self, name: &'static str) -> (res: Result<u64, OptionError>)
        ensures
            res == required(id_option(self.options@, name@, IdKind::Role), name),
    {
        match self.get_id_option(name, IdKind::Role) {
            Some(v) => Ok(v),
            None => Err(OptionError::Missing(name)),
        }
    }

    pub fn get_mentionable_option(&self, name: &str) -> (res: Option<u64>)
        ensures
            res == id_option(self.options@, name@, IdKind::Mentionable),
    {
        self.get_id_option(name, IdKind::Mentionable)
    }

    pub fn require_mentionable_option(&self, name: &'static str) -> (res: Result<u64, OptionError>)
        ensures
            res == required(id_option(self.options@, name@, IdKind::Mentionable), name),
    {
        match self.get_id_option(name, IdKind::Mentionable) {
            Some(v) => Ok(v),
            None => Err(OptionError::Missing(name)),
        }
    }

    pub fn get_attachment_option(&self, name: &str) -> (res: Option<u64>)
        ensures
            res == id_option(self.options@, name@, IdKind::Attachment),
    {
        self.get_id_option(name, IdKind::Attachment)
    }

    pub fn require_attachment_option(&self, name: &'static str) -> (res: Result<u64, OptionError>)
        ensures
            res == required(id_option(self.options@, name@, IdKind::Attachment), name),
    {
        match self.get_id_option(name, IdKind::Attachment) {
            Some(v) => Ok(v),
            None => Err(OptionError::Missing(name)),
        }
    }

    /// The autocomplete focused option: its name, raw text and type.
    pub fn get_focused_option(&self) -> (res: Option<(&str, &str, OptionKind)>)
        ensures
            match res {
                Some((n, raw, kind)) => focused_option(self.options@) == Some((n@, raw@, kind)),
                None => focused_option(self.options@) is None,
            },
    {
        let opts = self.resolved_options();
        match first_focused_index(opts) {
            Some(i) => match &opts[i].value {
                OptionValue::Focused(raw, kind) => Some((opts[i].name.as_str(), raw.as_str(), *kind)),
                _ => None,
            },
            None => None,
        }
    }

    /// The focused text, when the focused option is a string.
    pub fn get_focused_string(&self) -> (res: Option<&str>)
        ensures
            match res {
                Some(s) => focused_string(self.options@) == Some(s@),
                None => focused_string(self.options@) is None,
            },
    {
        match self.get_focused_option() {
            Some((_, raw, kind)) => match kind {
                OptionKind::Integer | OptionKind::Number => None,
                _ => Some(raw),
            },
            None => None,
        }
    }

    /// Whether the initial interaction response has been sent.
    pub fn has_sent_initial_response(&self) -> (res: bool)
        ensures
            res == self.has_sent_initial_response,
    {
        self.has_sent_initial_response
    }

    /// Claims the initial response: it succeeds only once; either way the
    /// initial response counts as sent afterwards.
    pub fn claim_initial_response(&mut self) -> (res: Result<(), InitialResponseError>)
        ensures
            final(self).has_sent_initial_response,
            res is Err <==> old(self).has_sent_initial_response,
            final(self).options == old(self).options,
            final(self).user_id == old(self).user_id,
            final(self).guild_id == old(self).guild_id,
            final(self).locale == old(self).locale,
            final(self).values == old(self).values,
    {
        let already = self.has_sent_initial_response;
        self.has_sent_initial_response = true;
        if already {
            Err(InitialResponseError)
        } else {
            Ok(())
        }
    }
}

/// The initial interaction response was already sent.
#[derive(Debug, PartialEq, Eq, Structural)]
pub struct InitialResponseError;

} // verus!
