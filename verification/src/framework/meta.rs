//! Static metadata of commands, and the builders of command options.

use vstd::prelude::*;

use crate::framework::context::OptionKind;

verus! {

/// Where a command can be installed.
#[derive(Clone, Copy, Debug, PartialEq, Eq, Structural)]
pub enum IntegrationType {
    GuildInstall,
    UserInstall,
}

/// Where a command can be used.
#[derive(Clone, Copy, Debug, PartialEq, Eq, Structural)]
pub enum ContextType {
    Guild,
    BotDm,
    PrivateChannel,
}

/// A bound on an integer option.
#[derive(Clone, Copy, Debug, PartialEq, Eq, Structural)]
pub enum OptionBound {
    Integer(i64),
}

/// The value of a predefined option choice.
#[derive(Debug)]
pub enum ChoiceValue {
    String(String),
    Integer(i64),
}

/// A predefined choice of an option.
#[derive(Debug)]
pub struct OptionChoice {
    pub name: String,
    pub value: ChoiceValue,
}

/// An option of a command, as declared to Discord.
#[derive(Debug)]
pub struct CommandOption {
    pub autocomplete: Option<bool>,
    /// Channel types, by their Discord numbers.
    pub channel_types: Option<Vec<u8>>,
    pub choices: Option<Vec<OptionChoice>>,
    pub description: String,
    pub description_localizations: Option<Vec<(String, String)>>,
    pub kind: OptionKind,
    pub max_length: Option<u16>,
    pub max_value: Option<OptionBound>,
    pub min_length: Option<u16>,
    pub min_value: Option<OptionBound>,
    pub name: String,
    pub name_localizations: Option<Vec<(String, String)>>,
    pub options: Option<Vec<CommandOption>>,
    pub required: Option<bool>,
}

/// Static metadata for a command.
#[derive(Debug)]
pub struct CommandMeta {
    pub name: &'static str,
    pub description: String,
    pub description_localizations: Option<Vec<(String, String)>>,
    pub category: &'static str,
    pub installations: Vec<IntegrationType>,
    pub contexts: Vec<ContextType>,
    pub guilds: Option<Vec<u64>>,
    pub owner_only: bool,
    pub options: Vec<CommandOption>,
}

/// Builder for [`CommandMeta`].
///
/// Defaults: installable in guilds and usable in guilds only, in the "general"
/// category, global (no guild list), open to everyone, without options.
pub struct CommandMetaBuilder {
    meta: CommandMeta,
}

impl View for CommandMetaBuilder {
    /// The metadata that `build` returns.
    type V = CommandMeta;

    closed spec fn view(&self) -> CommandMeta {
        self.meta
    }
}

/// The options built from a sequence of option builders, in order.
pub open spec fn built_options(bs: Seq<CommandOptionBuilder>) -> Seq<CommandOption> {
    bs.map_values(|b: CommandOptionBuilder| b@)
}

fn build_all(options: Vec<CommandOptionBuilder>) -> (res: Vec<CommandOption>)
    ensures
        res@ == built_options(options@),
{
    let ghost all = options@;
    let mut rest = options;
    let mut res: Vec<CommandOption> = Vec::new();
    while rest.len() > 0
        invariant
            rest@.len() <= all.len(),
            rest@ == all.take(rest@.len() as int),
            res@ == built_options(all).skip(rest@.len() as int),
        decreases rest@.len(),
    {
        let b = rest.pop().unwrap();
        proof {
            assert(b == all[rest@.len() as int]);
        }
        res.insert(0, b.build());
        assert(rest@ =~= all.take(rest@.len() as int));
        assert(res@ =~= built_options(all).skip(rest@.len() as int));
    }
    res
}

impl CommandMeta {
    pub fn builder(name: &'static str, description: String) -> (res: CommandMetaBuilder)
        ensures
            res@.name == name,
            res@.description == description,
            res@.description_localizations is None,
            res@.category@ == "general"@,
            res@.installations@ == seq![IntegrationType::GuildInstall],
            res@.contexts@ == seq![ContextType::Guild],
            res@.guilds is None,
            !res@.owner_only,
            res@.options@.len() == 0,
    {
        CommandMetaBuilder {
            meta: CommandMeta {
                name,
                description,
                description_localizations: None,
                category: "general",
                installations: vec![IntegrationType::GuildInstall],
                contexts: vec![ContextType::Guild],
                guilds: None,
                owner_only: false,
                options: Vec::new(),
            },
        }
    }
}

} // verus!

verus! {

impl CommandMetaBuilder {
    pub fn category(self, category: &'static str) -> (res: Self)
        ensures
            res@ == (CommandMeta { category, ..self@ }),
    {
        CommandMetaBuilder { meta: CommandMeta { category, ..self.meta } }
    }

    pub fn description_localizations(self, descriptions: Vec<(String, String)>) -> (res: Self)
        ensures
            res@ == (CommandMeta { description_localizations: Some(descriptions), ..self@ }),
    {
        CommandMetaBuilder {
            meta: CommandMeta { description_localizations: Some(descriptions), ..self.meta },
        }
    }

    pub fn installations(self, installations: Vec<IntegrationType>) -> (res: Self)
        ensures
            res@ == (CommandMeta { installations, ..self@ }),
    {
        CommandMetaBuilder { meta: CommandMeta { installations, ..self.meta } }
    }

    pub fn contexts(self, contexts: Vec<ContextType>) -> (res: Self)
        ensures
            res@ == (CommandMeta { contexts, ..self@ }),
    {
        CommandMetaBuilder { meta: CommandMeta { contexts, ..self.meta } }
    }

    /// Restricts the command to the given guilds.
    pub fn guilds(self, guilds: Vec<u64>) -> (res: Self)
        ensures
            res@ == (CommandMeta { guilds: Some(guilds), ..self@ }),
    {
        CommandMetaBuilder { meta: CommandMeta { guilds: Some(guilds), ..self.meta } }
    }

    pub fn owner_only(self, owner_only: bool) -> (res: Self)
        ensures
            res@ == (CommandMeta { owner_only, ..self@ }),
    {
        CommandMetaBuilder { meta: CommandMeta { owner_only, ..self.meta } }
    }

    /// Sets the options, built from the given builders in order.
    pub fn options(self, options: Vec<CommandOptionBuilder>) -> (res: Self)
        ensures
            res@.options@ == built_options(options@),
            res@.name == self@.name,
            res@.description == self@.description,
            res@.description_localizations == self@.description_localizations,
            res@.category == self@.category,
            res@.installations == self@.installations,
            res@.contexts == self@.contexts,
            res@.guilds == self@.guilds,
            res@.owner_only == self@.owner_only,
    {
        let built = build_all(options);
        CommandMetaBuilder { meta: CommandMeta { options: built, ..self.meta } }
    }

    pub fn build(self) -> (res: CommandMeta)
        ensures
            res == self@,
    {
        self.meta
    }
}

/// A command option builder.
pub struct CommandOptionBuilder {
    inner: CommandOption,
}

impl View for CommandOptionBuilder {
    /// The option that `build` returns.
    type V = CommandOption;

    closed spec fn view(&self) -> CommandOption {
        self.inner
    }
}

/// An option of the given kind, name and description, with nothing else set.
pub open spec fn fresh_option(v: CommandOption, kind: OptionKind, name: String, description: String) -> bool {
    v == CommandOption {
        autocomplete: None,
        channel_types: None,
        choices: None,
        description,
        description_localizations: None,
        kind,
        max_length: None,
        max_value: None,
        min_length: None,
        min_value: None,
        name,
        name_localizations: None,
        options: None,
        required: None,
    }
}

impl CommandOptionBuilder {
    fn new(kind: OptionKind, name: String, description: String) -> (res: Self)
        ensures
            fresh_option(res@, kind, name, description),
    {
        CommandOptionBuilder {
            inner: CommandOption {
                autocomplete: None,
                channel_types: None,
                choices: None,
                description,
                description_localizations: None,
                kind,
                max_length: None,
                max_value: None,
                min_length: None,
                min_value: None,
                name,
                name_localizations: None,
                options: None,
                required: None,
            },
        }
    }

    pub fn string(name: String, description: String) -> (res: Self)
        ensures
            fresh_option(res@, OptionKind::String, name, description),
    {
        Self::new(OptionKind::String, name, description)
    }

    pub fn integer(name: String, description: String) -> (res: Self)
        ensures
            fresh_option(res@, OptionKind::Integer, name, description),
    {
        Self::new(OptionKind::Integer, name, description)
    }

    pub fn number(name: String, description: String) -> (res: Self)
        ensures
            fresh_option(res@, OptionKind::Number, name, description),
    {
        Self::new(OptionKind::Number, name, description)
    }

    pub fn boolean(name: String, description: String) -> (res: Self)
        ensures
            fresh_option(res@, OptionKind::Boolean, name, description),
    {
        Self::new(OptionKind::Boolean, name, description)
    }

    pub fn user(name: String, description: String) -> (res: Self)
        ensures
            fresh_option(res@, OptionKind::User, name, description),
    {
        Self::new(OptionKind::User, name, description)
    }

    pub fn channel(name: String, description: String) -> (res: Self)
        ensures
            fresh_option(res@, OptionKind::Channel, name, description),
    {
        Self::new(OptionKind::Channel, name, description)
    }

    pub fn role(name: String, description: String) -> (res: Self)
        ensures
            fresh_option(res@, OptionKind::Role, name, description),
    {
        Self::new(OptionKind::Role, name, description)
    }

    pub fn mentionable(name: String, description: String) -> (res: Self)
        ensures
            fresh_option(res@, OptionKind::Mentionable, name, description),
    {
        Self::new(OptionKind::Mentionable, name, description)
    }

    pub fn attachment(name: String, description: String) -> (res: Self)
        ensures
            fresh_option(res@, OptionKind::Attachment, name, description),
    {
        Self::new(OptionKind::Attachment, name, description)
    }

    pub fn subcommand(name: String, description: String) -> (res: Self)
        ensures
            fresh_option(res@, OptionKind::SubCommand, name, description),
    {
        Self::new(OptionKind::SubCommand, name, description)
    }

    pub fn subcommand_group(name: String, description: String) -> (res: Self)
        ensures
            fresh_option(res@, OptionKind::SubCommandGroup, name, description),
    {
        Self::new(OptionKind::SubCommandGroup, name, description)
    }

    pub fn required(self, required: bool) -> (res: Self)
        ensures
            res@ == (CommandOption { required: Some(required), ..self@ }),
    {
        CommandOptionBuilder { inner: CommandOption { required: Some(required), ..self.inner } }
    }

    pub fn autocomplete(self, autocomplete: bool) -> (res: Self)
        ensures
            res@ == (CommandOption { autocomplete: Some(autocomplete), ..self@ }),
    {
        CommandOptionBuilder { inner: CommandOption { autocomplete: Some(autocomplete), ..self.inner } }
    }

    pub fn min_length(self, min: u16) -> (res: Self)
        ensures
            res@ == (CommandOption { min_length: Some(min), ..self@ }),
    {
        CommandOptionBuilder { inner: CommandOption { min_length: Some(min), ..self.inner } }
    }

    pub fn max_length(self, max: u16) -> (res: Self)
        ensures
            res@ == (CommandOption { max_length: Some(max), ..self@ }),
    {
        CommandOptionBuilder { inner: CommandOption { max_length: Some(max), ..self.inner } }
    }

    pub fn min_value_int(self, min: i64) -> (res: Self)
        ensures
            res@ == (CommandOption { min_value: Some(OptionBound::Integer(min)), ..self@ }),
    {
        CommandOptionBuilder {
            inner: CommandOption { min_value: Some(OptionBound::Integer(min)), ..self.inner },
        }
    }

    pub fn max_value_int(self, max: i64) -> (res: Self)
        ensures
            res@ == (CommandOption { max_value: Some(OptionBound::Integer(max)), ..self@ }),
    {
        CommandOptionBuilder {
            inner: CommandOption { max_value: Some(OptionBound::Integer(max)), ..self.inner },
        }
    }

    /// Restricts a channel option to channel types, by their Discord numbers.
    pub fn channel_types(self, types: Vec<u8>) -> (res: Self)
        ensures
            res@ == (CommandOption { channel_types: Some(types), ..self@ }),
    {
        CommandOptionBuilder { inner: CommandOption { channel_types: Some(types), ..self.inner } }
    }

    /// Adds a string choice after the existing ones.
    pub fn add_choice_string(self, name: String, value: String) -> (res: Self)
        ensures
            res@.choices matches Some(cs) && cs@ == choices_of(self@).push(
                OptionChoice { name, value: ChoiceValue::String(value) },
            ),
            same_but_choices(res@, self@),
    {
        let mut inner = self.inner;
        let mut choices = match inner.choices {
            Some(cs) => cs,
            None => Vec::new(),
        };
        choices.push(OptionChoice { name, value: ChoiceValue::String(value) });
        CommandOptionBuilder { inner: CommandOption { choices: Some(choices), ..inner } }
    }

    /// Adds an integer choice after the existing ones.
    pub fn add_choice_int(self, name: String, value: i64) -> (res: Self)
        ensures
            res@.choices matches Some(cs) && cs@ == choices_of(self@).push(
                OptionChoice { name, value: ChoiceValue::Integer(value) },
            ),
            same_but_choices(res@, self@),
    {
        let mut inner = self.inner;
        let mut choices = match inner.choices {
            Some(cs) => cs,
            None => Vec::new(),
        };
        choices.push(OptionChoice { name, value: ChoiceValue::Integer(value) });
        CommandOptionBuilder { inner: CommandOption { choices: Some(choices), ..inner } }
    }

    /// Adds a sub-option after the existing ones.
    pub fn option(self, option: CommandOptionBuilder) -> (res: Self)
        ensures
            res@.options matches Some(os) && os@ == sub_options_of(self@).push(option@),
            same_but_sub_options(res@, self@),
    {
        let mut inner = self.inner;
        let mut options = match inner.options {
            Some(os) => os,
            None => Vec::new(),
        };
        options.push(option.build());
        CommandOptionBuilder { inner: CommandOption { options: Some(options), ..inner } }
    }

    /// Sets the sub-options, built from the given builders in order.
    pub fn options(self, options: Vec<CommandOptionBuilder>) -> (res: Self)
        ensures
            res@.options matches Some(os) && os@ == built_options(options@),
            same_but_sub_options(res@, self@),
    {
        let built = build_all(options);
        CommandOptionBuilder { inner: CommandOption { options: Some(built), ..self.inner } }
    }

    pub fn name_localizations(self, map: Vec<(String, String)>) -> (res: Self)
        ensures
            res@ == (CommandOption { name_localizations: Some(map), ..self@ }),
    {
        CommandOptionBuilder { inner: CommandOption { name_localizations: Some(map), ..self.inner } }
    }

    pub fn description_localizations(self, map: Vec<(String, String)>) -> (res: Self)
        ensures
            res@ == (CommandOption { description_localizations: Some(map), ..self@ }),
    {
        CommandOptionBuilder {
            inner: CommandOption { description_localizations: Some(map), ..self.inner },
        }
    }

    pub fn build(self) -> (res: CommandOption)
        ensures
            res == self@,
    {
        self.inner
    }
}

/// The choices of an option so far (none when unset).
pub open spec fn choices_of(o: CommandOption) -> Seq<OptionChoice> {
    match o.choices {
        Some(cs) => cs@,
        None => Seq::empty(),
    }
}

/// The sub-options of an option so far (none when unset).
pub open spec fn sub_options_of(o: CommandOption) -> Seq<CommandOption> {
    match o.options {
        Some(os) => os@,
        None => Seq::empty(),
    }
}

/// `a` and `b` agree on every field but the choices.
pub open spec fn same_but_choices(a: CommandOption, b: CommandOption) -> bool {
    &&& a.autocomplete == b.autocomplete
    &&& a.channel_types == b.channel_types
    &&& a.description == b.description
    &&& a.description_localizations == b.description_localizations
    &&& a.kind == b.kind
    &&& a.max_length == b.max_length
    &&& a.max_value == b.max_value
    &&& a.min_length == b.min_length
    &&& a.min_value == b.min_value
    &&& a.name == b.name
    &&& a.name_localizations == b.name_localizations
    &&& a.options == b.options
    &&& a.required == b.required
}

/// `a` and `b` agree on every field but the sub-options.
pub open spec fn same_but_sub_options(a: CommandOption, b: CommandOption) -> bool {
    &&& a.autocomplete == b.autocomplete
    &&& a.channel_types == b.channel_types
    &&& a.choices == b.choices
    &&& a.description == b.description
    &&& a.description_localizations == b.description_localizations
    &&& a.kind == b.kind
    &&& a.max_length == b.max_length
    &&& a.max_value == b.max_value
    &&& a.min_length == b.min_length
    &&& a.min_value == b.min_value
    &&& a.name == b.name
    &&& a.name_localizations == b.name_localizations
    &&& a.required == b.required
}

impl From<CommandOptionBuilder> for CommandOption {
    /// Builds the option.
    fn from(builder: CommandOptionBuilder) -> (res: Self) {
        builder.build()
    }
}

impl vstd::std_specs::convert::FromSpecImpl<CommandOptionBuilder> for CommandOption {
    open spec fn obeys_from_spec() -> bool {
        true
    }

    open spec fn from_spec(v: CommandOptionBuilder) -> CommandOption {
        v@
    }
}

} // verus!
