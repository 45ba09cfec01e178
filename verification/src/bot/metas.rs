//! The metadata of the bot's slash commands: who may run them, where, and
//! their options.

use vstd::prelude::*;

use crate::bot::commands::{
    AccountCommand, ConfigCommand, DocsCommand, HelpCommand, PanelsCommand, PingCommand,
    TroubleshootCommand, UserCommand,
};
use crate::framework::context::OptionKind;
use crate::orion_api::types::CreditTransactionType;
use crate::framework::meta::{
    built_options, ChoiceValue, CommandMeta, CommandOption, CommandOptionBuilder, ContextType,
    IntegrationType, OptionBound,
};

verus! {

/// An owner-only command of the support server, with its name and description.
pub open spec fn is_private_meta(m: CommandMeta, name: Seq<char>, description: Seq<char>, support_guild_id: u64) -> bool {
    &&& m.name@ == name
    &&& m.description@ == description
    &&& m.description_localizations is None
    &&& m.category@ == "Private"@
    &&& m.installations@ == seq![IntegrationType::GuildInstall]
    &&& m.contexts@ == seq![ContextType::Guild]
    &&& m.owner_only
    &&& m.guilds matches Some(g) && g@ == seq![support_guild_id]
}

/// An option of the given kind, name and description, required or not, with
/// the given bounds and longest length, and none of the other settings; its
/// choices and sub-options are stated apart.
pub open spec fn is_option(
    o: CommandOption,
    kind: OptionKind,
    name: Seq<char>,
    description: Seq<char>,
    required: Option<bool>,
    min: Option<i64>,
    max: Option<i64>,
    max_length: Option<u16>,
) -> bool {
    &&& o.kind == kind
    &&& o.name@ == name
    &&& o.description@ == description
    &&& o.required == required
    &&& o.autocomplete is None
    &&& o.channel_types is None
    &&& o.description_localizations is None
    &&& o.name_localizations is None
    &&& o.min_length is None
    &&& o.max_length == max_length
    &&& o.min_value == match min {
        Some(v) => Some(OptionBound::Integer(v)),
        None => None,
    }
    &&& o.max_value == match max {
        Some(v) => Some(OptionBound::Integer(v)),
        None => None,
    }
}

/// An option without choices or sub-options.
pub open spec fn is_leaf(o: CommandOption) -> bool {
    o.choices is None && o.options is None
}

/// The metadata of the owners' user lookup: one required user option.
pub open spec fn is_user_meta(m: CommandMeta, support_guild_id: u64) -> bool {
    &&& is_private_meta(m, "user"@, "Get a user's Orion account info"@, support_guild_id)
    &&& m.options@.len() == 1
    &&& is_option(m.options@[0], OptionKind::User, "user"@, "The user to look up"@, Some(true), None, None, None)
    &&& is_leaf(m.options@[0])
}

/// The metadata of the panels command: one required string option, the panel name.
pub open spec fn is_panels_meta(m: CommandMeta, support_guild_id: u64) -> bool {
    &&& is_private_meta(m, "panels"@, "Send custom panels"@, support_guild_id)
    &&& m.options@.len() == 1
    &&& is_option(m.options@[0], OptionKind::String, "name"@, "The panel name"@, Some(true), None, None, None)
    &&& is_leaf(m.options@[0])
}

impl UserCommand {
    /// The metadata of the command, restricted to the support server.
    pub fn meta(support_guild_id: u64) -> (res: CommandMeta)
        ensures
            is_user_meta(res, support_guild_id),
    {
        let option = CommandOptionBuilder::user(String::from_str("user"), String::from_str("The user to look up"))
            .required(true);
        let ghost ob = option;
        let options = vec![option];
        assert(built_options(options@) =~= seq![ob@]);
        let guilds = vec![support_guild_id];
        assert(guilds@ == seq![support_guild_id]);
        let res = CommandMeta::builder("user", String::from_str("Get a user's Orion account info"))
            .category("Private")
            .owner_only(true)
            .guilds(guilds)
            .options(options)
            .build();
        res
    }
}

impl PanelsCommand {
    /// The metadata of the command, restricted to the support server.
    pub fn meta(support_guild_id: u64) -> (res: CommandMeta)
        ensures
            is_panels_meta(res, support_guild_id),
    {
        let option = CommandOptionBuilder::string(String::from_str("name"), String::from_str("The panel name"))
            .required(true);
        let ghost ob = option;
        let options = vec![option];
        assert(built_options(options@) =~= seq![ob@]);
        let guilds = vec![support_guild_id];
        assert(guilds@ == seq![support_guild_id]);
        let res = CommandMeta::builder("panels", String::from_str("Send custom panels"))
            .category("Private")
            .owner_only(true)
            .guilds(guilds)
            .options(options)
            .build();
        res
    }
}

/// The `amount` option of the config command: a required integer from 1 to 10000.
pub open spec fn is_amount_option(o: CommandOption) -> bool {
    is_option(o, OptionKind::Integer, "amount"@, "The quantity"@, Some(true), Some(1), Some(10000), None) && is_leaf(o)
}

/// The `type` option of the credits subcommand: a required integer with two
/// choices, a giveaway (its kind number 1) and any other reason (0).
pub open spec fn is_credit_type_option(o: CommandOption) -> bool {
    &&& is_option(o, OptionKind::Integer, "type"@, "The type"@, Some(true), None, None, None)
    &&& o.options is None
    &&& o.choices matches Some(cs) && cs@.len() == 2 && cs@[0].name@ == "The user won a giveaway"@
        && cs@[0].value == ChoiceValue::Integer(1) && cs@[1].name@ == "Other"@ && cs@[1].value
        == ChoiceValue::Integer(0)
}

/// The metadata of the config command: three subcommands, to read and set
/// the count of available free servers and to add credits to a user.
pub open spec fn is_config_meta(m: CommandMeta, support_guild_id: u64) -> bool {
    &&& is_private_meta(m, "config"@, "Configure Orion"@, support_guild_id)
    &&& m.options@.len() == 3
    &&& is_option(m.options@[0], OptionKind::SubCommand, "get-available-servers"@, "Get the available servers count"@, None, None, None, None)
    &&& is_leaf(m.options@[0])
    &&& is_option(m.options@[1], OptionKind::SubCommand, "set-available-servers"@, "Set the available servers count"@, None, None, None, None)
    &&& m.options@[1].choices is None
    &&& m.options@[1].options matches Some(os) && os@.len() == 1 && is_amount_option(os@[0])
    &&& is_option(m.options@[2], OptionKind::SubCommand, "credits-add"@, "Add credits"@, None, None, None, None)
    &&& m.options@[2].choices is None
    &&& m.options@[2].options matches Some(os) && {
        &&& os@.len() == 4
        &&& is_option(os@[0], OptionKind::User, "user"@, "The user"@, Some(true), None, None, None)
        &&& is_leaf(os@[0])
        &&& is_credit_type_option(os@[1])
        &&& is_amount_option(os@[2])
        &&& is_option(os@[3], OptionKind::String, "reason"@, "Only needed when the type is custom"@, None, None, None, Some(500u16))
        &&& is_leaf(os@[3])
    }
}

fn amount_option() -> (res: CommandOptionBuilder)
    ensures
        is_amount_option(res@),
{
    CommandOptionBuilder::integer(String::from_str("amount"), String::from_str("The quantity"))
        .min_value_int(1)
        .max_value_int(10000)
        .required(true)
}

fn credit_type_option() -> (res: CommandOptionBuilder)
    ensures
        is_credit_type_option(res@),
{
    let giveaway = CreditTransactionType::Giveaway.number();
    let other = CreditTransactionType::Custom.number();
    CommandOptionBuilder::integer(String::from_str("type"), String::from_str("The type"))
        .add_choice_int(String::from_str("The user won a giveaway"), giveaway as i64)
        .add_choice_int(String::from_str("Other"), other as i64)
        .required(true)
}

impl ConfigCommand {
    /// The metadata of the command, restricted to the support server.
    pub fn meta(support_guild_id: u64) -> (res: CommandMeta)
        ensures
            is_config_meta(res, support_guild_id),
    {
        let get = CommandOptionBuilder::subcommand(
            String::from_str("get-available-servers"),
            String::from_str("Get the available servers count"),
        );
        let set_options = vec![amount_option()];
        let ghost set_b = set_options@;
        let set = CommandOptionBuilder::subcommand(
            String::from_str("set-available-servers"),
            String::from_str("Set the available servers count"),
        ).options(set_options);
        let user = CommandOptionBuilder::user(String::from_str("user"), String::from_str("The user")).required(true);
        let reason = CommandOptionBuilder::string(
            String::from_str("reason"),
            String::from_str("Only needed when the type is custom"),
        ).max_length(500);
        let credit_options = vec![user, credit_type_option(), amount_option(), reason];
        let ghost credit_b = credit_options@;
        let credits = CommandOptionBuilder::subcommand(String::from_str("credits-add"), String::from_str("Add credits"))
            .options(credit_options);
        let ghost (g, st, cr) = (get, set, credits);
        let subcommands = vec![get, set, credits];
        assert(built_options(subcommands@) =~= seq![g@, st@, cr@]);
        assert(built_options(set_b) =~= seq![set_b[0]@]);
        assert(built_options(credit_b) =~= seq![credit_b[0]@, credit_b[1]@, credit_b[2]@, credit_b[3]@]);
        let guilds = vec![support_guild_id];
        assert(guilds@ == seq![support_guild_id]);
        CommandMeta::builder("config", String::from_str("Configure Orion"))
            .category("Private")
            .owner_only(true)
            .guilds(guilds)
            .options(subcommands)
            .build()
    }
}

/// A command open to everyone: installable in servers and on users, usable in
/// servers, in the bot's direct messages and in private channels, listed under
/// `Informations`, with its translated description.
pub open spec fn is_public_meta(
    m: CommandMeta,
    name: Seq<char>,
    description: String,
    localizations: Vec<(String, String)>,
) -> bool {
    &&& m.name@ == name
    &&& m.description == description
    &&& m.description_localizations == Some(localizations)
    &&& m.category@ == "Informations"@
    &&& m.installations@ == seq![IntegrationType::GuildInstall, IntegrationType::UserInstall]
    &&& m.contexts@ == seq![ContextType::Guild, ContextType::BotDm, ContextType::PrivateChannel]
    &&& m.guilds is None
    &&& !m.owner_only
}

fn public_meta(name: &'static str, description: String, localizations: Vec<(String, String)>) -> (res: CommandMeta)
    ensures
        is_public_meta(res, name@, description, localizations),
        res.options@.len() == 0,
{
    let installations = vec![IntegrationType::GuildInstall, IntegrationType::UserInstall];
    assert(installations@ == seq![IntegrationType::GuildInstall, IntegrationType::UserInstall]);
    let contexts = vec![ContextType::Guild, ContextType::BotDm, ContextType::PrivateChannel];
    assert(contexts@ == seq![ContextType::Guild, ContextType::BotDm, ContextType::PrivateChannel]);
    CommandMeta::builder(name, description)
        .description_localizations(localizations)
        .category("Informations")
        .installations(installations)
        .contexts(contexts)
        .build()
}

impl HelpCommand {
    /// The metadata of the command, with its translated description.
    pub fn meta(description: String, localizations: Vec<(String, String)>) -> (res: CommandMeta)
        ensures
            is_public_meta(res, "help"@, description, localizations),
            res.options@.len() == 0,
    {
        public_meta("help", description, localizations)
    }
}

impl PingCommand {
    /// The metadata of the command, with its translated description.
    pub fn meta(description: String, localizations: Vec<(String, String)>) -> (res: CommandMeta)
        ensures
            is_public_meta(res, "ping"@, description, localizations),
            res.options@.len() == 0,
    {
        public_meta("ping", description, localizations)
    }
}

impl AccountCommand {
    /// The metadata of the command, with its translated description.
    pub fn meta(description: String, localizations: Vec<(String, String)>) -> (res: CommandMeta)
        ensures
            is_public_meta(res, "account"@, description, localizations),
            res.options@.len() == 0,
    {
        public_meta("account", description, localizations)
    }
}

impl TroubleshootCommand {
    /// The metadata of the command, with its translated description.
    pub fn meta(description: String, localizations: Vec<(String, String)>) -> (res: CommandMeta)
        ensures
            is_public_meta(res, "troubleshoot"@, description, localizations),
            res.options@.len() == 0,
    {
        public_meta("troubleshoot", description, localizations)
    }
}

impl DocsCommand {
    /// The metadata of the command, with its translated description and that of
    /// its one option: the page, a string that autocomplete suggests.
    pub fn meta(
        description: String,
        localizations: Vec<(String, String)>,
        page_description: String,
        page_localizations: Vec<(String, String)>,
    ) -> (res: CommandMeta)
        ensures
            is_public_meta(res, "docs"@, description, localizations),
            res.options@.len() == 1,
            res.options@[0].kind == OptionKind::String,
            res.options@[0].name@ == "page"@,
            res.options@[0].description == page_description,
            res.options@[0].description_localizations == Some(page_localizations),
            res.options@[0].autocomplete == Some(true),
            res.options@[0].required is None,
            res.options@[0].channel_types is None,
            res.options@[0].name_localizations is None,
            res.options@[0].min_length is None,
            res.options@[0].max_length is None,
            res.options@[0].min_value is None,
            res.options@[0].max_value is None,
            is_leaf(res.options@[0]),
    {
        let page = CommandOptionBuilder::string(String::from_str("page"), page_description)
            .description_localizations(page_localizations)
            .autocomplete(true);
        let ghost pb = page;
        let options = vec![page];
        assert(built_options(options@) =~= seq![pb@]);
        let installations = vec![IntegrationType::GuildInstall, IntegrationType::UserInstall];
        assert(installations@ == seq![IntegrationType::GuildInstall, IntegrationType::UserInstall]);
        let contexts = vec![ContextType::Guild, ContextType::BotDm, ContextType::PrivateChannel];
        assert(contexts@ == seq![ContextType::Guild, ContextType::BotDm, ContextType::PrivateChannel]);
        CommandMeta::builder("docs", description)
            .description_localizations(localizations)
            .category("Informations")
            .installations(installations)
            .contexts(contexts)
            .options(options)
            .build()
    }
}

} // verus!
