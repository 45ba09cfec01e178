//! The bot's configuration, fixed links, color palette and emojis.

use vstd::prelude::*;

verus! {

/// The bot's environment configuration.
pub struct Config {
    pub port: u16,
    pub orion_api_token: String,
    pub gemini_key: String,
    pub discord_token: String,
    pub support_guild_id: u64,
    pub status_channel_id: u64,
    pub chatbot_channel_id: u64,
    pub logs_webhook_id: u64,
    pub logs_webhook_token: String,
}

/// The Discord user ids of the bot owners.
pub open spec fn owner_ids() -> Seq<u64> {
    seq![619838036846575617u64, 755054105713704960u64]
}

impl Config {
    pub const OWNER_IDS: [u64; 2] = [619838036846575617, 755054105713704960];

    // Orion
    pub const DOMAIN: &'static str = "orionhost.xyz";
    pub const DOMAIN_URL: &'static str = "https://orionhost.xyz";
    pub const DASHBOARD_URL: &'static str = "https://orionhost.xyz/dashboard";
    pub const PANEL_URL: &'static str = "https://panel.orionhost.xyz";
    pub const ORION_GITHUB_URL: &'static str = "https://github.com/orionhosting";
    pub const BOT_GITHUB_URL: &'static str = "https://github.com/orionhosting/orion-bot";
    pub const CLI_GITHUB_URL: &'static str = "https://github.com/orionhosting/cli";
    pub const DOCS_URL: &'static str = "https://docs.orionhost.xyz";
    pub const STATUS_URL: &'static str = "https://status.orionhost.xyz";
    pub const API_URL: &'static str = "https://api.orionhost.xyz";
    pub const BOT_API_URL: &'static str = "https://bot.orionhost.xyz";

    // Discord links
    pub const SUPPORT_INVITE: &'static str = "https://discord.gg/gzYKugxq9a";
    pub const BOT_INVITE: &'static str = "https://discord.com/oauth2/authorize?client_id=1306868952793747546&scope=bot+applications.commands&permissions=8";
    pub const TICKETS_PANEL_URL: &'static str =
        "https://discord.com/channels/1306734190238371860/1307061230145507410";

    // Assets
    pub const BANNER_URL: &'static str = "https://media.discordapp.net/attachments/1480034193869246477/1480036557099503879/banner-large.png";

    /// Checks if the user is an owner.
    pub fn is_bot_owner(id: u64) -> (res: bool)
        ensures
            res == owner_ids().contains(id),
    {
        let owners = Config::OWNER_IDS;
        let res = owners[0] == id || owners[1] == id;
        proof {
            assert(owners@ == owner_ids());
            if owner_ids().contains(id) {
                let k = choose|k: int| 0 <= k < 2 && owner_ids()[k] == id;
            }
            if res {
                assert(owner_ids()[0] == id || owner_ids()[1] == id);
            }
        }
        res
    }
}

/// A color, by its integer `0xRRGGBB`.
#[derive(Clone, Copy, Debug, PartialEq, Eq, Structural)]
pub struct Color {
    pub value: u32,
}

impl Color {
    pub fn new(value: u32) -> (res: Self)
        ensures
            res.value == value,
    {
        Color { value }
    }
}

/// The color palette, as the integers of its colors.
pub struct Palette;

impl Palette {
    pub const PRIMARY: u32 = 0x5496ff;
    pub const RED: u32 = 0xff3838;
    pub const ORANGE: u32 = 0xffa700;
    pub const GREEN: u32 = 0x0fcc45;
}

/// The bot emojis (the application emojis of the production bot).
pub struct Emojis;

impl Emojis {
    pub const WARN: &'static str = ":x:";
    pub const SUCCESS: &'static str = ":white_check_mark:";

    pub const PROPERTY: &'static str = "<:_:1479652366092599456>";
    pub const PROPERTY_ID: u64 = 1479652366092599456;
    pub const LOADER_GREEN: &'static str = "<a:_:1479652276573438003>";
    pub const LOADER_GREEN_ID: u64 = 1479652276573438003;
    pub const LOGO: &'static str = "<:_:1480023652463542322>";
    pub const LOGO_ID: u64 = 1480023652463542322;
    pub const DISCORD: &'static str = "<:_:1481776188329427025>";
    pub const DISCORD_ID: u64 = 1481776188329427025;
    pub const ONLINE: &'static str = "<:_:1481041163074011380>";
    pub const ONLINE_ID: u64 = 1481041163074011380;
    pub const DND: &'static str = "<:_:1481041161652277494>";
    pub const DND_ID: u64 = 1481041161652277494;
}

} // verus!
