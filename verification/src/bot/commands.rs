//! The bot's slash commands and the decisions they make.

use vstd::prelude::*;

use crate::framework::context::{
    boolean_option, id_option, integer_option, string_option, subcommand_name, CommandContext,
    IdKind,
};
use crate::framework::result::{option_error_text, CommandError};
use crate::framework::context::OptionError;
use crate::orion_api::types::{
    credit_kind_number, CreateCreditTransactionBody, CreditTransactionType, PatchStateBody,
};
use crate::text::{decimal, decimal_int, i64_to_decimal, str_eq, trim, trimmed, u64_to_decimal};

verus! {

/// Shows the Orion account of the user who runs it.
pub struct AccountCommand;

/// Gives the link to a documentation page.
pub struct DocsCommand;

/// Presents Orion and its links.
pub struct HelpCommand;

/// Measures the latencies of the bot and of the Orion services.
pub struct PingCommand;

/// Helps users troubleshoot errors with their servers.
pub struct TroubleshootCommand;

/// Configures Orion (owners only).
pub struct ConfigCommand;

/// Sends a custom panel (owners only).
pub struct PanelsCommand;

/// Shows the Orion account of any user (owners only).
pub struct UserCommand;

/// The answer when a custom credit transaction has no reason.
pub const REASON_NEEDED: &'static str = "You need to specify the 'reason'. It will be shown to the user.";

/// The answer when a reason is given for a transaction that is not custom.
pub const REASON_REFUSED: &'static str = "You cannot specify a reason when the type is not custom.";

/// What the config command does once its options are read.
#[derive(Debug)]
pub enum ConfigAction {
    /// Reads the count of available free servers.
    GetAvailableServers,
    /// Sets the count of available free servers.
    SetAvailableServers { amount: i64, body: PatchStateBody },
    /// Adds credits to a user, first answering with the warning if there is one.
    AddCredits { user_id: u64, body: CreateCreditTransactionBody, warning: Option<&'static str> },
    /// An unknown subcommand: nothing.
    Nothing,
}

/// The error of a missing required option.
pub open spec fn missing_option_error(e: CommandError, name: &'static str) -> bool {
    e matches CommandError::Anyhow(msg) && msg@ == option_error_text(OptionError::Missing(name))
}

/// The kind of transaction that the `type` option asks for: the kind of its
/// number taken modulo 256, or a custom one when no kind has that number.
pub open spec fn requested_kind(t: i64) -> CreditTransactionType {
    if (t as u8) <= 7 {
        choose|k: CreditTransactionType| credit_kind_number(k) == (t as u8)
    } else {
        CreditTransactionType::Custom
    }
}

impl ConfigCommand {
    /// Reads the subcommand and its options into the action to take: errors are
    /// the first missing required option, in the order `user`, `type`, `amount`.
    pub fn plan(ctx: &CommandContext) -> (res: Result<ConfigAction, CommandError>)
        ensures
            subcommand_name(ctx.options@) == Some("get-available-servers"@) ==> res matches Ok(
                ConfigAction::GetAvailableServers,
            ),
            subcommand_name(ctx.options@) == Some("set-available-servers"@) ==> match integer_option(
                ctx.options@,
                "amount"@,
            ) {
                Some(a) => res matches Ok(ConfigAction::SetAvailableServers { amount, body }) && amount
                    == a && body == (PatchStateBody {
                    maintenance_mode: None,
                    available_free_servers: Some(a as u32),
                }),
                None => res matches Err(e) && missing_option_error(e, "amount"),
            },
            subcommand_name(ctx.options@) == Some("credits-add"@) ==> {
                let user = id_option(ctx.options@, "user"@, IdKind::User);
                let t = integer_option(ctx.options@, "type"@);
                let amount = integer_option(ctx.options@, "amount"@);
                let reason = string_option(ctx.options@, "reason"@);
                if user is None {
                    res matches Err(e) && missing_option_error(e, "user")
                } else if t is None {
                    res matches Err(e) && missing_option_error(e, "type")
                } else if amount is None {
                    res matches Err(e) && missing_option_error(e, "amount")
                } else {
                    let kind = requested_kind(t->0);
                    res matches Ok(ConfigAction::AddCredits { user_id, body, warning }) && user_id
                        == user->0 && body.kind == kind && body.amount == amount->0 && match reason {
                        Some(r) => body.reason matches Some(b) && b@ == trimmed(r),
                        None => body.reason is None,
                    } && warning == if kind == CreditTransactionType::Custom && reason is None {
                        Some(REASON_NEEDED)
                    } else if kind != CreditTransactionType::Custom && reason is Some {
                        Some(REASON_REFUSED)
                    } else {
                        None
                    }
                }
            },
            subcommand_name(ctx.options@) != Some("get-available-servers"@) && subcommand_name(
                ctx.options@,
            ) != Some("set-available-servers"@) && subcommand_name(ctx.options@) != Some(
                "credits-add"@,
            ) ==> res matches Ok(ConfigAction::Nothing),
    {
        proof {
            reveal_strlit("get-available-servers");
            reveal_strlit("set-available-servers");
            reveal_strlit("credits-add");
            assert("get-available-servers"@[0] != "set-available-servers"@[0]);
            assert("get-available-servers"@[0] != "credits-add"@[0]);
            assert("set-available-servers"@[0] != "credits-add"@[0]);
        }
        let sub = match ctx.get_subcommand() {
            Some(s) => s,
            None => {
                return Ok(ConfigAction::Nothing);
            },
        };
        if str_eq(sub, "get-available-servers") {
            Ok(ConfigAction::GetAvailableServers)
        } else if str_eq(sub, "set-available-servers") {
            let amount = match ctx.require_integer_option("amount") {
                Ok(a) => a,
                Err(e) => {
                    return Err(CommandError::from_option_error(e));
                },
            };
            Ok(ConfigAction::SetAvailableServers {
                amount,
                body: PatchStateBody { maintenance_mode: None, available_free_servers: Some(#[verifier::truncate] (amount as u32)) },
            })
        } else if str_eq(sub, "credits-add") {
            let user_id = match ctx.require_user_option("user") {
                Ok(u) => u,
                Err(e) => {
                    return Err(CommandError::from_option_error(e));
                },
            };
            let t = match ctx.require_integer_option("type") {
                Ok(t) => t,
                Err(e) => {
                    return Err(CommandError::from_option_error(e));
                },
            };
            let amount = match ctx.require_integer_option("amount") {
                Ok(a) => a,
                Err(e) => {
                    return Err(CommandError::from_option_error(e));
                },
            };
            let reason = match ctx.get_string_option("reason") {
                Some(r) => Some(trim(r)),
                None => None,
            };
            let kind = match CreditTransactionType::from_number(#[verifier::truncate] (t as u8)) {
                Some(k) => k,
                None => CreditTransactionType::Custom,
            };
            proof {
                if (t as u8) <= 7 {
                    let k = choose|k: CreditTransactionType| credit_kind_number(k) == (t as u8);
                    crate::orion_api::types::lemma_credit_kind_number_round_trip(kind, t as u8);
                }
            }
            let warning = match kind {
                CreditTransactionType::Custom => if reason.is_none() {
                    Some(REASON_NEEDED)
                } else {
                    None
                },
                _ => if reason.is_some() {
                    Some(REASON_REFUSED)
                } else {
                    None
                },
            };
            Ok(ConfigAction::AddCredits {
                user_id,
                body: CreateCreditTransactionBody { kind, amount, reason },
                warning,
            })
        } else {
            Ok(ConfigAction::Nothing)
        }
    }
}

/// The answer to reading the available servers.
pub fn available_servers_text(count: u32) -> (res: String)
    ensures
        res@ == "Available free servers: "@ + decimal(count as nat),
{
    String::from_str("Available free servers: ").concat(u64_to_decimal(count as u64).as_str())
}

/// The answer to setting the available servers.
pub fn amount_updated_text(amount: i64) -> (res: String)
    ensures
        res@ == "Amount updated. New value: "@ + decimal_int(amount as int),
{
    String::from_str("Amount updated. New value: ").concat(i64_to_decimal(amount).as_str())
}

/// The answer to a credit transaction that went through.
pub fn credits_added_text(user_credits: i64, transaction_id: &str) -> (res: String)
    ensures
        res@ == "Credits added, the user has now "@ + decimal_int(user_credits as int)
            + " credits. Transaction ID: "@ + transaction_id@,
{
    String::from_str("Credits added, the user has now ").concat(i64_to_decimal(user_credits).as_str())
        .concat(" credits. Transaction ID: ").concat(transaction_id)
}

/// The answer to a credit transaction that the API refused.
pub fn credits_failed_text(status: u16, message: Option<&str>) -> (res: String)
    ensures
        res@ == "Failed to add credits: "@ + match message {
            Some(m) => m@,
            None => "no message"@,
        } + " (status: "@ + decimal(status as nat) + ")"@,
{
    let m = match message {
        Some(m) => m,
        None => "no message",
    };
    String::from_str("Failed to add credits: ").concat(m).concat(" (status: ").concat(
        u64_to_decimal(status as u64).as_str(),
    ).concat(")")
}

} // verus!
