//! Bodies that the Orion API sends and receives.

use vstd::prelude::*;

verus! {

/// `GET /api/status`.
#[derive(Clone, Copy, Debug, PartialEq, Eq, Structural)]
pub struct ApiStatus {
    pub user_count: u64,
    pub server_count: u64,
    pub suspended_server_count: u64,
    pub node_count: u64,
}

/// `GET /api/state`.
#[derive(Clone, Copy, Debug, PartialEq, Eq, Structural)]
pub struct ApiState {
    pub maintenance_mode: bool,
    pub available_free_servers: u32,
}

/// `PATCH /api/state`; a field left `None` is not sent.
#[derive(Clone, Copy, Debug, PartialEq, Eq, Structural)]
pub struct PatchStateBody {
    pub maintenance_mode: Option<bool>,
    pub available_free_servers: Option<u32>,
}

/// `GET /api/users/{discord_id}`.
#[derive(Debug)]
pub struct OrionUser {
    pub id: String,
    pub panel_id: u64,
    pub discord_id: String,
    pub last_login_at: i64,
    pub username: String,
    pub credits: i64,
    pub referral_code: String,
    pub referral_usage: u64,
    pub referral_gains: i64,
}

/// `POST /api/users/{discord_id}/credits`; `kind` is sent as `type`, by its number.
#[derive(Debug)]
pub struct CreateCreditTransactionBody {
    pub kind: CreditTransactionType,
    pub amount: i64,
    pub reason: Option<String>,
}

/// The answer to a credit transaction.
#[derive(Debug)]
pub struct CreditTransactionResult {
    pub transaction_id: String,
    pub user_credits: i64,
}

/// The kind of a credit transaction, sent as its number.
#[derive(Clone, Copy, Debug, PartialEq, Eq, Structural)]
pub enum CreditTransactionType {
    Custom,
    Giveaway,
    ReferralCode,
    SupportActivity,
    Partnership,
    DiscordSponsoredAd,
    PromotionCode,
    DiscordBoost,
}

/// The number of each kind, in declaration order from 0.
pub open spec fn credit_kind_number(kind: CreditTransactionType) -> u8 {
    match kind {
        CreditTransactionType::Custom => 0,
        CreditTransactionType::Giveaway => 1,
        CreditTransactionType::ReferralCode => 2,
        CreditTransactionType::SupportActivity => 3,
        CreditTransactionType::Partnership => 4,
        CreditTransactionType::DiscordSponsoredAd => 5,
        CreditTransactionType::PromotionCode => 6,
        CreditTransactionType::DiscordBoost => 7,
    }
}

impl CreditTransactionType {
    /// The number this kind is sent as.
    pub fn number(&self) -> (res: u8)
        ensures
            res == credit_kind_number(*self),
    {
        match self {
            CreditTransactionType::Custom => 0,
            CreditTransactionType::Giveaway => 1,
            CreditTransactionType::ReferralCode => 2,
            CreditTransactionType::SupportActivity => 3,
            CreditTransactionType::Partnership => 4,
            CreditTransactionType::DiscordSponsoredAd => 5,
            CreditTransactionType::PromotionCode => 6,
            CreditTransactionType::DiscordBoost => 7,
        }
    }

    /// The kind sent as `n`, if any: exactly the numbers 0 to 7 name a kind.
    pub fn from_number(n: u8) -> (res: Option<CreditTransactionType>)
        ensures
            res is Some <==> n <= 7,
            res matches Some(k) ==> credit_kind_number(k) == n,
    {
        match n {
            0 => Some(CreditTransactionType::Custom),
            1 => Some(CreditTransactionType::Giveaway),
            2 => Some(CreditTransactionType::ReferralCode),
            3 => Some(CreditTransactionType::SupportActivity),
            4 => Some(CreditTransactionType::Partnership),
            5 => Some(CreditTransactionType::DiscordSponsoredAd),
            6 => Some(CreditTransactionType::PromotionCode),
            7 => Some(CreditTransactionType::DiscordBoost),
            _ => None,
        }
    }
}

/// A kind's number reads back as that kind.
pub proof fn lemma_credit_kind_number_round_trip(kind: CreditTransactionType, n: u8)
    requires
        n == credit_kind_number(kind),
    ensures
        n <= 7,
        forall|k: CreditTransactionType| credit_kind_number(k) == n ==> k == kind,
{
}

} // verus!
