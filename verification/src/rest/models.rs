//! The documents that go to the web service and come back from it.

use vstd::prelude::*;

verus! {

/// Marks the documents that are sent as requests.
pub trait CtraderRequest {

}

#[derive(Debug, Clone, PartialEq, Eq)]
pub struct CreateCtraderManagerTokenRequest {
    pub login: i64,
    pub hashed_password: String,
}

#[derive(Debug, Clone, PartialEq, Eq)]
pub struct CreateCtraderManagerTokenResponse {
    pub token: String,
}

/// Asks for a new user. Where the email is already taken, the response holds
/// the user id only.
#[derive(Debug, Clone, PartialEq, Eq)]
pub struct CreateCtidRequest {
    pub email: String,
    pub broker_name: String,
    pub preferred_lang: Option<String>,
}

/// A user. All but the id is absent where the email was already taken.
#[derive(Debug, Clone, PartialEq, Eq)]
pub struct CreateCtidResponse {
    pub user_id: i32,
    /// By default `ctid` followed by the user id.
    pub nickname: Option<String>,
    pub email: Option<String>,
    /// A two-letter language code.
    pub preferred_lang: Option<String>,
    /// When the user was created, in Unix time.
    pub timestamp: Option<u64>,
    pub status: Option<CtidStatus>,
}

/// The status of a user.
#[derive(Debug, Clone, Copy, PartialEq, Eq, Structural)]
pub enum CtidStatus {
    /// Every new user.
    CtidNew,
    /// A user who has confirmed their email address.
    CtidActive,
    CtidDeleted,
}

#[derive(Debug, Clone, PartialEq, Eq)]
pub struct CreateTraderRequest {
    pub access_rights: TraderAccessRights,
    pub account_type: TraderAccountType,
    pub balance: i64,
    pub broker_name: String,
    pub deposit_currency: String,
    pub group_name: String,
    pub hashed_password: String,
    /// Leverage in hundredths: 1:1 is 100, 1:100 is 10000.
    pub leverage_in_cents: i32,
    pub total_margin_calculation_type: TotalMarginCalculationType,
    pub contact_details: Option<TraderContactDetails>,
    pub description: Option<String>,
    pub is_limited_risk: Option<bool>,
    pub last_name: Option<String>,
    pub limited_risk_margin_calculation_strategy: Option<LimitedRiskMarginCalculationStrategy>,
    /// Largest leverage the account may have, in hundredths.
    pub max_leverage: Option<i32>,
    /// First name of the account holder.
    pub name: Option<String>,
    /// Whether the trader gets a daily statement.
    pub send_own_statement: Option<bool>,
    /// Whether the broker gets a daily statement of the account.
    pub send_statement_to_broker: Option<bool>,
    /// Whether the account pays administrative fees in place of swaps.
    pub swap_free: Option<bool>,
}

/// How margin is computed for a limited-risk account.
#[derive(Debug, Clone, Copy, PartialEq, Eq, Structural)]
pub enum LimitedRiskMarginCalculationStrategy {
    /// From the leverage of the account.
    AccordingToLeverage,
    /// From the distance between the open price and the guaranteed stop loss.
    AccordingToGsl,
    /// The larger of the two.
    AccordingToGslAndLeverage,
}

#[derive(Debug, Clone, PartialEq, Eq)]
pub struct TraderContactDetails {
    pub address: Option<String>,
    pub city: Option<String>,
    pub country_id: Option<i32>,
    pub document_id: Option<String>,
    pub email: Option<String>,
    pub phone: Option<String>,
    pub state: Option<String>,
    pub zip_code: Option<String>,
    pub introducing_broker_1: Option<String>,
    pub introducing_broker_2: Option<String>,
}

/// How the margin of all positions in one symbol is put together.
#[derive(Debug, Clone, Copy, PartialEq, Eq, Structural)]
pub enum TotalMarginCalculationType {
    /// The largest requirement among the positions.
    Max,
    /// The sum of the requirements.
    Sum,
    /// Long requirements less short requirements.
    Net,
}

#[derive(Debug, Clone, Copy, PartialEq, Eq, Structural)]
pub enum TraderAccountType {
    /// Positions in both directions at once.
    Hedged,
    /// One direction per symbol.
    Netted,
    SpreadBetting,
}

#[derive(Debug, Clone, Copy, PartialEq, Eq, Structural)]
pub enum TraderAccessRights {
    FullAccess,
    CloseOnly,
    NoTrading,
    NoLogin,
}

#[derive(Debug, Clone, PartialEq, Eq)]
pub struct CreateTraderResponse {
    pub bonus: i32,
    pub equity: i32,
    pub free_margin: i32,
    /// What the account can withdraw now.
    pub cash_equity: i32,
    pub last_update_timestamp: i32,
    pub login: i32,
    /// Number of decimal places in the amounts of the account.
    pub money_digits: i32,
    pub non_withdrawal_bonus: i32,
    pub registration_timestamp: i32,
    pub swap_free: bool,
    pub used_margin: i32,
}

#[derive(Debug, Clone, PartialEq, Eq)]
pub struct LinkCtidRequest {
    pub trader_login: i32,
    pub trader_password_hash: String,
    pub user_id: i32,
    pub broker_name: String,
    pub environment_name: String,
    /// Whether the response is to hold the account id.
    pub return_account_details: Option<bool>,
}

#[derive(Debug, Clone, PartialEq, Eq)]
pub struct LinkCtidResponse {
    pub ctid_trader_account_id: Option<i32>,
}

#[derive(Debug, Clone, PartialEq, Eq)]
pub struct UpdateTraderRequest {
    pub access_rights: Option<TraderAccessRights>,
    pub account_type: Option<TraderAccountType>,
    pub broker_name: Option<String>,
    pub deposit_currency: Option<String>,
    pub group_name: Option<String>,
    pub hashed_password: Option<String>,
    pub leverage_in_cents: Option<i32>,
    pub total_margin_calculation_type: TotalMarginCalculationType,
    pub contact_details: Option<TraderContactDetails>,
    pub description: Option<String>,
    pub is_limited_risk: Option<bool>,
    pub last_name: Option<String>,
    pub limited_risk_margin_calculation_strategy: Option<LimitedRiskMarginCalculationStrategy>,
    pub max_leverage: Option<i32>,
    pub name: Option<String>,
    pub send_own_statement: Option<bool>,
    pub send_statement_to_broker: Option<bool>,
    pub swap_free: Option<bool>,
}

impl CtraderRequest for CreateCtraderManagerTokenRequest {

}

impl CtraderRequest for CreateCtidRequest {

}

impl CtraderRequest for CreateTraderRequest {

}

impl CtraderRequest for LinkCtidRequest {

}

impl CtraderRequest for UpdateTraderRequest {

}

impl CtidStatus {
    /// The status as the service spells it.
    pub open spec fn name(self) -> Seq<char> {
        match self {
            CtidStatus::CtidNew => "CTID_NEW"@,
            CtidStatus::CtidActive => "CTID_ACTIVE"@,
            CtidStatus::CtidDeleted => "CTID_DELETED"@,
        }
    }

    pub fn as_str(self) -> (name: &'static str)
        ensures
            name@ == self.name(),
    {
        match self {
            CtidStatus::CtidNew => "CTID_NEW",
            CtidStatus::CtidActive => "CTID_ACTIVE",
            CtidStatus::CtidDeleted => "CTID_DELETED",
        }
    }
}

impl LimitedRiskMarginCalculationStrategy {
    /// The strategy as the service spells it.
    pub open spec fn name(self) -> Seq<char> {
        match self {
            LimitedRiskMarginCalculationStrategy::AccordingToLeverage => "ACCORDING_TO_LEVERAGE"@,
            LimitedRiskMarginCalculationStrategy::AccordingToGsl => "ACCORDING_TO_GSL"@,
            LimitedRiskMarginCalculationStrategy::AccordingToGslAndLeverage => {
                "ACCORDING_TO_GSL_AND_LEVERAGE"@
            },
        }
    }

    pub fn as_str(self) -> (name: &'static str)
        ensures
            name@ == self.name(),
    {
        match self {
            LimitedRiskMarginCalculationStrategy::AccordingToLeverage => "ACCORDING_TO_LEVERAGE",
            LimitedRiskMarginCalculationStrategy::AccordingToGsl => "ACCORDING_TO_GSL",
            LimitedRiskMarginCalculationStrategy::AccordingToGslAndLeverage => {
                "ACCORDING_TO_GSL_AND_LEVERAGE"
            },
        }
    }
}

impl TotalMarginCalculationType {
    /// The type as the service spells it.
    pub open spec fn name(self) -> Seq<char> {
        match self {
            TotalMarginCalculationType::Max => "MAX"@,
            TotalMarginCalculationType::Sum => "SUM"@,
            TotalMarginCalculationType::Net => "NET"@,
        }
    }

    pub fn as_str(self) -> (name: &'static str)
        ensures
            name@ == self.name(),
    {
        match self {
            TotalMarginCalculationType::Max => "MAX",
            TotalMarginCalculationType::Sum => "SUM",
            TotalMarginCalculationType::Net => "NET",
        }
    }
}

impl TraderAccountType {
    /// The type as the service spells it.
    pub open spec fn name(self) -> Seq<char> {
        match self {
            TraderAccountType::Hedged => "HEDGED"@,
            TraderAccountType::Netted => "NETTED"@,
            TraderAccountType::SpreadBetting => "SPREAD_BETTING"@,
        }
    }

    pub fn as_str(self) -> (name: &'static str)
        ensures
            name@ == self.name(),
    {
        match self {
            TraderAccountType::Hedged => "HEDGED",
            TraderAccountType::Netted => "NETTED",
            TraderAccountType::SpreadBetting => "SPREAD_BETTING",
        }
    }
}

impl TraderAccessRights {
    /// The rights as the service spells them.
    pub open spec fn name(self) -> Seq<char> {
        match self {
            TraderAccessRights::FullAccess => "FULL_ACCESS"@,
            TraderAccessRights::CloseOnly => "CLOSE_ONLY"@,
            TraderAccessRights::NoTrading => "NO_TRADING"@,
            TraderAccessRights::NoLogin => "NO_LOGIN"@,
        }
    }

    pub fn as_str(self) -> (name: &'static str)
        ensures
            name@ == self.name(),
    {
        match self {
            TraderAccessRights::FullAccess => "FULL_ACCESS",
            TraderAccessRights::CloseOnly => "CLOSE_ONLY",
            TraderAccessRights::NoTrading => "NO_TRADING",
            TraderAccessRights::NoLogin => "NO_LOGIN",
        }
    }
}

} // verus!
