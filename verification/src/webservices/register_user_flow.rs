//! Registering a user with a name, a leverage and a description.

use crate::rest::models::{
    CreateCtidRequest, CreateCtidResponse, CreateTraderRequest, CreateTraderResponse,
    LinkCtidRequest, LinkCtidResponse, TotalMarginCalculationType, TraderAccessRights,
    TraderAccountType,
};
use crate::rest::register_user_flow::{RegisterAction, RegisterEvent};
use vstd::prelude::*;

verus! {

/// What a registration starts from. It cannot be printed: the password is
/// held as it is.
#[derive(Clone, PartialEq, Eq)]
pub struct RegisterUserFlow {
    pub user_email: String,
    pub broker_name: String,
    pub user_password: String,
    pub deposit_currency: String,
    pub group_name: String,
    pub environment_name: String,
    pub leverage_in_cents: i32,
    pub first_name: Option<String>,
    pub last_name: Option<String>,
    pub swap_free: Option<bool>,
    pub description: Option<String>,
}

/// What a registration ends with: the three responses.
#[derive(Debug, Clone, PartialEq, Eq)]
pub struct RegisterData {
    pub create_ctid_resp: CreateCtidResponse,
    pub trader: CreateTraderResponse,
    pub link_ctid_resp: LinkCtidResponse,
}

/// Whether two optional texts say the same.
pub open spec fn same_text(a: Option<String>, b: Option<String>) -> bool {
    match (a, b) {
        (Some(x), Some(y)) => x@ == y@,
        (None, None) => true,
        _ => false,
    }
}

fn copy_text(text: &Option<String>) -> (copy: Option<String>)
    ensures
        same_text(copy, *text),
{
    match text {
        Some(t) => Some(t.clone()),
        None => None,
    }
}

impl RegisterUserFlow {
    /// Whether `request` asks for a new user id for this registration.
    pub open spec fn asks_for_ctid(self, request: CreateCtidRequest) -> bool {
        &&& request.email@ == self.user_email@
        &&& request.broker_name@ == self.broker_name@
        &&& request.preferred_lang is None
    }

    /// Whether `request` asks for the account of this registration: hedged,
    /// with full access and nothing on it, with the leverage, names,
    /// description and swap choice of the registration, under the given
    /// digest of the password.
    pub open spec fn asks_for_trader(self, password_hash: Seq<char>, request: CreateTraderRequest)
        -> bool {
        &&& request.access_rights == TraderAccessRights::FullAccess
        &&& request.account_type == TraderAccountType::Hedged
        &&& request.balance == 0
        &&& request.broker_name@ == self.broker_name@
        &&& request.deposit_currency@ == self.deposit_currency@
        &&& request.group_name@ == self.group_name@
        &&& request.hashed_password@ == password_hash
        &&& request.leverage_in_cents == self.leverage_in_cents
        &&& request.total_margin_calculation_type == TotalMarginCalculationType::Max
        &&& request.contact_details is None
        &&& same_text(request.description, self.description)
        &&& request.is_limited_risk is None
        &&& same_text(request.last_name, self.last_name)
        &&& request.limited_risk_margin_calculation_strategy is None
        &&& request.max_leverage is None
        &&& same_text(request.name, self.first_name)
        &&& request.send_own_statement is None
        &&& request.send_statement_to_broker is None
        &&& request.swap_free == self.swap_free
    }

    /// Whether `request` links the given account to the given user for this
    /// registration and asks for the account id.
    pub open spec fn asks_for_link(
        self,
        password_hash: Seq<char>,
        trader_login: i32,
        user_id: i32,
        request: LinkCtidRequest,
    ) -> bool {
        &&& request.trader_login == trader_login
        &&& request.trader_password_hash@ == password_hash
        &&& request.user_id == user_id
        &&& request.broker_name@ == self.broker_name@
        &&& request.environment_name@ == self.environment_name@
        &&& request.return_account_details == Some(true)
    }

    /// The request for a new user id.
    pub fn create_ctid_request(&self) -> (request: CreateCtidRequest)
        ensures
            self.asks_for_ctid(request),
    {
        CreateCtidRequest {
            email: self.user_email.clone(),
            broker_name: self.broker_name.clone(),
            preferred_lang: None,
        }
    }

    /// The request for a new account, given the digest of the password.
    pub fn create_trader_request(&self, password_hash: &str) -> (request: CreateTraderRequest)
        ensures
            self.asks_for_trader(password_hash@, request),
    {
        CreateTraderRequest {
            access_rights: TraderAccessRights::FullAccess,
            account_type: TraderAccountType::Hedged,
            balance: 0,
            broker_name: self.broker_name.clone(),
            deposit_currency: self.deposit_currency.clone(),
            group_name: self.group_name.clone(),
            hashed_password: password_hash.to_owned(),
            leverage_in_cents: self.leverage_in_cents,
            total_margin_calculation_type: TotalMarginCalculationType::Max,
            contact_details: None,
            description: copy_text(&self.description),
            is_limited_risk: None,
            last_name: copy_text(&self.last_name),
            limited_risk_margin_calculation_strategy: None,
            max_leverage: None,
            name: copy_text(&self.first_name),
            send_own_statement: None,
            send_statement_to_broker: None,
            swap_free: self.swap_free,
        }
    }

    /// The request that links an account to a user.
    pub fn link_ctid_request(&self, password_hash: &str, trader_login: i32, user_id: i32) -> (request:
        LinkCtidRequest)
        ensures
            self.asks_for_link(password_hash@, trader_login, user_id, request),
    {
        LinkCtidRequest {
            trader_login,
            trader_password_hash: password_hash.to_owned(),
            user_id,
            broker_name: self.broker_name.clone(),
            environment_name: self.environment_name.clone(),
            return_account_details: Some(true),
        }
    }

    /// One step of a registration, given the digest of the password.
    ///
    /// The calls come in one order: user id, account, link. Each is asked
    /// for only when the one before has answered well; a failure ends the
    /// registration and is handed on as it came. The link request names the
    /// login of the new account and the id of the new user. The outcome is
    /// the three responses.
    pub fn execute<E>(&self, password_hash: &str, event: RegisterEvent<E>) -> (action:
        RegisterAction<RegisterData, E>)
        ensures
            match event {
                RegisterEvent::Start => action matches RegisterAction::CreateCtid(request)
                    && self.asks_for_ctid(request),
                RegisterEvent::CtidReplied(Ok(ctid)) => action matches RegisterAction::CreateTrader {
                    request,
                    create_ctid_resp,
                } && create_ctid_resp == ctid && self.asks_for_trader(password_hash@, request),
                RegisterEvent::TraderReplied {
                    create_ctid_resp: ctid,
                    reply: Ok(account),
                } => action matches RegisterAction::LinkCtid { request, create_ctid_resp, trader }
                    && create_ctid_resp == ctid && trader == account && self.asks_for_link(
                    password_hash@,
                    account.login,
                    ctid.user_id,
                    request,
                ),
                RegisterEvent::LinkReplied {
                    create_ctid_resp: ctid,
                    trader: account,
                    reply: Ok(link),
                } => action matches RegisterAction::Done(data) && data == (RegisterData {
                    create_ctid_resp: ctid,
                    trader: account,
                    link_ctid_resp: link,
                }),
                RegisterEvent::CtidReplied(Err(e)) => action matches RegisterAction::Failed(got)
                    && got == e,
                RegisterEvent::TraderReplied { reply: Err(e), .. } => action matches RegisterAction::Failed(
                    got,
                ) && got == e,
                RegisterEvent::LinkReplied { reply: Err(e), .. } => action matches RegisterAction::Failed(
                    got,
                ) && got == e,
            },
    {
        match event {
            RegisterEvent::Start => RegisterAction::CreateCtid(self.create_ctid_request()),
            RegisterEvent::CtidReplied(Ok(create_ctid_resp)) => RegisterAction::CreateTrader {
                request: self.create_trader_request(password_hash),
                create_ctid_resp,
            },
            RegisterEvent::TraderReplied { create_ctid_resp, reply: Ok(trader) } => {
                let request = self.link_ctid_request(
                    password_hash,
                    trader.login,
                    create_ctid_resp.user_id,
                );
                RegisterAction::LinkCtid { request, create_ctid_resp, trader }
            },
            RegisterEvent::LinkReplied { create_ctid_resp, trader, reply: Ok(link_ctid_resp) } => {
                RegisterAction::Done(RegisterData { create_ctid_resp, trader, link_ctid_resp })
            },
            RegisterEvent::CtidReplied(Err(e)) => RegisterAction::Failed(e),
            RegisterEvent::TraderReplied { reply: Err(e), .. } => RegisterAction::Failed(e),
            RegisterEvent::LinkReplied { reply: Err(e), .. } => RegisterAction::Failed(e),
        }
    }
}

} // verus!
