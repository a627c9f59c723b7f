//! Registering a user: a new user id, a new account, and the link between
//! the two.
//!
//! A registration is three calls in a row. The library does not make them: it
//! is told how far the registration has come and what the last call
//! answered, and says what to do next.

use crate::rest::models::{
    CreateCtidRequest, CreateCtidResponse, CreateTraderRequest, CreateTraderResponse,
    LinkCtidRequest, LinkCtidResponse, TotalMarginCalculationType, TraderAccessRights,
    TraderAccountType,
};
use vstd::prelude::*;

verus! {

/// What a registration starts from. It cannot be printed: the password is
/// held as it is.
#[derive(Clone, PartialEq, Eq)]
pub struct RegisterUserFlow {
    pub user_email: String,
    pub broker_name: String,
    pub user_password: String,
    pub deposit_currency: String,
    pub group_name: String,
    pub environment_name: String,
}

/// What a registration ends with.
#[derive(Debug, Clone, Copy, PartialEq, Eq, Structural)]
pub struct RegisterUserInfo {
    pub trader_login: i32,
    pub user_id: i32,
    pub account_id: i32,
}

/// How far a registration has come: nothing done yet, or the answer to the
/// last call together with the replies before it. `E` is whatever a failed
/// call answers with.
#[derive(Debug, PartialEq, Eq)]
pub enum RegisterEvent<E> {
    /// Nothing has been done.
    Start,
    /// The call for a new user id has answered.
    CtidReplied(Result<CreateCtidResponse, E>),
    /// The call for a new account has answered.
    TraderReplied { create_ctid_resp: CreateCtidResponse, reply: Result<CreateTraderResponse, E> },
    /// The call that links the two has answered.
    LinkReplied {
        create_ctid_resp: CreateCtidResponse,
        trader: CreateTraderResponse,
        reply: Result<LinkCtidResponse, E>,
    },
}

/// What to do next in a registration. A call comes with the replies so far,
/// to be handed back with its answer. `D` is what a finished registration
/// yields.
#[derive(Debug, PartialEq, Eq)]
pub enum RegisterAction<D, E> {
    /// Ask for a new user id.
    CreateCtid(CreateCtidRequest),
    /// Ask for a new account.
    CreateTrader { request: CreateTraderRequest, create_ctid_resp: CreateCtidResponse },
    /// Link the account to the user.
    LinkCtid {
        request: LinkCtidRequest,
        create_ctid_resp: CreateCtidResponse,
        trader: CreateTraderResponse,
    },
    /// The registration is through.
    Done(D),
    /// A call failed: make no further call and hand the failure on as it is.
    Failed(E),
}

impl RegisterUserFlow {
    /// Whether `request` asks for a new user id for this registration.
    pub open spec fn asks_for_ctid(self, request: CreateCtidRequest) -> bool {
        &&& request.email@ == self.user_email@
        &&& request.broker_name@ == self.broker_name@
        &&& request.preferred_lang is None
    }

    /// Whether `request` asks for the account of this registration: hedged,
    /// with full access, nothing on it and no leverage, under the given
    /// digest of the password.
    pub open spec fn asks_for_trader(self, password_hash: Seq<char>, request: CreateTraderRequest)
        -> bool {
        &&& request.access_rights == TraderAccessRights::FullAccess
        &&& request.account_type == TraderAccountType::Hedged
        &&& request.balance == 0
        &&& request.broker_name@ == self.broker_name@
        &&& request.deposit_currency@ == self.deposit_currency@
        &&& request.group_name@ == self.group_name@
        &&& request.hashed_password@ == password_hash
        &&& request.leverage_in_cents == 0
        &&& request.total_margin_calculation_type == TotalMarginCalculationType::Max
        &&& request.contact_details is None
        &&& request.description is None
        &&& request.is_limited_risk is None
        &&& request.last_name is None
        &&& request.limited_risk_margin_calculation_strategy is None
        &&& request.max_leverage is None
        &&& request.name is None
        &&& request.send_own_statement is None
        &&& request.send_statement_to_broker is None
        &&& request.swap_free is None
    }

    /// Whether `request` links the given account to the given user for this
    /// registration and asks for the account id.
    pub open spec fn asks_for_link(
        self,
        password_hash: Seq<char>,
        trader_login: i32,
        user_id: i32,
        request: LinkCtidRequest,
    ) -> bool {
        &&& request.trader_login == trader_login
        &&& request.trader_password_hash@ == password_hash
        &&& request.user_id == user_id
        &&& request.broker_name@ == self.broker_name@
        &&& request.environment_name@ == self.environment_name@
        &&& request.return_account_details == Some(true)
    }

    /// The request for a new user id.
    pub fn create_ctid_request(&self) -> (request: CreateCtidRequest)
        ensures
            self.asks_for_ctid(request),
    {
        CreateCtidRequest {
            email: self.user_email.clone(),
            broker_name: self.broker_name.clone(),
            preferred_lang: None,
        }
    }

    /// The request for a new account, given the digest of the password.
    pub fn create_trader_request(&self, password_hash: &str) -> (request: CreateTraderRequest)
        ensures
            self.asks_for_trader(password_hash@, request),
    {
        CreateTraderRequest {
            access_rights: TraderAccessRights::FullAccess,
            account_type: TraderAccountType::Hedged,
            balance: 0,
            broker_name: self.broker_name.clone(),
            deposit_currency: self.deposit_currency.clone(),
            group_name: self.group_name.clone(),
            hashed_password: password_hash.to_owned(),
            leverage_in_cents: 0,
            total_margin_calculation_type: TotalMarginCalculationType::Max,
            contact_details: None,
            description: None,
            is_limited_risk: None,
            last_name: None,
            limited_risk_margin_calculation_strategy: None,
            max_leverage: None,
            name: None,
            send_own_statement: None,
            send_statement_to_broker: None,
            swap_free: None,
        }
    }

    /// The request that links an account to a user.
    pub fn link_ctid_request(&self, password_hash: &str, trader_login: i32, user_id: i32) -> (request:
        LinkCtidRequest)
        ensures
            self.asks_for_link(password_hash@, trader_login, user_id, request),
    {
        LinkCtidRequest {
            trader_login,
            trader_password_hash: password_hash.to_owned(),
            user_id,
            broker_name: self.broker_name.clone(),
            environment_name: self.environment_name.clone(),
            return_account_details: Some(true),
        }
    }

    /// One step of a registration, given the digest of the password.
    ///
    /// The calls come in one order: user id, account, link. Each is asked
    /// for only when the one before has answered well; a failure ends the
    /// registration and is handed on as it came. The link request names the
    /// login of the new account and the id of the new user. The outcome
    /// holds both and the account id of the link, which the link response
    /// must hold, since the request asked for it.
    pub fn execute<E>(&self, password_hash: &str, event: RegisterEvent<E>) -> (action:
        RegisterAction<RegisterUserInfo, E>)
        requires
            event matches RegisterEvent::LinkReplied { reply: Ok(link), .. }
                ==> link.ctid_trader_account_id is Some,
        ensures
            match event {
                RegisterEvent::Start => action matches RegisterAction::CreateCtid(request)
                    && self.asks_for_ctid(request),
                RegisterEvent::CtidReplied(Ok(ctid)) => action matches RegisterAction::CreateTrader {
                    request,
                    create_ctid_resp,
                } && create_ctid_resp == ctid && self.asks_for_trader(password_hash@, request),
                RegisterEvent::TraderReplied {
                    create_ctid_resp: ctid,
                    reply: Ok(account),
                } => action matches RegisterAction::LinkCtid { request, create_ctid_resp, trader }
                    && create_ctid_resp == ctid && trader == account && self.asks_for_link(
                    password_hash@,
                    account.login,
                    ctid.user_id,
                    request,
                ),
                RegisterEvent::LinkReplied {
                    create_ctid_resp: ctid,
                    trader: account,
                    reply: Ok(link),
                } => action matches RegisterAction::Done(info) && info == (RegisterUserInfo {
                    trader_login: account.login,
                    user_id: ctid.user_id,
                    account_id: link.ctid_trader_account_id.unwrap(),
                }),
                RegisterEvent::CtidReplied(Err(e)) => action matches RegisterAction::Failed(got)
                    && got == e,
                RegisterEvent::TraderReplied { reply: Err(e), .. } => action matches RegisterAction::Failed(
                    got,
                ) && got == e,
                RegisterEvent::LinkReplied { reply: Err(e), .. } => action matches RegisterAction::Failed(
                    got,
                ) && got == e,
            },
    {
        match event {
            RegisterEvent::Start => RegisterAction::CreateCtid(self.create_ctid_request()),
            RegisterEvent::CtidReplied(Ok(create_ctid_resp)) => RegisterAction::CreateTrader {
                request: self.create_trader_request(password_hash),
                create_ctid_resp,
            },
            RegisterEvent::TraderReplied { create_ctid_resp, reply: Ok(trader) } => {
                let request = self.link_ctid_request(
                    password_hash,
                    trader.login,
                    create_ctid_resp.user_id,
                );
                RegisterAction::LinkCtid { request, create_ctid_resp, trader }
            },
            RegisterEvent::LinkReplied { create_ctid_resp, trader, reply: Ok(link) } => {
                let account_id = match link.ctid_trader_account_id {
                    Some(id) => id,
                    None => 0,
                };
                RegisterAction::Done(
                    RegisterUserInfo {
                        trader_login: trader.login,
                        user_id: create_ctid_resp.user_id,
                        account_id,
                    },
                )
            },
            RegisterEvent::CtidReplied(Err(e)) => RegisterAction::Failed(e),
            RegisterEvent::TraderReplied { reply: Err(e), .. } => RegisterAction::Failed(e),
            RegisterEvent::LinkReplied { reply: Err(e), .. } => RegisterAction::Failed(e),
        }
    }
}

} // verus!
