use std::collections::HashMap;

use ctrader_connector::rest::creds::ManagerCreds;
use ctrader_connector::rest::endpoints::{HttpMethod, WebservicesApiEndpoint};
use ctrader_connector::rest::errors::{ErrorContent, RestError};
use ctrader_connector::rest::models::{
    CreateCtidResponse, CreateCtraderManagerTokenResponse, CreateTraderRequest,
    CreateTraderResponse, CtidStatus, LimitedRiskMarginCalculationStrategy, LinkCtidResponse,
    TotalMarginCalculationType, TraderAccessRights, TraderAccountType,
};
use ctrader_connector::rest::register_user_flow::{
    RegisterAction, RegisterEvent, RegisterUserFlow, RegisterUserInfo,
};
use ctrader_connector::rest::rest_client::{
    full_url, handle, join_query, json_headers, WebservicesRestClient,
};
use ctrader_connector::webservices::api_client::{
    handle_flurl_text, WebservicesApiClient, WebservicesApiConfig,
};
use ctrader_connector::webservices::register_user_flow::RegisterData;

fn creds() -> ManagerCreds {
    ManagerCreds { password: "secret".to_string(), login: 42 }
}

fn all_endpoints() -> Vec<WebservicesApiEndpoint> {
    vec![
        WebservicesApiEndpoint::CreateManagerToken,
        WebservicesApiEndpoint::CreateCtid,
        WebservicesApiEndpoint::CreateTrader,
        WebservicesApiEndpoint::LinkCtid,
        WebservicesApiEndpoint::UpdateTrader("77".to_string()),
        WebservicesApiEndpoint::UpdateTraderBalance("77".to_string()),
    ]
}

struct Config;

impl WebservicesApiConfig for Config {
    fn get_url(&self) -> String {
        "https://ws.example.com".to_string()
    }
}

#[test]
fn endpoint_paths() {
    let paths: Vec<String> = all_endpoints().iter().map(|e| e.path()).collect();
    assert_eq!(
        paths,
        vec![
            "/v2/webserv/managers/token",
            "/cid/ctid/create",
            "/v2/webserv/traders",
            "/cid/ctid/link",
            "/v2/webserv/traders/77",
            "/v2/webserv/traders/77/changebalance",
        ]
    );
    assert_eq!(WebservicesApiEndpoint::UpdateTrader(String::new()).path(), "/v2/webserv/traders/");
}

#[test]
fn endpoint_methods() {
    let methods: Vec<HttpMethod> = all_endpoints().iter().map(|e| e.get_http_method()).collect();
    assert_eq!(
        methods,
        vec![
            HttpMethod::Post,
            HttpMethod::Post,
            HttpMethod::Post,
            HttpMethod::Post,
            HttpMethod::Patch,
            HttpMethod::Post,
        ]
    );
}

#[test]
fn method_names_and_bodies() {
    let all = [
        (HttpMethod::Get, "GET", false),
        (HttpMethod::Post, "POST", true),
        (HttpMethod::Put, "PUT", true),
        (HttpMethod::Patch, "PATCH", true),
        (HttpMethod::Delete, "DELETE", false),
    ];
    for (method, name, body) in all {
        assert_eq!(method.as_str(), name);
        assert_eq!(method.carries_body(), body);
    }
}

#[test]
fn enum_names() {
    assert_eq!(CtidStatus::CtidNew.as_str(), "CTID_NEW");
    assert_eq!(CtidStatus::CtidActive.as_str(), "CTID_ACTIVE");
    assert_eq!(CtidStatus::CtidDeleted.as_str(), "CTID_DELETED");
    assert_eq!(
        LimitedRiskMarginCalculationStrategy::AccordingToLeverage.as_str(),
        "ACCORDING_TO_LEVERAGE"
    );
    assert_eq!(LimitedRiskMarginCalculationStrategy::AccordingToGsl.as_str(), "ACCORDING_TO_GSL");
    assert_eq!(
        LimitedRiskMarginCalculationStrategy::AccordingToGslAndLeverage.as_str(),
        "ACCORDING_TO_GSL_AND_LEVERAGE"
    );
    assert_eq!(TotalMarginCalculationType::Max.as_str(), "MAX");
    assert_eq!(TotalMarginCalculationType::Sum.as_str(), "SUM");
    assert_eq!(TotalMarginCalculationType::Net.as_str(), "NET");
    assert_eq!(TraderAccountType::Hedged.as_str(), "HEDGED");
    assert_eq!(TraderAccountType::Netted.as_str(), "NETTED");
    assert_eq!(TraderAccountType::SpreadBetting.as_str(), "SPREAD_BETTING");
    assert_eq!(TraderAccessRights::FullAccess.as_str(), "FULL_ACCESS");
    assert_eq!(TraderAccessRights::CloseOnly.as_str(), "CLOSE_ONLY");
    assert_eq!(TraderAccessRights::NoTrading.as_str(), "NO_TRADING");
    assert_eq!(TraderAccessRights::NoLogin.as_str(), "NO_LOGIN");
}

#[test]
fn query_string_joins_pairs() {
    assert_eq!(join_query(&vec![]), "");
    assert_eq!(join_query(&vec![("a", "1")]), "a=1");
    assert_eq!(join_query(&vec![("a", "1"), ("b", "2"), ("c", "")]), "a=1&b=2&c=");
    assert_eq!(join_query(&vec![("", "")]), "=");
    let rest = WebservicesRestClient::new("u".to_string(), creds());
    assert_eq!(rest.build_query_string(vec![("from", "1"), ("to", "2")]), "from=1&to=2");
    let ws = WebservicesApiClient::new(Config, creds());
    assert_eq!(ws.build_query_string(vec![("from", "1"), ("to", "2")]), "from=1&to=2");
    assert_eq!(ws.build_query_string(vec![]), "");
}

#[test]
fn full_url_with_and_without_token() {
    let e = WebservicesApiEndpoint::UpdateTrader("5".to_string());
    let token = Some("T".to_string());
    assert_eq!(
        full_url("http://h", &e, Some("a=1".to_string()), &token),
        "http://h/v2/webserv/traders/5?a=1&token=T"
    );
    assert_eq!(full_url("http://h", &e, None, &token), "http://h/v2/webserv/traders/5?token=T");
    assert_eq!(full_url("http://h", &e, None, &None), "http://h/v2/webserv/traders/5");
    // without a token the query string is left out
    assert_eq!(
        full_url("http://h", &e, Some("a=1".to_string()), &None),
        "http://h/v2/webserv/traders/5"
    );
    let ws = WebservicesApiClient::new(Config, creds());
    assert_eq!(
        ws.build_full_url("b", &WebservicesApiEndpoint::LinkCtid, Some("q".to_string()), &token),
        "b/cid/ctid/link?q&token=T"
    );
}

#[test]
fn rest_client_keeps_its_token() {
    let mut c = WebservicesRestClient::new("http://h".to_string(), creds());
    assert_eq!(c.auth_token, None);
    let request = c.create_token("digest".to_string());
    assert_eq!(request.login, 42);
    assert_eq!(request.hashed_password, "digest");
    assert_eq!(
        c.build_full_url(&WebservicesApiEndpoint::CreateManagerToken, None),
        "http://h/v2/webserv/managers/token"
    );
    c.authorize(CreateCtraderManagerTokenResponse { token: "T1".to_string() });
    assert_eq!(c.auth_token, Some("T1".to_string()));
    assert_eq!(
        c.build_full_url(&WebservicesApiEndpoint::CreateTrader, None),
        "http://h/v2/webserv/traders?token=T1"
    );
    assert_eq!(c.url, "http://h");
    assert!(c.creds == creds());
}

#[test]
fn rest_client_prepares_requests() {
    let mut c = WebservicesRestClient::new("http://h".to_string(), creds());
    c.authorize(CreateCtraderManagerTokenResponse { token: "T".to_string() });
    let r = c.send(
        &WebservicesApiEndpoint::UpdateTrader("9".to_string()),
        "ignored=1".to_string(),
        Some("{}".to_string()),
    );
    assert_eq!(r.method, HttpMethod::Patch);
    assert_eq!(r.url, "http://h/v2/webserv/traders/9?token=T");
    assert_eq!(r.body, Some("{}".to_string()));
    assert_eq!(r.headers, json_headers());
    assert_eq!(
        c.build_headers(),
        vec![
            ("Content-Type".to_string(), "application/json".to_string()),
            ("Accept".to_string(), "application/json".to_string()),
        ]
    );
    let r = c.send(&WebservicesApiEndpoint::CreateCtid, String::new(), None);
    assert_eq!(r.method, HttpMethod::Post);
    assert_eq!(r.body, None);
}

#[test]
fn webservices_client_token() {
    let mut c = WebservicesApiClient::new(Config, creds());
    assert!(!c.is_authorized());
    assert_eq!(c.get_token_cloned(), None);
    assert_eq!(c.create_token("d".to_string()).login, 42);
    c.authorize(CreateCtraderManagerTokenResponse { token: "T".to_string() });
    assert!(c.is_authorized());
    assert_eq!(c.get_token_cloned(), Some("T".to_string()));
    c.clear_token();
    assert!(!c.is_authorized());
    assert_eq!(c.get_token_cloned(), None);
    c.clear_token();
    assert!(!c.is_authorized());
}

#[test]
fn webservices_client_prepares_calls() {
    let mut c = WebservicesApiClient::new(Config, creds());
    c.authorize(CreateCtraderManagerTokenResponse { token: "T".to_string() });
    let call = c.send_flurl(
        &WebservicesApiEndpoint::CreateTrader,
        "q=1".to_string(),
        Some("{\"a\":\"\u{e9}\"}".to_string()),
    );
    assert_eq!(call.method, HttpMethod::Post);
    assert_eq!(call.base_url, "https://ws.example.com");
    assert_eq!(call.url, "https://ws.example.com/v2/webserv/traders?token=T");
    assert_eq!(call.body, Some("{\"a\":\"\u{e9}\"}".as_bytes().to_vec()));
    assert_eq!(call.headers, json_headers());
    let call = c.send_flurl(&WebservicesApiEndpoint::LinkCtid, String::new(), None);
    assert_eq!(call.body, None);
}

#[test]
fn rest_handle_by_status() {
    let url = "http://h/x";
    let req = Some("{}".to_string());
    let body = || "body".to_string();
    assert_eq!(handle(200, body(), req.clone(), url), Ok(body()));
    assert_eq!(handle(201, body(), None, url), Ok(body()));
    assert_eq!(
        handle(500, body(), req.clone(), url),
        Err(RestError::InternalServerError { url: url.to_string() })
    );
    assert_eq!(
        handle(503, body(), req.clone(), url),
        Err(RestError::ServiceUnavailable { url: url.to_string() })
    );
    assert_eq!(
        handle(401, body(), req.clone(), url),
        Err(RestError::Unauthorized { url: url.to_string() })
    );
    assert_eq!(
        handle(400, body(), req.clone(), url),
        Err(RestError::BadRequest { url: url.to_string(), request: req.clone(), response: body() })
    );
    for status in [204u16, 403, 404, 302, 0, 999, u16::MAX] {
        assert_eq!(
            handle(status, body(), req.clone(), url),
            Err(RestError::UnexpectedStatus {
                status,
                url: url.to_string(),
                request: req.clone(),
                response: body()
            })
        );
    }
}

#[test]
fn flurl_handle_by_status() {
    let url = "http://h/x";
    let body = || "body".to_string();
    for status in [200u16, 201, 204] {
        assert_eq!(handle_flurl_text(status, body(), None, url), Ok(body()));
    }
    for status in [401u16, 403] {
        assert_eq!(
            handle_flurl_text(status, body(), None, url),
            Err(RestError::Unauthorized { url: url.to_string() })
        );
    }
    assert_eq!(
        handle_flurl_text(500, body(), None, url),
        Err(RestError::InternalServerError { url: url.to_string() })
    );
    assert_eq!(
        handle_flurl_text(503, body(), None, url),
        Err(RestError::ServiceUnavailable { url: url.to_string() })
    );
    assert_eq!(
        handle_flurl_text(400, body(), None, url),
        Err(RestError::BadRequest { url: url.to_string(), request: None, response: body() })
    );
    assert_eq!(
        handle_flurl_text(404, body(), None, url),
        Err(RestError::UnexpectedStatus {
            status: 404,
            url: url.to_string(),
            request: None,
            response: body()
        })
    );
}

fn flow() -> RegisterUserFlow {
    RegisterUserFlow {
        user_email: "a@b.c".to_string(),
        broker_name: "broker".to_string(),
        user_password: "pw".to_string(),
        deposit_currency: "USD".to_string(),
        group_name: "group".to_string(),
        environment_name: "demo".to_string(),
    }
}

fn bare_trader_request() -> CreateTraderRequest {
    CreateTraderRequest {
        access_rights: TraderAccessRights::FullAccess,
        account_type: TraderAccountType::Hedged,
        balance: 0,
        broker_name: "broker".to_string(),
        deposit_currency: "USD".to_string(),
        group_name: "group".to_string(),
        hashed_password: "digest".to_string(),
        leverage_in_cents: 0,
        total_margin_calculation_type: TotalMarginCalculationType::Max,
        contact_details: None,
        description: None,
        is_limited_risk: None,
        last_name: None,
        limited_risk_margin_calculation_strategy: None,
        max_leverage: None,
        name: None,
        send_own_statement: None,
        send_statement_to_broker: None,
        swap_free: None,
    }
}

fn ctid_response(user_id: i32) -> CreateCtidResponse {
    CreateCtidResponse {
        user_id,
        nickname: None,
        email: None,
        preferred_lang: None,
        timestamp: None,
        status: Some(CtidStatus::CtidNew),
    }
}

fn trader_response(login: i32) -> CreateTraderResponse {
    CreateTraderResponse {
        bonus: 0,
        equity: 0,
        free_margin: 0,
        cash_equity: 0,
        last_update_timestamp: 0,
        login,
        money_digits: 2,
        non_withdrawal_bonus: 0,
        registration_timestamp: 0,
        swap_free: true,
        used_margin: 0,
    }
}

fn wide_flow() -> ctrader_connector::webservices::register_user_flow::RegisterUserFlow {
    ctrader_connector::webservices::register_user_flow::RegisterUserFlow {
        user_email: "a@b.c".to_string(),
        broker_name: "broker".to_string(),
        user_password: "pw".to_string(),
        deposit_currency: "USD".to_string(),
        group_name: "group".to_string(),
        environment_name: "demo".to_string(),
        leverage_in_cents: 10_000,
        first_name: Some("Ada".to_string()),
        last_name: None,
        swap_free: Some(true),
        description: Some("d".to_string()),
    }
}

#[test]
fn register_flow_builds_its_three_requests() {
    let f = flow();
    let ctid = f.create_ctid_request();
    assert_eq!(ctid.email, "a@b.c");
    assert_eq!(ctid.broker_name, "broker");
    assert_eq!(ctid.preferred_lang, None);
    assert_eq!(f.create_trader_request("digest"), bare_trader_request());
    let link = f.link_ctid_request("digest", 1001, 55);
    assert_eq!(link.trader_login, 1001);
    assert_eq!(link.trader_password_hash, "digest");
    assert_eq!(link.user_id, 55);
    assert_eq!(link.broker_name, "broker");
    assert_eq!(link.environment_name, "demo");
    assert_eq!(link.return_account_details, Some(true));
}

#[test]
fn registration_makes_its_calls_in_order() {
    let f = flow();
    let start: RegisterEvent<String> = RegisterEvent::Start;
    assert_eq!(f.execute("digest", start), RegisterAction::CreateCtid(f.create_ctid_request()));
    assert_eq!(
        f.execute::<String>("digest", RegisterEvent::CtidReplied(Ok(ctid_response(55)))),
        RegisterAction::CreateTrader {
            request: bare_trader_request(),
            create_ctid_resp: ctid_response(55)
        }
    );
    assert_eq!(
        f.execute::<String>(
            "digest",
            RegisterEvent::TraderReplied {
                create_ctid_resp: ctid_response(55),
                reply: Ok(trader_response(1001))
            }
        ),
        RegisterAction::LinkCtid {
            request: f.link_ctid_request("digest", 1001, 55),
            create_ctid_resp: ctid_response(55),
            trader: trader_response(1001)
        }
    );
    assert_eq!(
        f.execute::<String>(
            "digest",
            RegisterEvent::LinkReplied {
                create_ctid_resp: ctid_response(55),
                trader: trader_response(1001),
                reply: Ok(LinkCtidResponse { ctid_trader_account_id: Some(9) })
            }
        ),
        RegisterAction::Done(RegisterUserInfo { trader_login: 1001, user_id: 55, account_id: 9 })
    );
}

#[test]
fn registration_stops_at_the_first_failure() {
    let f = flow();
    let failure = || "no".to_string();
    assert_eq!(
        f.execute("digest", RegisterEvent::CtidReplied(Err(failure()))),
        RegisterAction::Failed(failure())
    );
    assert_eq!(
        f.execute(
            "digest",
            RegisterEvent::TraderReplied { create_ctid_resp: ctid_response(1), reply: Err(failure()) }
        ),
        RegisterAction::Failed(failure())
    );
    assert_eq!(
        f.execute(
            "digest",
            RegisterEvent::LinkReplied {
                create_ctid_resp: ctid_response(1),
                trader: trader_response(2),
                reply: Err(failure())
            }
        ),
        RegisterAction::Failed(failure())
    );
    let w = wide_flow();
    assert_eq!(
        w.execute("digest", RegisterEvent::CtidReplied(Err(7u8))),
        RegisterAction::Failed(7u8)
    );
    assert_eq!(
        w.execute(
            "digest",
            RegisterEvent::TraderReplied { create_ctid_resp: ctid_response(1), reply: Err(7u8) }
        ),
        RegisterAction::Failed(7u8)
    );
    assert_eq!(
        w.execute(
            "digest",
            RegisterEvent::LinkReplied {
                create_ctid_resp: ctid_response(1),
                trader: trader_response(2),
                reply: Err(7u8)
            }
        ),
        RegisterAction::Failed(7u8)
    );
}

#[test]
fn a_whole_registration_run() {
    let f = wide_flow();
    let mut calls = Vec::new();
    let mut event: RegisterEvent<String> = RegisterEvent::Start;
    let data = loop {
        event = match f.execute("digest", event) {
            RegisterAction::CreateCtid(request) => {
                calls.push(format!("ctid {}", request.email));
                RegisterEvent::CtidReplied(Ok(ctid_response(55)))
            }
            RegisterAction::CreateTrader { request, create_ctid_resp } => {
                calls.push(format!("trader {} {}", request.hashed_password, request.balance));
                RegisterEvent::TraderReplied { create_ctid_resp, reply: Ok(trader_response(1001)) }
            }
            RegisterAction::LinkCtid { request, create_ctid_resp, trader } => {
                calls.push(format!(
                    "link {} {} {} {:?}",
                    request.trader_login,
                    request.user_id,
                    request.trader_password_hash,
                    request.return_account_details
                ));
                RegisterEvent::LinkReplied {
                    create_ctid_resp,
                    trader,
                    reply: Ok(LinkCtidResponse { ctid_trader_account_id: None }),
                }
            }
            RegisterAction::Done(data) => break data,
            RegisterAction::Failed(err) => panic!("{}", err),
        };
    };
    assert_eq!(calls, vec!["ctid a@b.c", "trader digest 0", "link 1001 55 digest Some(true)"]);
    assert_eq!(
        data,
        RegisterData {
            create_ctid_resp: ctid_response(55),
            trader: trader_response(1001),
            link_ctid_resp: LinkCtidResponse { ctid_trader_account_id: None },
        }
    );
}

#[test]
fn webservices_register_flow_carries_the_optional_fields() {
    let f = wide_flow();
    assert_eq!(f.create_ctid_request(), flow().create_ctid_request());
    let expected = CreateTraderRequest {
        leverage_in_cents: 10_000,
        name: Some("Ada".to_string()),
        swap_free: Some(true),
        description: Some("d".to_string()),
        ..bare_trader_request()
    };
    assert_eq!(f.create_trader_request("digest"), expected);
    assert_eq!(f.link_ctid_request("digest", 1, 2), flow().link_ctid_request("digest", 1, 2));
    assert_eq!(
        f.execute::<String>("digest", RegisterEvent::CtidReplied(Ok(ctid_response(2)))),
        RegisterAction::CreateTrader { request: expected, create_ctid_resp: ctid_response(2) }
    );
}

#[test]
fn error_content_holds_messages_by_field() {
    let mut errors = HashMap::new();
    errors.insert("login".to_string(), "taken".to_string());
    let content = ErrorContent { errors };
    assert_eq!(content.errors.get("login"), Some(&"taken".to_string()));
    assert!(creds().duplicate() == creds());
}

#[test]
fn only_get_takes_a_query_string() {
    assert!(HttpMethod::Get.takes_query());
    for method in [HttpMethod::Post, HttpMethod::Put, HttpMethod::Patch, HttpMethod::Delete] {
        assert!(!method.takes_query());
    }
}
