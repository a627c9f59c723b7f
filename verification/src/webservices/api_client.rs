//! A web service client that asks its configuration for the base address on
//! every call.

use crate::rest::creds::ManagerCreds;
use crate::rest::endpoints::{HttpMethod, WebservicesApiEndpoint};
use crate::rest::errors::RestError;
use crate::rest::models::{CreateCtraderManagerTokenRequest, CreateCtraderManagerTokenResponse};
use crate::rest::rest_client::{
    full_url, full_url_spec, join_query, json_content, json_headers, query_string_spec,
    respond, response_matches, StatusClass,
};
use vstd::prelude::*;
use vstd::string::StrSliceExecFns;
use vstd::utf8::encode_utf8;

verus! {

/// Where the web service is.
pub trait WebservicesApiConfig {
    fn get_url(&self) -> String;
}

/// A client of the web service: creating and changing users and trading
/// accounts, deposits and withdrawals.
pub struct WebservicesApiClient<C: WebservicesApiConfig> {
    config: C,
    creds: ManagerCreds,
    auth_token: Option<String>,
}

/// A call, ready to be made.
#[derive(Clone, Debug, PartialEq, Eq)]
pub struct FlurlCall {
    pub method: HttpMethod,
    /// The base address that the configuration gave for this call.
    pub base_url: String,
    pub url: String,
    pub headers: Vec<(String, String)>,
    pub body: Option<Vec<u8>>,
}

/// The meaning of a status code: 200, 201 and 204 are success, 401 and 403
/// are refusals.
pub open spec fn flurl_status_class(status: u16) -> StatusClass {
    if status == 200 || status == 201 || status == 204 {
        StatusClass::Success
    } else if status == 500 {
        StatusClass::InternalServerError
    } else if status == 503 {
        StatusClass::ServiceUnavailable
    } else if status == 401 || status == 403 {
        StatusClass::Unauthorized
    } else if status == 400 {
        StatusClass::BadRequest
    } else {
        StatusClass::Unexpected
    }
}

/// Judges a response: the body where the status is 200, 201 or 204, else the
/// error that the status stands for.
pub fn handle_flurl_text(
    status: u16,
    body: String,
    request_json: Option<String>,
    request_url: &str,
) -> (r: Result<String, RestError>)
    ensures
        response_matches(flurl_status_class(status), r, status, body@, request_json, request_url@),
{
    let class = if status == 200 || status == 201 || status == 204 {
        StatusClass::Success
    } else if status == 500 {
        StatusClass::InternalServerError
    } else if status == 503 {
        StatusClass::ServiceUnavailable
    } else if status == 401 || status == 403 {
        StatusClass::Unauthorized
    } else if status == 400 {
        StatusClass::BadRequest
    } else {
        StatusClass::Unexpected
    };
    respond(class, status, body, request_json, request_url)
}

impl<C: WebservicesApiConfig> WebservicesApiClient<C> {
    /// The token of the session, if there is one.
    pub closed spec fn token(self) -> Option<String> {
        self.auth_token
    }

    /// The credentials the client was made with.
    pub closed spec fn creds(self) -> ManagerCreds {
        self.creds
    }

    /// The configuration the client was made with.
    pub closed spec fn config(self) -> C {
        self.config
    }

    /// A client without a token.
    pub fn new(config: C, creds: ManagerCreds) -> (client: WebservicesApiClient<C>)
        ensures
            client.token() is None,
            client.creds() == creds,
            client.config() == config,
    {
        WebservicesApiClient { config, creds, auth_token: None }
    }

    /// Forgets the token.
    pub fn clear_token(&mut self)
        ensures
            final(self).token() is None,
            final(self).creds() == old(self).creds(),
            final(self).config() == old(self).config(),
    {
        self.auth_token = None;
    }

    /// Whether the client has a token.
    pub fn is_authorized(&self) -> (authorized: bool)
        ensures
            authorized == self.token() is Some,
    {
        self.auth_token.is_some()
    }

    /// A copy of the token.
    pub fn get_token_cloned(&self) -> (token: Option<String>)
        ensures
            token is Some == self.token() is Some,
            token matches Some(t) ==> t@ == self.token().unwrap()@,
    {
        match &self.auth_token {
            Some(token) => Some(token.clone()),
            None => None,
        }
    }

    /// The request for a token, given the digest of the password.
    pub fn create_token(&self, hashed_password: String) -> (request:
        CreateCtraderManagerTokenRequest)
        ensures
            request.login == self.creds().login,
            request.hashed_password == hashed_password,
    {
        CreateCtraderManagerTokenRequest { login: self.creds.login, hashed_password }
    }

    /// Keeps the token of a token response for the calls to come.
    pub fn authorize(&mut self, response: CreateCtraderManagerTokenResponse)
        ensures
            final(self).token() == Some(response.token),
            final(self).creds() == old(self).creds(),
            final(self).config() == old(self).config(),
    {
        self.auth_token = Some(response.token);
    }

    /// Joins pairs into a query string.
    pub fn build_query_string(&self, params: Vec<(&str, &str)>) -> (query: String)
        ensures
            query@ == query_string_spec(params@),
    {
        join_query(&params)
    }

    /// The address of a call to `endpoint` below `base_url`.
    pub fn build_full_url(
        &self,
        base_url: &str,
        endpoint: &WebservicesApiEndpoint,
        query_string: Option<String>,
        token: &Option<String>,
    ) -> (url: String)
        ensures
            url@ == full_url_spec(
                base_url@,
                endpoint.path_spec(),
                match query_string {
                    Some(query) => Some(query@),
                    None => None,
                },
                match token {
                    Some(token) => Some(token@),
                    None => None,
                },
            ),
    {
        full_url(base_url, endpoint, query_string, token)
    }

    /// Prepares a call: verb, address, headers and body. The base address is
    /// what the configuration answers when asked now. The query string goes
    /// into the address of a `GET` only; the body goes with `POST`, `PUT` and
    /// `PATCH` only.
    pub fn send_flurl(
        &self,
        endpoint: &WebservicesApiEndpoint,
        query_string: String,
        request_json: Option<String>,
    ) -> (call: FlurlCall)
        ensures
            call_ensures(C::get_url, (&self.config(),), call.base_url),
            call.method == endpoint.method_spec(),
            call.url@ == full_url_spec(
                call.base_url@,
                endpoint.path_spec(),
                if endpoint.method_spec() is Get {
                    Some(query_string@)
                } else {
                    None
                },
                match self.token() {
                    Some(token) => Some(token@),
                    None => None,
                },
            ),
            call.body is Some == (endpoint.method_spec().has_body() && request_json is Some),
            call.body matches Some(bytes) ==> bytes@ == encode_utf8(request_json.unwrap()@),
            call.headers@.len() == 2,
            call.headers@[0].0@ == "Content-Type"@,
            call.headers@[0].1@ == json_content(),
            call.headers@[1].0@ == "Accept"@,
            call.headers@[1].1@ == json_content(),
    {
        let base_url = self.config.get_url();
        let method = endpoint.get_http_method();
        let url = if method.takes_query() {
            self.build_full_url(base_url.as_str(), endpoint, Some(query_string), &self.auth_token)
        } else {
            self.build_full_url(base_url.as_str(), endpoint, None, &self.auth_token)
        };
        let body = if method.carries_body() {
            match &request_json {
                Some(json) => Some(json.as_str().as_bytes_vec()),
                None => None,
            }
        } else {
            None
        };
        FlurlCall { method, base_url, url, headers: json_headers(), body }
    }
}

} // verus!
