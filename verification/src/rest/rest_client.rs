//! The web service client: what is sent where, and what an answer means.
//!
//! The client holds the base address, the credentials and the token of the
//! session. It prepares requests and judges responses; sending is the
//! caller's part.

use crate::rest::creds::ManagerCreds;
use crate::rest::endpoints::{HttpMethod, WebservicesApiEndpoint};
use crate::rest::errors::RestError;
use crate::rest::models::{CreateCtraderManagerTokenRequest, CreateCtraderManagerTokenResponse};
use vstd::prelude::*;
use vstd::string::StringExecFns;

verus! {

/// Name of the query parameter that carries the token.
pub open spec fn token_param() -> Seq<char> {
    "token"@
}

/// The media type of every body, sent and accepted.
pub open spec fn json_content() -> Seq<char> {
    "application/json"@
}

/// Pairs joined into a query string: `key=value`, with `&` between pairs.
pub open spec fn query_string_spec(params: Seq<(&str, &str)>) -> Seq<char>
    decreases params.len(),
{
    if params.len() == 0 {
        Seq::empty()
    } else if params.len() == 1 {
        params[0].0@ + "="@ + params[0].1@
    } else {
        query_string_spec(params.drop_last()) + "&"@ + params.last().0@ + "="@ + params.last().1@
    }
}

/// The address of a call. With a token, the query string (where there is
/// one) and the token follow the path; without a token the path is the end of
/// it and the query string is left out.
pub open spec fn full_url_spec(
    base_url: Seq<char>,
    path: Seq<char>,
    query_string: Option<Seq<char>>,
    token: Option<Seq<char>>,
) -> Seq<char> {
    match token {
        Some(token) => match query_string {
            Some(query) => base_url + path + "?"@ + query + "&"@ + token_param() + "="@ + token,
            None => base_url + path + "?"@ + token_param() + "="@ + token,
        },
        None => base_url + path,
    }
}

/// What a status code means to the client.
#[derive(Clone, Copy, Debug, PartialEq, Eq, Structural)]
pub enum StatusClass {
    Success,
    InternalServerError,
    ServiceUnavailable,
    Unauthorized,
    BadRequest,
    Unexpected,
}

/// The meaning of a status code: 200 and 201 are success, 401 is a refusal.
pub open spec fn status_class(status: u16) -> StatusClass {
    if status == 200 || status == 201 {
        StatusClass::Success
    } else if status == 500 {
        StatusClass::InternalServerError
    } else if status == 503 {
        StatusClass::ServiceUnavailable
    } else if status == 401 {
        StatusClass::Unauthorized
    } else if status == 400 {
        StatusClass::BadRequest
    } else {
        StatusClass::Unexpected
    }
}

/// What a response with the given class amounts to.
pub open spec fn response_matches(
    class: StatusClass,
    r: Result<String, RestError>,
    status: u16,
    body: Seq<char>,
    request_json: Option<String>,
    request_url: Seq<char>,
) -> bool {
    match class {
        StatusClass::Success => r matches Ok(text) && text@ == body,
        StatusClass::InternalServerError => r matches Err(RestError::InternalServerError { url })
            && url@ == request_url,
        StatusClass::ServiceUnavailable => r matches Err(RestError::ServiceUnavailable { url })
            && url@ == request_url,
        StatusClass::Unauthorized => r matches Err(RestError::Unauthorized { url }) && url@
            == request_url,
        StatusClass::BadRequest => r matches Err(RestError::BadRequest { url, request, response })
            && url@ == request_url && request == request_json && response@ == body,
        StatusClass::Unexpected => r matches Err(
            RestError::UnexpectedStatus { status: code, url, request, response },
        ) && code == status && url@ == request_url && request == request_json && response@
            == body,
    }
}

/// A request, ready to be sent.
#[derive(Clone, Debug, PartialEq, Eq)]
pub struct PreparedRequest {
    pub method: HttpMethod,
    pub url: String,
    pub headers: Vec<(String, String)>,
    pub body: Option<String>,
}

/// Joins pairs into a query string.
pub fn join_query(params: &Vec<(&str, &str)>) -> (query: String)
    ensures
        query@ == query_string_spec(params@),
{
    let mut query = String::new();
    let mut i: usize = 0;
    while i < params.len()
        invariant
            i <= params@.len(),
            query@ == query_string_spec(params@.take(i as int)),
        decreases params@.len() - i,
    {
        let (key, value) = params[i];
        if i > 0 {
            query.append("&");
        }
        query.append(key);
        query.append("=");
        query.append(value);
        proof {
            let next = params@.take(i + 1);
            assert(next.drop_last() =~= params@.take(i as int));
            assert(next.last() == params@[i as int]);
            assert(Seq::<char>::empty() + key@ =~= key@);
        }
        i += 1;
    }
    assert(params@.take(i as int) =~= params@);
    query
}

/// Puts the address of a call together.
pub fn full_url(
    base_url: &str,
    endpoint: &WebservicesApiEndpoint,
    query_string: Option<String>,
    token: &Option<String>,
) -> (url: String)
    ensures
        url@ == full_url_spec(
            base_url@,
            endpoint.path_spec(),
            match query_string {
                Some(query) => Some(query@),
                None => None,
            },
            match token {
                Some(token) => Some(token@),
                None => None,
            },
        ),
{
    let mut url = base_url.to_owned();
    let path = endpoint.path();
    url.append(path.as_str());
    match token {
        Some(token) => {
            url.append("?");
            match query_string {
                Some(query) => {
                    url.append(query.as_str());
                    url.append("&");
                },
                None => {},
            }
            url.append("token");
            url.append("=");
            url.append(token.as_str());
        },
        None => {},
    }
    url
}

/// The headers of every call.
pub fn json_headers() -> (headers: Vec<(String, String)>)
    ensures
        headers@.len() == 2,
        headers@[0].0@ == "Content-Type"@,
        headers@[0].1@ == json_content(),
        headers@[1].0@ == "Accept"@,
        headers@[1].1@ == json_content(),
{
    let mut headers: Vec<(String, String)> = Vec::new();
    headers.push(("Content-Type".to_owned(), "application/json".to_owned()));
    headers.push(("Accept".to_owned(), "application/json".to_owned()));
    headers
}

fn classify_status(status: u16) -> (class: StatusClass)
    ensures
        class == status_class(status),
{
    if status == 200 || status == 201 {
        StatusClass::Success
    } else if status == 500 {
        StatusClass::InternalServerError
    } else if status == 503 {
        StatusClass::ServiceUnavailable
    } else if status == 401 {
        StatusClass::Unauthorized
    } else if status == 400 {
        StatusClass::BadRequest
    } else {
        StatusClass::Unexpected
    }
}

/// Turns a response of the given class into a result.
pub fn respond(
    class: StatusClass,
    status: u16,
    body: String,
    request_json: Option<String>,
    request_url: &str,
) -> (r: Result<String, RestError>)
    ensures
        response_matches(class, r, status, body@, request_json, request_url@),
{
    match class {
        StatusClass::Success => Ok(body),
        StatusClass::InternalServerError => Err(
            RestError::InternalServerError { url: request_url.to_owned() },
        ),
        StatusClass::ServiceUnavailable => Err(
            RestError::ServiceUnavailable { url: request_url.to_owned() },
        ),
        StatusClass::Unauthorized => Err(RestError::Unauthorized { url: request_url.to_owned() }),
        StatusClass::BadRequest => Err(
            RestError::BadRequest {
                url: request_url.to_owned(),
                request: request_json,
                response: body,
            },
        ),
        StatusClass::Unexpected => Err(
            RestError::UnexpectedStatus {
                status,
                url: request_url.to_owned(),
                request: request_json,
                response: body,
            },
        ),
    }
}

/// Judges a response: the body where the status is 200 or 201, else the error
/// that the status stands for.
pub fn handle(status: u16, body: String, request_json: Option<String>, request_url: &str) -> (r:
    Result<String, RestError>)
    ensures
        response_matches(status_class(status), r, status, body@, request_json, request_url@),
{
    respond(classify_status(status), status, body, request_json, request_url)
}

/// A client of the web service.
#[derive(Clone, PartialEq, Eq)]
pub struct WebservicesRestClient {
    pub url: String,
    pub creds: ManagerCreds,
    pub auth_token: Option<String>,
}

impl WebservicesRestClient {
    /// A client without a token.
    pub fn new(url: String, creds: ManagerCreds) -> (client: WebservicesRestClient)
        ensures
            client.url == url,
            client.creds == creds,
            client.auth_token is None,
    {
        WebservicesRestClient { url, creds, auth_token: None }
    }

    /// The request for a token, given the digest of the password.
    pub fn create_token(&self, hashed_password: String) -> (request:
        CreateCtraderManagerTokenRequest)
        ensures
            request.login == self.creds.login,
            request.hashed_password == hashed_password,
    {
        CreateCtraderManagerTokenRequest { login: self.creds.login, hashed_password }
    }

    /// Keeps the token of a token response for the calls to come.
    pub fn authorize(&mut self, response: CreateCtraderManagerTokenResponse)
        ensures
            final(self).auth_token == Some(response.token),
            final(self).url == old(self).url,
            final(self).creds == old(self).creds,
    {
        self.auth_token = Some(response.token);
    }

    /// The headers of every call.
    pub fn build_headers(&self) -> (headers: Vec<(String, String)>)
        ensures
            headers@.len() == 2,
            headers@[0].0@ == "Content-Type"@,
            headers@[0].1@ == json_content(),
            headers@[1].0@ == "Accept"@,
            headers@[1].1@ == json_content(),
    {
        json_headers()
    }

    /// Joins pairs into a query string.
    pub fn build_query_string(&self, params: Vec<(&str, &str)>) -> (query: String)
        ensures
            query@ == query_string_spec(params@),
    {
        join_query(&params)
    }

    /// The address of a call to `endpoint`.
    pub fn build_full_url(&self, endpoint: &WebservicesApiEndpoint, query_string: Option<String>) -> (url:
        String)
        ensures
            url@ == full_url_spec(
                self.url@,
                endpoint.path_spec(),
                match query_string {
                    Some(query) => Some(query@),
                    None => None,
                },
                match self.auth_token {
                    Some(token) => Some(token@),
                    None => None,
                },
            ),
    {
        full_url(self.url.as_str(), endpoint, query_string, &self.auth_token)
    }

    /// Prepares a call: verb, address, headers and body. The query string
    /// goes into the address of a `GET` only; the body goes with every
    /// call that has one.
    pub fn send(
        &self,
        endpoint: &WebservicesApiEndpoint,
        query_string: String,
        request_json: Option<String>,
    ) -> (request: PreparedRequest)
        ensures
            request.method == endpoint.method_spec(),
            request.url@ == full_url_spec(
                self.url@,
                endpoint.path_spec(),
                if endpoint.method_spec() is Get {
                    Some(query_string@)
                } else {
                    None
                },
                match self.auth_token {
                    Some(token) => Some(token@),
                    None => None,
                },
            ),
            request.body == request_json,
            request.headers@.len() == 2,
            request.headers@[0].0@ == "Content-Type"@,
            request.headers@[0].1@ == json_content(),
            request.headers@[1].0@ == "Accept"@,
            request.headers@[1].1@ == json_content(),
    {
        let headers = self.build_headers();
        let method = endpoint.get_http_method();
        let url = if method.takes_query() {
            self.build_full_url(endpoint, Some(query_string))
        } else {
            self.build_full_url(endpoint, None)
        };
        PreparedRequest { method, url, headers, body: request_json }
    }
}

} // verus!
