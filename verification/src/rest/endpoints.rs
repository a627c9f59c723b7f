//! The operations of the web service: where each lives and how it is called.

use vstd::prelude::*;
use vstd::string::StringExecFns;

verus! {

/// The verbs the web service is called with.
#[derive(Clone, Copy, Debug, PartialEq, Eq, Structural)]
pub enum HttpMethod {
    Get,
    Post,
    Put,
    Patch,
    Delete,
}

/// An operation of the web service.
#[derive(Clone, Debug, PartialEq, Eq)]
pub enum WebservicesApiEndpoint {
    CreateManagerToken,
    CreateCtid,
    CreateTrader,
    LinkCtid,
    /// Changes a trader entity. Holds the trader's login.
    UpdateTrader(String),
    /// Changes the balance of a trader entity, credit included. Holds the
    /// trader's login.
    UpdateTraderBalance(String),
}

impl HttpMethod {
    /// The verb as it stands in a request line.
    pub open spec fn name(self) -> Seq<char> {
        match self {
            HttpMethod::Get => "GET"@,
            HttpMethod::Post => "POST"@,
            HttpMethod::Put => "PUT"@,
            HttpMethod::Patch => "PATCH"@,
            HttpMethod::Delete => "DELETE"@,
        }
    }

    /// Whether a request with this verb carries a body.
    pub open spec fn has_body(self) -> bool {
        self is Post || self is Put || self is Patch
    }

    /// Whether the parameters of a request with this verb go into the
    /// address.
    pub fn takes_query(self) -> (yes: bool)
        ensures
            yes == self is Get,
    {
        match self {
            HttpMethod::Get => true,
            _ => false,
        }
    }

    pub fn as_str(self) -> (name: &'static str)
        ensures
            name@ == self.name(),
    {
        match self {
            HttpMethod::Get => "GET",
            HttpMethod::Post => "POST",
            HttpMethod::Put => "PUT",
            HttpMethod::Patch => "PATCH",
            HttpMethod::Delete => "DELETE",
        }
    }

    pub fn carries_body(self) -> (yes: bool)
        ensures
            yes == self.has_body(),
    {
        match self {
            HttpMethod::Post => true,
            HttpMethod::Put => true,
            HttpMethod::Patch => true,
            _ => false,
        }
    }
}

impl WebservicesApiEndpoint {
    /// The path of the operation below the service's base address.
    pub open spec fn path_spec(self) -> Seq<char> {
        match self {
            WebservicesApiEndpoint::CreateManagerToken => "/v2/webserv/managers/token"@,
            WebservicesApiEndpoint::CreateCtid => "/cid/ctid/create"@,
            WebservicesApiEndpoint::CreateTrader => "/v2/webserv/traders"@,
            WebservicesApiEndpoint::LinkCtid => "/cid/ctid/link"@,
            WebservicesApiEndpoint::UpdateTrader(login) => "/v2/webserv/traders/"@ + login@,
            WebservicesApiEndpoint::UpdateTraderBalance(login) => "/v2/webserv/traders/"@
                + login@ + "/changebalance"@,
        }
    }

    /// The verb the operation is called with.
    pub open spec fn method_spec(self) -> HttpMethod {
        match self {
            WebservicesApiEndpoint::UpdateTrader(_) => HttpMethod::Patch,
            _ => HttpMethod::Post,
        }
    }

    /// The path of the operation below the service's base address.
    pub fn path(&self) -> (path: String)
        ensures
            path@ == self.path_spec(),
    {
        match self {
            WebservicesApiEndpoint::CreateManagerToken => "/v2/webserv/managers/token".to_owned(),
            WebservicesApiEndpoint::CreateCtid => "/cid/ctid/create".to_owned(),
            WebservicesApiEndpoint::CreateTrader => "/v2/webserv/traders".to_owned(),
            WebservicesApiEndpoint::LinkCtid => "/cid/ctid/link".to_owned(),
            WebservicesApiEndpoint::UpdateTrader(login) => {
                let mut path = "/v2/webserv/traders/".to_owned();
                path.append(login.as_str());
                path
            },
            WebservicesApiEndpoint::UpdateTraderBalance(login) => {
                let mut path = "/v2/webserv/traders/".to_owned();
                path.append(login.as_str());
                path.append("/changebalance");
                path
            },
        }
    }

    /// The verb the operation is called with.
    pub fn get_http_method(&self) -> (method: HttpMethod)
        ensures
            method == self.method_spec(),
    {
        match self {
            WebservicesApiEndpoint::CreateManagerToken => HttpMethod::Post,
            WebservicesApiEndpoint::CreateCtid => HttpMethod::Post,
            WebservicesApiEndpoint::CreateTrader => HttpMethod::Post,
            WebservicesApiEndpoint::LinkCtid => HttpMethod::Post,
            WebservicesApiEndpoint::UpdateTrader(_) => HttpMethod::Patch,
            WebservicesApiEndpoint::UpdateTraderBalance(_) => HttpMethod::Post,
        }
    }
}

} // verus!
