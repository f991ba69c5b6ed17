//! The HTTP surface: which method and path reach which endpoint.

use vstd::prelude::*;

verus! {

/// The prefix under which every endpoint stands.
pub const SCOPE: &'static str = "/api";

/// Path of the health check, below the prefix.
pub const HEALTH_CHECKER_PATH: &'static str = "/healthchecker";

/// Path of the list, below the prefix.
pub const MENSAGEM_LIST_PATH: &'static str = "/mensagem";

/// Path of the creation, below the prefix.
pub const CREATE_MENSAGEM_PATH: &'static str = "/mensagem/";

/// Path of the get-by-id, below the prefix; `{id}` stands for the identifier.
pub const GET_MENSAGEM_PATH: &'static str = "/mensagem/{id}";

/// The request methods that the service answers.
#[derive(Clone, Copy, Debug, PartialEq, Eq)]
pub enum Method {
    Get,
    Post,
}

/// The endpoints of the service.
#[derive(Clone, Copy, Debug, PartialEq, Eq)]
pub enum Endpoint {
    HealthChecker,
    MensagemList,
    CreateMensagem,
    GetMensagem,
}

impl Endpoint {
    /// The method that reaches the endpoint.
    pub open spec fn method_of(self) -> Method {
        match self {
            Endpoint::CreateMensagem => Method::Post,
            _ => Method::Get,
        }
    }

    /// The path that reaches the endpoint, below the prefix.
    pub open spec fn path_of(self) -> Seq<char> {
        match self {
            Endpoint::HealthChecker => HEALTH_CHECKER_PATH@,
            Endpoint::MensagemList => MENSAGEM_LIST_PATH@,
            Endpoint::CreateMensagem => CREATE_MENSAGEM_PATH@,
            Endpoint::GetMensagem => GET_MENSAGEM_PATH@,
        }
    }

    /// The method that reaches the endpoint.
    pub fn method(&self) -> (method: Method)
        ensures
            method == self.method_of(),
    {
        match self {
            Endpoint::CreateMensagem => Method::Post,
            _ => Method::Get,
        }
    }

    /// The path that reaches the endpoint, below the prefix.
    pub fn path(&self) -> (path: &'static str)
        ensures
            path@ == self.path_of(),
    {
        match self {
            Endpoint::HealthChecker => HEALTH_CHECKER_PATH,
            Endpoint::MensagemList => MENSAGEM_LIST_PATH,
            Endpoint::CreateMensagem => CREATE_MENSAGEM_PATH,
            Endpoint::GetMensagem => GET_MENSAGEM_PATH,
        }
    }
}

} // verus!
