//! The client: an access token and the fixed service endpoint.

use crate::params::ParamMap;
use crate::query::QueryBuilder;
use vstd::prelude::*;
use vstd::string::StringExecFns;

verus! {

/// A struct to hold all tushare calls.
pub struct Tushare {
    /// The tushare web-api access token, sent with every call as a hidden
    /// parameter.
    pub token: String,
    /// The fixed base URL of the service.
    pub api_endpoint: String,
}

impl Tushare {
    /// The only entry point: stores the token and the fixed service
    /// endpoint. The token's format is not checked here; the remote service
    /// judges it at the first real call.
    pub fn new(token: &str) -> (r: Self)
        ensures
            r.token@ == token@,
            r.api_endpoint@ == "http://api.tushare.pro"@,
    {
        Tushare {
            token: String::from_str(token),
            api_endpoint: String::from_str("http://api.tushare.pro"),
        }
    }

    /// A generic query builder for an arbitrary endpoint name: the escape
    /// hatch for endpoints without a typed wrapper.
    pub fn query_builder<'a>(&'a self, api_name: &str) -> (r: QueryBuilder<'a>)
        ensures
            r.tushare == self,
            r.api_name@ == api_name@,
            r.params.pairs().len() == 0,
            r.params.wf(),
    {
        QueryBuilder::new(self, api_name)
    }
}

} // verus!
