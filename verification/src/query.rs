//! The generic query builder: an endpoint name, a parameter mapping and the
//! terminal query operation.

use crate::client::Tushare;
use crate::error::TushareError;
use crate::params::spec_get;
use crate::params::ParamMap;
use crate::request::body_string;
use crate::request::spec_request_body;
use crate::response::handle_reply;
use crate::table::Table;
use vstd::prelude::*;

verus! {

/// What carries one request to the service and brings one reply back.
///
/// `post` delivers `body` to `url` and returns the reply body, or an error
/// message when the service could not be reached. The client states nothing
/// about what a transport returns: the terminal query operation holds for
/// every reply, and the decoding of a reply is pinned by
/// [`crate::response::handle_reply`].
pub trait Transport {
    /// Delivers one request body and returns the reply body.
    fn post(&mut self, url: &str, body: &str) -> Result<String, String>;
}

/// An endpoint-agnostic assembler of an endpoint name and a parameter
/// mapping; consumed once by the terminal query operation.
pub struct QueryBuilder<'a> {
    /// The client the query is issued through.
    pub tushare: &'a Tushare,
    /// The endpoint name the request is addressed to.
    pub api_name: String,
    /// The parameters sent with the request.
    pub params: ParamMap,
}

impl<'a> QueryBuilder<'a> {
    /// A builder for the named endpoint, with no parameters yet.
    pub fn new(tushare: &'a Tushare, api_name: &str) -> (r: Self)
        ensures
            r.tushare == tushare,
            r.api_name@ == api_name@,
            r.params.pairs().len() == 0,
            r.params.wf(),
    {
        QueryBuilder { tushare, api_name: api_name.to_owned(), params: ParamMap::new() }
    }

    /// Merges a parameter mapping into the builder: a key present in `dict`
    /// takes `dict`'s value, any other key keeps its value. Returns the
    /// updated builder (value semantics: no prior builder is mutated).
    pub fn params(self, dict: ParamMap) -> (r: Self)
        requires
            self.params.wf(),
            dict.wf(),
        ensures
            r.tushare == self.tushare,
            r.api_name == self.api_name,
            r.params.wf(),
            forall|k: Seq<char>|
                #[trigger] spec_get(r.params.pairs(), k) == (match spec_get(dict.pairs(), k) {
                    Some(v) => Some(v),
                    None => spec_get(self.params.pairs(), k)
                }),
            self.params.pairs().len() == 0 ==> r.params.pairs() == dict.pairs(),
    {
        let QueryBuilder { tushare, api_name, mut params } = self;
        params.merge(&dict);
        QueryBuilder { tushare, api_name, params }
    }

    /// The JSON request body this query sends: the endpoint name, the
    /// client's token and the parameter mapping.
    pub fn request_body(&self) -> (r: String)
        ensures
            r@ == spec_request_body(self.api_name@, self.tushare.token@, self.params.pairs()),
    {
        body_string(self.api_name.as_str(), self.tushare.token.as_str(), &self.params)
    }

    /// The terminal operation: serializes the query, posts it once through
    /// the transport — no retry, no caching — and decodes the reply.
    ///
    /// A transport failure comes back as [`TushareError::Transport`] with the
    /// transport's message; any reply is decoded exactly as
    /// [`crate::response::reply_outcome`] says, so a non-success reply yields
    /// [`TushareError::Service`] with the service's message, and a success
    /// reply yields the carried table or [`TushareError::Parse`].
    pub fn query<T: Transport>(self, transport: &mut T) -> (r: Result<Table, TushareError>)
        ensures
            (match r {
                Ok(t) => t@.wf(),
                Err(_) => true,
            }),
    {
        let body = self.request_body();
        match transport.post(self.tushare.api_endpoint.as_str(), body.as_str()) {
            Err(m) => Err(TushareError::Transport(m)),
            Ok(reply) => handle_reply(reply.as_str()),
        }
    }
}

} // verus!
