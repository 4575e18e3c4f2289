//! The client that holds the API key, and the outgoing-request model.

use vstd::prelude::*;

verus! {

/// One outgoing HTTP GET, fully described: the target URL, the API key that
/// is sent as the `AccountKey` header, and the query parameters in order.
///
/// A `Request` is only a description; the embedding application turns it
/// into a real network call. By construction every `Request` carries the
/// API key, so no outgoing call can lack authentication.
#[derive(Debug, Clone, PartialEq)]
pub struct Request {
    /// Target URL of the GET.
    pub url: String,
    /// Credential sent as the `AccountKey` header.
    pub api_key: String,
    /// Query parameters, as (name, value) pairs, in the order sent.
    pub query: Vec<(String, String)>,
}

/// The character-sequence view of a list of query parameters.
pub open spec fn pairs_view(q: Seq<(String, String)>) -> Seq<(Seq<char>, Seq<char>)> {
    q.map_values(|p: (String, String)| (p.0@, p.1@))
}

impl Request {
    /// The query parameters as character sequences, the form the contracts
    /// speak of.
    pub open spec fn query_pairs(self) -> Seq<(Seq<char>, Seq<char>)> {
        pairs_view(self.query@)
    }
}

/// A handle on the upstream service: it owns the API key attached to every
/// request. It holds no mutable state, so callers may share it freely.
#[derive(Debug, Clone, PartialEq)]
pub struct LTAClient {
    /// Opaque credential string supplied by the caller.
    pub api_key: String,
}

impl LTAClient {
    /// Makes a client from an API key. Nothing is validated here: a
    /// malformed key is only detected when the upstream service rejects
    /// the request.
    pub fn with_api_key(api_key: String) -> (c: LTAClient)
        ensures
            c.api_key@ == api_key@,
    {
        LTAClient { api_key }
    }

    /// Produces a request for the given URL with the authentication header
    /// attached and no query parameters yet.
    pub fn get_req_builder(&self, url: &str) -> (r: Request)
        ensures
            r.url@ == url@,
            r.api_key@ == self.api_key@,
            r.query_pairs() == Seq::<(Seq<char>, Seq<char>)>::empty(),
    {
        let r = Request {
            url: url.to_owned(),
            api_key: self.api_key.clone(),
            query: Vec::new(),
        };
        proof {
            assert(r.query_pairs() =~= Seq::<(Seq<char>, Seq<char>)>::empty());
        }
        r
    }
}

} // verus!
