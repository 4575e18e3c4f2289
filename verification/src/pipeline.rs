//! The shared request pipeline: every endpoint builds its request here,
//! and every raw response comes back through here.
//!
//! One round trip is: build the authenticated [`Request`](crate::client::Request),
//! let the embedding application perform the GET and report a
//! [`FetchOutcome`], accept or reject that outcome, let the application
//! decode the body text into the wire struct, and finish the decode into
//! the public result. Only the network call and the JSON text decoding
//! live outside this crate; every decision is made here.

use crate::client::{pairs_view, LTAClient, Request};
use crate::decimal::{dec_str, format_u32};
use crate::errors::{LTAError, LTAResult};
use vstd::prelude::*;

verus! {

/// Name of the pagination query parameter.
pub open spec fn skip_param_name() -> Seq<char> {
    "$skip"@
}

/// The query-parameter list that an optional pagination offset produces:
/// nothing when the offset is absent, exactly one `$skip` parameter with
/// the offset in decimal when it is present.
pub open spec fn skip_query(skip: Option<u32>) -> Seq<(Seq<char>, Seq<char>)> {
    match skip {
        None => Seq::empty(),
        Some(n) => seq![(skip_param_name(), dec_str(n as nat))],
    }
}

/// Builds a request with no query parameters at all.
pub fn build_req(client: &LTAClient, url: &str) -> (r: Request)
    ensures
        r.url@ == url@,
        r.api_key@ == client.api_key@,
        r.query_pairs() == Seq::<(Seq<char>, Seq<char>)>::empty(),
{
    client.get_req_builder(url)
}

/// Builds a request and, if a pagination offset is supplied, adds it as
/// the `$skip` query parameter; an absent offset leaves the query empty.
pub fn build_req_with_skip(client: &LTAClient, url: &str, skip: Option<u32>) -> (r: Request)
    ensures
        r.url@ == url@,
        r.api_key@ == client.api_key@,
        r.query_pairs() == skip_query(skip),
{
    let mut r = client.get_req_builder(url);
    match skip {
        None => {
        },
        Some(n) => {
            let name: String = "$skip".to_owned();
            let value = format_u32(n);
            r.query.push((name, value));
            proof {
                assert(r.query_pairs() =~~= skip_query(skip));
            }
        },
    }
    r
}

/// Builds a request carrying exactly the supplied query parameters, used
/// when the parameters are not a plain pagination offset.
pub fn build_req_with_query(client: &LTAClient, url: &str, query: Vec<(String, String)>) -> (r:
    Request)
    ensures
        r.url@ == url@,
        r.api_key@ == client.api_key@,
        r.query_pairs() == pairs_view(query@),
{
    let mut r = client.get_req_builder(url);
    r.query = query;
    r
}

/// What the transport hands back for one performed request: either it
/// never got an answer, or it got a status code and a body.
#[derive(Debug, Clone, PartialEq)]
pub enum FetchOutcome {
    /// The host could not be reached or the connection failed; carries the
    /// transport's message.
    TransportFailure(String),
    /// The upstream service answered with this status code and body text.
    Response(u16, String),
}

/// Accepts a fetched outcome: a transport failure becomes
/// [`LTAError::NetworkError`], a non-success status becomes
/// [`LTAError::HttpStatusError`] with the body left untouched, and a
/// success status hands the body on for decoding.
pub fn accept_response(outcome: FetchOutcome) -> (r: LTAResult<String>)
    ensures
        match outcome {
            FetchOutcome::TransportFailure(msg) => r == Err::<String, LTAError>(
                LTAError::NetworkError(msg),
            ),
            FetchOutcome::Response(status, body) => if 200 <= status < 300 {
                r == Ok::<String, LTAError>(body)
            } else {
                r == Err::<String, LTAError>(LTAError::HttpStatusError(status, body))
            },
        },
{
    match outcome {
        FetchOutcome::TransportFailure(msg) => Err(LTAError::NetworkError(msg)),
        FetchOutcome::Response(status, body) => {
            if 200 <= status && status < 300 {
                Ok(body)
            } else {
                Err(LTAError::HttpStatusError(status, body))
            }
        },
    }
}

/// The envelope every list endpoint answers with: a single `value` field
/// holding the records.
#[derive(Debug, Clone, PartialEq)]
pub struct ResponseEnvelope<T> {
    /// The records inside the envelope.
    pub value: Vec<T>,
}

/// Finishes a decode whose wire shape is the plain envelope: a body that
/// did not match the shape becomes [`LTAError::DeserializationError`], and
/// a matching one is unwrapped to its records, none lost and none
/// invented.
pub fn complete_envelope<T>(parsed: Option<ResponseEnvelope<T>>) -> (r: LTAResult<Vec<T>>)
    ensures
        match parsed {
            None => r == Err::<Vec<T>, LTAError>(LTAError::DeserializationError),
            Some(envelope) => r matches Ok(items) && items@ == envelope.value@,
        },
{
    match parsed {
        None => Err(LTAError::DeserializationError),
        Some(envelope) => Ok(envelope.value),
    }
}

} // verus!
