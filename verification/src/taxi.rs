//! The taxi-availability endpoint and its wire and public models.

use crate::client::{LTAClient, Request};
use crate::errors::{LTAError, LTAResult};
use crate::pipeline::build_req;
use vstd::prelude::*;

verus! {

/// One coordinate pair exactly as the upstream JSON carries it, fields in
/// the provider's order and names. The coordinate values are kept as the
/// decimal text the wire holds; this crate never computes with them.
#[derive(Debug, Clone, PartialEq)]
pub struct InternalCoordinates {
    /// Longitude, decimal text.
    pub long: String,
    /// Latitude, decimal text.
    pub lat: String,
}

/// One coordinate pair as callers see it.
#[derive(Debug, Clone, PartialEq)]
pub struct Coordinates {
    /// Latitude, decimal text.
    pub lat: String,
    /// Longitude, decimal text.
    pub long: String,
}

/// The whole taxi-availability response: an envelope with one `value`
/// field holding the coordinates.
#[derive(Debug, Clone, PartialEq)]
pub struct TaxiAvailResp {
    /// The records inside the envelope.
    pub value: Vec<InternalCoordinates>,
}

impl InternalCoordinates {
    /// Converts one wire coordinate pair into the public one: the same
    /// two values, under their idiomatic names.
    pub fn into_coordinates(self) -> (r: Coordinates)
        ensures
            r.lat@ == self.lat@,
            r.long@ == self.long@,
    {
        Coordinates { lat: self.lat, long: self.long }
    }
}

impl TaxiAvailResp {
    /// Converts the wire response into the bare list of coordinates:
    /// one public pair per wire pair, in order, none lost and none
    /// invented.
    pub fn into_coordinates(self) -> (r: Vec<Coordinates>)
        ensures
            r@.len() == self.value@.len(),
            forall|i: int|
                0 <= i < r@.len() ==> #[trigger] r@[i].lat@ == self.value@[i].lat@ && r@[i].long@
                    == self.value@[i].long@,
    {
        let mut out: Vec<Coordinates> = Vec::new();
        let mut i: usize = 0;
        while i < self.value.len()
            invariant
                i <= self.value@.len(),
                out@.len() == i,
                forall|k: int|
                    0 <= k < i ==> #[trigger] out@[k].lat@ == self.value@[k].lat@
                        && out@[k].long@ == self.value@[k].long@,
            decreases self.value@.len() - i,
        {
            let pair = Coordinates {
                lat: self.value[i].lat.clone(),
                long: self.value[i].long.clone(),
            };
            proof {
                assert(pair.lat@ == self.value@[i as int].lat@);
                assert(pair.long@ == self.value@[i as int].long@);
            }
            out.push(pair);
            proof {
                assert(out@[i as int].lat@ == self.value@[i as int].lat@);
            }
            i = i + 1;
        }
        out
    }
}

/// Finishes a taxi-availability decode: a body that did not match the
/// wire shape becomes [`LTAError::DeserializationError`]; a matching one
/// is converted into the public coordinate list, one pair per record.
pub fn complete_taxi_avail(parsed: Option<TaxiAvailResp>) -> (r: LTAResult<Vec<Coordinates>>)
    ensures
        match parsed {
            None => r == Err::<Vec<Coordinates>, LTAError>(LTAError::DeserializationError),
            Some(resp) => r matches Ok(coords) && coords@.len() == resp.value@.len() && forall|
                i: int,
            |
                0 <= i < coords@.len() ==> #[trigger] coords@[i].lat@ == resp.value@[i].lat@
                    && coords@[i].long@ == resp.value@[i].long@,
        },
{
    match parsed {
        None => Err(LTAError::DeserializationError),
        Some(resp) => Ok(resp.into_coordinates()),
    }
}

/// Location coordinates of all taxis currently available for hire;
/// "Hired" and "Busy" taxis are not included.
///
/// **Update freq**: 1 min
pub fn get_taxi_avail(client: &LTAClient) -> (r: Request)
    ensures
        r.url@ == "http://datamall2.mytransport.sg/ltaodataservice/Taxi-Availability"@,
        r.api_key@ == client.api_key@,
        r.query_pairs() == Seq::<(Seq<char>, Seq<char>)>::empty(),
{
    build_req(client, "http://datamall2.mytransport.sg/ltaodataservice/Taxi-Availability")
}

} // verus!
