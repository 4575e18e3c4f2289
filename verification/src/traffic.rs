//! All endpoints pertaining to traffic.
//!
//! Each function builds the fully-described request for one upstream
//! resource; the embedding application performs the GET and brings the
//! outcome back through [`crate::pipeline::accept_response`].

use crate::client::{LTAClient, Request};
use crate::pipeline::{build_req_with_query, build_req_with_skip, skip_query};
use vstd::prelude::*;

verus! {

/// Which of the two road-details resources a query targets.
#[derive(Debug, Clone, Copy, PartialEq, Eq, Structural)]
pub enum RoadDetailsType {
    /// Planned road openings.
    RoadOpening,
    /// Ongoing road works.
    RoadWorks,
}

/// The URL a road-details query targets, by variant; no other branch
/// exists.
pub open spec fn road_details_url(t: RoadDetailsType) -> Seq<char> {
    match t {
        RoadDetailsType::RoadOpening => "http://datamall2.mytransport.sg/ltaodataservice/RoadOpenings"@,
        RoadDetailsType::RoadWorks => "http://datamall2.mytransport.sg/ltaodataservice/RoadWorks"@,
    }
}

/// The radius applied to a bicycle-parking search when the caller gives
/// none.
pub open spec fn default_bike_parking_dist() -> Seq<char> {
    "0.5"@
}

/// ERP rates of all vehicle types across all timings for each zone.
///
/// **Update freq**: Ad-Hoc
pub fn get_erp_rates(client: &LTAClient, skip: Option<u32>) -> (r: Request)
    ensures
        r.url@ == "http://datamall2.mytransport.sg/ltaodataservice/ERPRates"@,
        r.api_key@ == client.api_key@,
        r.query_pairs() == skip_query(skip),
{
    build_req_with_skip(client, "http://datamall2.mytransport.sg/ltaodataservice/ERPRates", skip)
}

/// Number of available lots of HDB, LTA and URA carparks.
///
/// **Update freq**: 1 min
pub fn get_carpark_avail(client: &LTAClient, skip: Option<u32>) -> (r: Request)
    ensures
        r.url@ == "http://datamall2.mytransport.sg/ltaodataservice/CarParkAvailabilityv2"@,
        r.api_key@ == client.api_key@,
        r.query_pairs() == skip_query(skip),
{
    build_req_with_skip(
        client,
        "http://datamall2.mytransport.sg/ltaodataservice/CarParkAvailabilityv2",
        skip,
    )
}

/// Estimated travel times on expressways, in segments.
///
/// **Update freq**: 5 min
pub fn get_est_travel_time(client: &LTAClient, skip: Option<u32>) -> (r: Request)
    ensures
        r.url@ == "http://datamall2.mytransport.sg/ltaodataservice/EstTravelTimes"@,
        r.api_key@ == client.api_key@,
        r.query_pairs() == skip_query(skip),
{
    build_req_with_skip(
        client,
        "http://datamall2.mytransport.sg/ltaodataservice/EstTravelTimes",
        skip,
    )
}

/// Alerts of traffic lights that are currently faulty or under scheduled
/// maintenance.
///
/// **Update freq**: 2 min or whenever there are updates
pub fn get_faulty_traffic_lights(client: &LTAClient, skip: Option<u32>) -> (r: Request)
    ensures
        r.url@ == "http://datamall2.mytransport.sg/ltaodataservice/FaultyTrafficLights"@,
        r.api_key@ == client.api_key@,
        r.query_pairs() == skip_query(skip),
{
    build_req_with_skip(
        client,
        "http://datamall2.mytransport.sg/ltaodataservice/FaultyTrafficLights",
        skip,
    )
}

/// Planned road openings or ongoing road works, depending on the
/// [`RoadDetailsType`] supplied.
///
/// **Update freq**: 24 hours, whenever there are updates
pub fn get_road_details(client: &LTAClient, road_details_type: RoadDetailsType, skip: Option<
    u32,
>) -> (r: Request)
    ensures
        r.url@ == road_details_url(road_details_type),
        r.api_key@ == client.api_key@,
        r.query_pairs() == skip_query(skip),
{
    let url: &str = match road_details_type {
        RoadDetailsType::RoadOpening => "http://datamall2.mytransport.sg/ltaodataservice/RoadOpenings",
        RoadDetailsType::RoadWorks => "http://datamall2.mytransport.sg/ltaodataservice/RoadWorks",
    };
    build_req_with_skip(client, url, skip)
}

/// Links to images of live traffic conditions along expressways and the
/// Woodlands and Tuas checkpoints.
///
/// **Update freq**: 1 to 5 minutes
pub fn get_traffic_images(client: &LTAClient, skip: Option<u32>) -> (r: Request)
    ensures
        r.url@ == "http://datamall2.mytransport.sg/ltaodataservice/Traffic-Imagesv2"@,
        r.api_key@ == client.api_key@,
        r.query_pairs() == skip_query(skip),
{
    build_req_with_skip(
        client,
        "http://datamall2.mytransport.sg/ltaodataservice/Traffic-Imagesv2",
        skip,
    )
}

/// Incidents currently happening on the roads.
///
/// **Update freq**: 2 minutes
pub fn get_traffic_incidents(client: &LTAClient, skip: Option<u32>) -> (r: Request)
    ensures
        r.url@ == "http://datamall2.mytransport.sg/ltaodataservice/TrafficIncidents"@,
        r.api_key@ == client.api_key@,
        r.query_pairs() == skip_query(skip),
{
    build_req_with_skip(
        client,
        "http://datamall2.mytransport.sg/ltaodataservice/TrafficIncidents",
        skip,
    )
}

/// Current traffic speeds on expressways and arterial roads, expressed in
/// speed bands.
///
/// **Update freq**: 5 minutes
pub fn get_traffic_speed_band(client: &LTAClient, skip: Option<u32>) -> (r: Request)
    ensures
        r.url@ == "http://datamall2.mytransport.sg/ltaodataservice/TrafficSpeedBandsv2"@,
        r.api_key@ == client.api_key@,
        r.query_pairs() == skip_query(skip),
{
    build_req_with_skip(
        client,
        "http://datamall2.mytransport.sg/ltaodataservice/TrafficSpeedBandsv2",
        skip,
    )
}

/// Traffic advisories about current traffic conditions displayed on EMAS
/// signboards along expressways and arterial roads.
///
/// **Update freq**: 2 minutes
pub fn get_vms_emas(client: &LTAClient, skip: Option<u32>) -> (r: Request)
    ensures
        r.url@ == "http://datamall2.mytransport.sg/ltaodataservice/VMS"@,
        r.api_key@ == client.api_key@,
        r.query_pairs() == skip_query(skip),
{
    build_req_with_skip(client, "http://datamall2.mytransport.sg/ltaodataservice/VMS", skip)
}

/// Bicycle parking locations within a radius of the given point. The
/// coordinates and the radius are decimal text, exactly as they go into
/// the query; a missing radius defaults to `0.5`.
///
/// **Update freq**: Monthly
pub fn get_bike_parking(client: &LTAClient, lat: String, long: String, dist: Option<String>) -> (r:
    Request)
    ensures
        r.url@ == "http://datamall2.mytransport.sg/ltaodataservice/BicycleParkingv2"@,
        r.api_key@ == client.api_key@,
        r.query_pairs() == seq![
            ("Lat"@, lat@),
            ("Long"@, long@),
            (
                "Dist"@,
                match dist {
                    Some(d) => d@,
                    None => default_bike_parking_dist(),
                },
            ),
        ],
{
    let ghost lat_view = lat@;
    let ghost long_view = long@;
    let unwrapped_dist: String = match dist {
        Some(d) => d,
        None => "0.5".to_owned(),
    };
    let ghost dist_view = unwrapped_dist@;
    let mut query: Vec<(String, String)> = Vec::new();
    query.push(("Lat".to_owned(), lat));
    query.push(("Long".to_owned(), long));
    query.push(("Dist".to_owned(), unwrapped_dist));
    let r = build_req_with_query(
        client,
        "http://datamall2.mytransport.sg/ltaodataservice/BicycleParkingv2",
        query,
    );
    proof {
        assert(r.query_pairs() =~~= seq![
            ("Lat"@, lat_view),
            ("Long"@, long_view),
            ("Dist"@, dist_view),
        ]);
    }
    r
}

} // verus!
