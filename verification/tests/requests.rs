use lta::client::LTAClient;
use lta::crowd::{get_passenger_vol_by, VolMonth, VolType};
use lta::taxi::get_taxi_avail;
use lta::traffic::{
    get_carpark_avail, get_erp_rates, get_est_travel_time, get_faulty_traffic_lights,
    get_traffic_images, get_traffic_incidents, get_traffic_speed_band, get_vms_emas,
    RoadDetailsType,
};

fn client() -> LTAClient {
    LTAClient::with_api_key("test-api-key".to_string())
}

#[test]
fn request_carries_api_key() {
    let c = client();
    let r = c.get_req_builder("http://datamall2.mytransport.sg/ltaodataservice/ERPRates");
    assert_eq!(r.api_key, "test-api-key");
    assert_eq!(r.url, "http://datamall2.mytransport.sg/ltaodataservice/ERPRates");
    assert!(r.query.is_empty());
}

#[test]
fn skip_none_omits_pagination() {
    let c = client();
    assert!(get_erp_rates(&c, None).query.is_empty());
    assert!(get_carpark_avail(&c, None).query.is_empty());
    assert!(get_est_travel_time(&c, None).query.is_empty());
    assert!(get_faulty_traffic_lights(&c, None).query.is_empty());
    assert!(get_traffic_images(&c, None).query.is_empty());
    assert!(get_traffic_incidents(&c, None).query.is_empty());
    assert!(get_traffic_speed_band(&c, None).query.is_empty());
    assert!(get_vms_emas(&c, None).query.is_empty());
}

#[test]
fn skip_some_adds_pagination() {
    let c = client();
    let r = get_erp_rates(&c, Some(500));
    assert_eq!(r.query.len(), 1);
    assert_eq!(r.query[0].0, "$skip");
    assert_eq!(r.query[0].1, "500");
    let r = get_vms_emas(&c, Some(0));
    assert_eq!(r.query, vec![("$skip".to_string(), "0".to_string())]);
    let r = get_traffic_images(&c, Some(u32::MAX));
    assert_eq!(r.query, vec![("$skip".to_string(), "4294967295".to_string())]);
}

#[test]
fn endpoint_urls() {
    let c = client();
    let base = "http://datamall2.mytransport.sg/ltaodataservice";
    assert_eq!(get_erp_rates(&c, None).url, format!("{}/ERPRates", base));
    assert_eq!(get_carpark_avail(&c, None).url, format!("{}/CarParkAvailabilityv2", base));
    assert_eq!(get_est_travel_time(&c, None).url, format!("{}/EstTravelTimes", base));
    assert_eq!(get_faulty_traffic_lights(&c, None).url, format!("{}/FaultyTrafficLights", base));
    assert_eq!(get_traffic_images(&c, None).url, format!("{}/Traffic-Imagesv2", base));
    assert_eq!(get_traffic_incidents(&c, None).url, format!("{}/TrafficIncidents", base));
    assert_eq!(get_traffic_speed_band(&c, None).url, format!("{}/TrafficSpeedBandsv2", base));
    assert_eq!(get_vms_emas(&c, None).url, format!("{}/VMS", base));
    assert_eq!(get_taxi_avail(&c).url, format!("{}/Taxi-Availability", base));
}

#[test]
fn get_road_details() {
    let c = client();
    let r = lta::traffic::get_road_details(&c, RoadDetailsType::RoadWorks, None);
    assert_eq!(r.url, "http://datamall2.mytransport.sg/ltaodataservice/RoadWorks");
    assert!(r.query.is_empty());
}

#[test]
fn road_details_urls_by_variant() {
    let c = client();
    let opening = lta::traffic::get_road_details(&c, RoadDetailsType::RoadOpening, Some(7));
    assert_eq!(opening.url, "http://datamall2.mytransport.sg/ltaodataservice/RoadOpenings");
    assert_eq!(opening.query, vec![("$skip".to_string(), "7".to_string())]);
    let works = lta::traffic::get_road_details(&c, RoadDetailsType::RoadWorks, Some(7));
    assert_eq!(works.url, "http://datamall2.mytransport.sg/ltaodataservice/RoadWorks");
    assert_eq!(works.query, vec![("$skip".to_string(), "7".to_string())]);
}

#[test]
fn get_bike_parking() {
    let c = client();
    let r = lta::traffic::get_bike_parking(
        &c,
        "1.364897".to_string(),
        "103.766094".to_string(),
        Some("15.0".to_string()),
    );
    assert_eq!(r.url, "http://datamall2.mytransport.sg/ltaodataservice/BicycleParkingv2");
    assert_eq!(
        r.query,
        vec![
            ("Lat".to_string(), "1.364897".to_string()),
            ("Long".to_string(), "103.766094".to_string()),
            ("Dist".to_string(), "15.0".to_string()),
        ]
    );
}

#[test]
fn bike_parking_dist_defaults() {
    let c = client();
    let r = lta::traffic::get_bike_parking(&c, "1.364897".to_string(), "103.766094".to_string(), None);
    assert_eq!(r.query[2], ("Dist".to_string(), "0.5".to_string()));
    assert_eq!(r.api_key, "test-api-key");
}

#[test]
fn passenger_vol_urls_by_mode() {
    let c = client();
    let base = "http://datamall2.mytransport.sg/ltaodataservice/PV";
    assert_eq!(
        get_passenger_vol_by(&c, VolType::BusStops, None, None).url,
        format!("{}/Bus", base)
    );
    assert_eq!(
        get_passenger_vol_by(&c, VolType::OdBusStop, None, None).url,
        format!("{}/ODBus", base)
    );
    assert_eq!(get_passenger_vol_by(&c, VolType::Train, None, None).url, format!("{}/Train", base));
    assert_eq!(
        get_passenger_vol_by(&c, VolType::OdTrain, None, None).url,
        format!("{}/ODTrain", base)
    );
}

#[test]
fn passenger_vol_date_replaces_skip() {
    let c = client();
    let month = VolMonth::new(2019, 7).unwrap();
    // the date filter wins even when a pagination offset is supplied too
    let r = get_passenger_vol_by(&c, VolType::OdBusStop, Some(month), Some(500));
    assert_eq!(r.query, vec![("Date".to_string(), "201907".to_string())]);
}

#[test]
fn passenger_vol_without_date_paginates() {
    let c = client();
    let r = get_passenger_vol_by(&c, VolType::Train, None, Some(500));
    assert_eq!(r.query, vec![("$skip".to_string(), "500".to_string())]);
    let r = get_passenger_vol_by(&c, VolType::Train, None, None);
    assert!(r.query.is_empty());
}

#[test]
fn month_code_is_zero_padded() {
    let c = client();
    let month = VolMonth::new(800, 11).unwrap();
    let r = get_passenger_vol_by(&c, VolType::BusStops, Some(month), None);
    assert_eq!(r.query, vec![("Date".to_string(), "080011".to_string())]);
}

#[test]
fn vol_month_rejects_bad_input() {
    assert!(VolMonth::new(2019, 0).is_none());
    assert!(VolMonth::new(2019, 13).is_none());
    assert!(VolMonth::new(10000, 6).is_none());
    let m = VolMonth::new(9999, 12).unwrap();
    assert_eq!((m.year, m.month), (9999, 12));
}
