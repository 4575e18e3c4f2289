use lta::errors::LTAError;
use lta::pipeline::{accept_response, complete_envelope, FetchOutcome, ResponseEnvelope};
use lta::taxi::{complete_taxi_avail, InternalCoordinates, TaxiAvailResp};

#[test]
fn success_status_hands_body_on() {
    let outcome = FetchOutcome::Response(200, "{\"value\":[]}".to_string());
    assert_eq!(accept_response(outcome), Ok("{\"value\":[]}".to_string()));
    let outcome = FetchOutcome::Response(299, "x".to_string());
    assert_eq!(accept_response(outcome), Ok("x".to_string()));
}

#[test]
fn status_500_surfaces_http_status_error() {
    let outcome = FetchOutcome::Response(500, "internal error".to_string());
    assert_eq!(
        accept_response(outcome),
        Err(LTAError::HttpStatusError(500, "internal error".to_string()))
    );
}

#[test]
fn status_boundaries() {
    let below = FetchOutcome::Response(199, "b".to_string());
    assert_eq!(accept_response(below), Err(LTAError::HttpStatusError(199, "b".to_string())));
    let above = FetchOutcome::Response(300, "b".to_string());
    assert_eq!(accept_response(above), Err(LTAError::HttpStatusError(300, "b".to_string())));
}

#[test]
fn transport_failure_surfaces_network_error() {
    let outcome = FetchOutcome::TransportFailure("connection refused".to_string());
    assert_eq!(
        accept_response(outcome),
        Err(LTAError::NetworkError("connection refused".to_string()))
    );
}

#[test]
fn envelope_unwrap_is_lossless() {
    let envelope = ResponseEnvelope {
        value: vec!["a".to_string(), "b".to_string(), "c".to_string()],
    };
    let out = complete_envelope(Some(envelope)).unwrap();
    assert_eq!(out, vec!["a".to_string(), "b".to_string(), "c".to_string()]);
}

#[test]
fn mismatched_shape_is_deserialization_error() {
    assert_eq!(
        complete_envelope::<String>(None),
        Err(LTAError::DeserializationError)
    );
    assert_eq!(complete_taxi_avail(None), Err(LTAError::DeserializationError));
}

#[test]
fn taxi_conversion_keeps_every_pair() {
    let resp = TaxiAvailResp {
        value: vec![
            InternalCoordinates { long: "103.766094".to_string(), lat: "1.364897".to_string() },
            InternalCoordinates { long: "103.8".to_string(), lat: "1.29".to_string() },
        ],
    };
    let coords = resp.into_coordinates();
    assert_eq!(coords.len(), 2);
    assert_eq!(coords[0].lat, "1.364897");
    assert_eq!(coords[0].long, "103.766094");
    assert_eq!(coords[1].lat, "1.29");
    assert_eq!(coords[1].long, "103.8");
}

#[test]
fn taxi_decode_converts_on_match() {
    let resp = TaxiAvailResp {
        value: vec![InternalCoordinates { long: "103.8".to_string(), lat: "1.29".to_string() }],
    };
    let coords = complete_taxi_avail(Some(resp)).unwrap();
    assert_eq!(coords.len(), 1);
    assert_eq!(coords[0].lat, "1.29");
    assert_eq!(coords[0].long, "103.8");
}
