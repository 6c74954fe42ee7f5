use parcel_lookup::geocode::{parse_geocoding, parse_geocoding_response, BoundingBox, GeocodeError};
use parcel_lookup::pipeline::{step, Action, Event, FetchError, PipelineError, Stage, OUTPUT_FILE};
use parcel_lookup::query::{geocode_params, geocoding_url, parcel_params, parcels_url};

const EXAMPLE: &str = r#"{"results":[{"geometry":{"viewport":{"southwest":{"lat":44.0,"lng":-73.2},"northeast":{"lat":44.1,"lng":-73.1}}}}]}"#;

fn example_box() -> BoundingBox {
    parse_geocoding_response(EXAMPLE).unwrap()
}

fn get_url(action: Action) -> String {
    match action {
        Action::Get(url) => url,
        _ => panic!("expected a request"),
    }
}

fn stop_outcome(action: Action) -> Result<(), PipelineError> {
    match action {
        Action::Stop(outcome) => outcome,
        _ => panic!("expected the run to stop"),
    }
}

#[test]
fn example_box_values_in_order() {
    let b = example_box();
    assert_eq!(b.values(), ["-73.2", "44.0", "-73.1", "44.1"].map(String::from));
    assert_eq!(b.xmin, "-73.2");
    assert_eq!(b.ymax, "44.1");
}

#[test]
fn example_geometry_parameter() {
    assert_eq!(example_box().joined(), "-73.2,44.0,-73.1,44.1");
    let params = parcel_params(&example_box());
    assert_eq!(params[2], ("geometry".to_string(), "-73.2,44.0,-73.1,44.1".to_string()));
}

#[test]
fn parse_from_serde_value() {
    let doc: serde_json::Value = serde_json::from_str(EXAMPLE).unwrap();
    let b = parse_geocoding(&doc).unwrap();
    assert_eq!(b.joined(), "-73.2,44.0,-73.1,44.1");
}

#[test]
fn integer_coordinates_keep_their_text() {
    let text = r#"{"results":[{"geometry":{"viewport":{"southwest":{"lat":44,"lng":-73},"northeast":{"lat":45,"lng":-72}}}},{"geometry":{}}]}"#;
    assert_eq!(parse_geocoding_response(text).unwrap().joined(), "-73,44,-72,45");
}

#[test]
fn empty_results_is_no_results() {
    let r = parse_geocoding_response(r#"{"results":[],"status":"ZERO_RESULTS"}"#);
    assert_eq!(r.unwrap_err(), GeocodeError::NoResults);
}

#[test]
fn error_message_is_provider_error() {
    let r = parse_geocoding_response(r#"{"error_message":"bad key","results":[]}"#);
    assert_eq!(r.unwrap_err(), GeocodeError::ProviderError);
}

#[test]
fn invalid_text_is_not_json() {
    assert_eq!(parse_geocoding_response("<html>").unwrap_err(), GeocodeError::NotJson);
    assert_eq!(parse_geocoding_response("").unwrap_err(), GeocodeError::NotJson);
}

#[test]
fn missing_fields_are_reported() {
    assert_eq!(parse_geocoding_response("{}").unwrap_err(), GeocodeError::MissingField);
    assert_eq!(parse_geocoding_response(r#"{"results":{}}"#).unwrap_err(), GeocodeError::MissingField);
    let no_viewport = r#"{"results":[{"geometry":{}}]}"#;
    assert_eq!(parse_geocoding_response(no_viewport).unwrap_err(), GeocodeError::MissingField);
    let text_lat = r#"{"results":[{"geometry":{"viewport":{"southwest":{"lat":"44.0","lng":-73.2},"northeast":{"lat":44.1,"lng":-73.1}}}}]}"#;
    assert_eq!(parse_geocoding_response(text_lat).unwrap_err(), GeocodeError::MissingField);
}

#[test]
fn geocode_query_pairs() {
    let params = geocode_params("1 Main St", "k");
    assert_eq!(params, vec![("address".to_string(), "1 Main St".to_string()), ("key".to_string(), "k".to_string())]);
}

#[test]
fn geocode_url_encodes_address() {
    let url = geocoding_url("1 Main St, Burlington", "abc").unwrap();
    assert_eq!(url, "https://maps.googleapis.com/maps/api/geocode/json?address=1+Main+St%2C+Burlington&key=abc");
}

#[test]
fn parcel_query_has_eight_fixed_pairs() {
    let names: Vec<String> = parcel_params(&example_box()).into_iter().map(|p| p.0).collect();
    assert_eq!(names, ["where", "outFields", "geometry", "geometryType", "inSR", "spatialRel", "outSR", "f"]);
    let odd = BoundingBox { xmin: "a&b".to_string(), ymin: String::new(), xmax: "=".to_string(), ymax: "x".to_string() };
    let params = parcel_params(&odd);
    assert_eq!(params.len(), 8);
    assert_eq!(params[0], ("where".to_string(), "1=1".to_string()));
    assert_eq!(params[1], ("outFields".to_string(), "*".to_string()));
    assert_eq!(params[2], ("geometry".to_string(), "a&b,,=,x".to_string()));
    assert_eq!(params[3], ("geometryType".to_string(), "esriGeometryEnvelope".to_string()));
    assert_eq!(params[4], ("inSR".to_string(), "4326".to_string()));
    assert_eq!(params[5], ("spatialRel".to_string(), "esriSpatialRelIntersects".to_string()));
    assert_eq!(params[6], ("outSR".to_string(), "4326".to_string()));
    assert_eq!(params[7], ("f".to_string(), "json".to_string()));
}

#[test]
fn parcels_url_holds_query() {
    let url = parcels_url(&example_box()).unwrap();
    assert!(url.starts_with("https://services1.arcgis.com/"));
    assert!(url.ends_with("/FeatureServer/0/query?where=1%3D1&outFields=*&geometry=-73.2%2C44.0%2C-73.1%2C44.1&geometryType=esriGeometryEnvelope&inSR=4326&spatialRel=esriSpatialRelIntersects&outSR=4326&f=json"));
}

#[test]
fn missing_key_stops_before_request() {
    let (stage, action) = step(Stage::Configure, Event::Configured { key: None, address: "1 Main St".to_string() });
    assert_eq!(stage, Stage::Finished);
    assert_eq!(stop_outcome(action), Err(PipelineError::MissingKey));
}

#[test]
fn configured_run_requests_geocode() {
    let (stage, action) = step(Stage::Configure, Event::Configured { key: Some("abc".to_string()), address: "Main".to_string() });
    assert_eq!(stage, Stage::Geocode);
    assert_eq!(get_url(action), "https://maps.googleapis.com/maps/api/geocode/json?address=Main&key=abc");
}

#[test]
fn geocode_network_failure_ends_run() {
    let (stage, action) = step(Stage::Geocode, Event::Fetched(Err(FetchError::Transport)));
    assert_eq!(stage, Stage::Finished);
    assert_eq!(stop_outcome(action), Err(PipelineError::GeocodeFetch(FetchError::Transport)));
    let (stage, action) = step(stage, Event::Fetched(Ok("{}".to_string())));
    assert_eq!(stage, Stage::Finished);
    assert_eq!(stop_outcome(action), Err(PipelineError::UnexpectedEvent));
}

#[test]
fn no_results_ends_run() {
    let (stage, action) = step(Stage::Geocode, Event::Fetched(Ok(r#"{"results":[]}"#.to_string())));
    assert_eq!(stage, Stage::Finished);
    assert_eq!(stop_outcome(action), Err(PipelineError::Geocode(GeocodeError::NoResults)));
}

#[test]
fn geocode_response_leads_to_parcel_request() {
    let (stage, action) = step(Stage::Geocode, Event::Fetched(Ok(EXAMPLE.to_string())));
    assert_eq!(stage, Stage::Parcels);
    assert!(get_url(action).contains("&geometry=-73.2%2C44.0%2C-73.1%2C44.1&"));
}

#[test]
fn parcel_body_is_written_unchanged() {
    let body = "{\"features\": [ ]}\n\u{e9}".to_string();
    let (stage, action) = step(Stage::Parcels, Event::Fetched(Ok(body.clone())));
    assert_eq!(stage, Stage::Persist);
    match action {
        Action::Write { path, contents } => {
            assert_eq!(path, OUTPUT_FILE);
            assert_eq!(path, "parcels.geojson");
            assert_eq!(contents, body);
        }
        _ => panic!("expected a write"),
    }
}

#[test]
fn parcel_failure_ends_run() {
    let (stage, action) = step(Stage::Parcels, Event::Fetched(Err(FetchError::Status)));
    assert_eq!(stage, Stage::Finished);
    assert_eq!(stop_outcome(action), Err(PipelineError::ParcelFetch(FetchError::Status)));
}

#[test]
fn write_outcome_ends_run() {
    let (stage, action) = step(Stage::Persist, Event::Written(true));
    assert_eq!(stage, Stage::Finished);
    assert_eq!(stop_outcome(action), Ok(()));
    let (_, action) = step(Stage::Persist, Event::Written(false));
    assert_eq!(stop_outcome(action), Err(PipelineError::WriteFailed));
}

#[test]
fn out_of_order_event_is_rejected() {
    let (stage, action) = step(Stage::Configure, Event::Written(true));
    assert_eq!(stage, Stage::Finished);
    assert_eq!(stop_outcome(action), Err(PipelineError::UnexpectedEvent));
}
