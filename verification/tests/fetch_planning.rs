use recent_tracks::fetch::{
    build_request_url, collect_display_tracks, collect_display_tracks_observed, interpret_fetch,
    plan_fetch, AbsorbedFault, FetchError, HttpOutcome,
};
use recent_tracks::wire::TransformError;

#[test]
fn no_credential_plans_no_request() {
    let mut attempted_requests = 0;
    if let Some(_url) = plan_fetch(&None, "kkyowa", 10) {
        attempted_requests += 1;
    }
    assert_eq!(attempted_requests, 0);
}

#[test]
fn empty_credential_plans_no_request() {
    assert_eq!(plan_fetch(&Some(String::new()), "kkyowa", 10), None);
}

#[test]
fn credential_plans_exact_url() {
    let url = plan_fetch(&Some("SECRET-REDACTED".to_string()), "kkyowa", 10).expect("a URL");
    assert_eq!(
        url,
        "http://ws.audioscrobbler.com/2.0/?method=user.getrecenttracks&user=kkyowa&api_key=SECRET-REDACTED&format=json&limit=10"
    );
}

#[test]
fn empty_key_is_no_credential() {
    assert_eq!(build_request_url("", "kkyowa", 10), Err(FetchError::NoCredential));
}

#[test]
fn no_response_is_transport_failure() {
    assert_eq!(interpret_fetch(HttpOutcome::NoResponse), Err(FetchError::TransportFailure));
}

#[test]
fn non_success_status_is_refused_with_its_code() {
    let outcome = HttpOutcome::Response { status: 404, body: Some("ignored".to_string()) };
    assert_eq!(interpret_fetch(outcome), Err(FetchError::HttpStatus(404)));
    let outcome = HttpOutcome::Response { status: 500, body: None };
    assert_eq!(interpret_fetch(outcome), Err(FetchError::HttpStatus(500)));
    let outcome = HttpOutcome::Response { status: 301, body: None };
    assert_eq!(interpret_fetch(outcome), Err(FetchError::HttpStatus(301)));
}

#[test]
fn unreadable_body_of_success_is_body_read_failure() {
    let outcome = HttpOutcome::Response { status: 200, body: None };
    assert_eq!(interpret_fetch(outcome), Err(FetchError::BodyReadFailure));
}

#[test]
fn readable_body_of_success_is_passed_unmodified() {
    let outcome = HttpOutcome::Response { status: 204, body: Some("raw body".to_string()) };
    assert_eq!(interpret_fetch(outcome), Ok("raw body".to_string()));
}

#[test]
fn every_fetch_error_collapses_to_empty() {
    for err in [
        FetchError::NoCredential,
        FetchError::TransportFailure,
        FetchError::HttpStatus(503),
        FetchError::BodyReadFailure,
    ] {
        assert_eq!(collect_display_tracks(Err(err)).len(), 0);
    }
}

#[test]
fn malformed_body_collapses_to_empty() {
    assert_eq!(collect_display_tracks(Ok("not json".to_string())).len(), 0);
}

#[test]
fn good_body_yields_tracks() {
    let text = r##"{"recenttracks":{"track":[
        {"artist":{"#text":"A"},"album":{"#text":"B"},"name":"C","url":"u",
         "image":[{"size":"small","#text":"https://img/s"}]}
    ]}}"##;
    let out = collect_display_tracks(Ok(text.to_string()));
    assert_eq!(out.len(), 1);
    assert_eq!(out[0].artist, "A");
    assert_eq!(out[0].image_url, "https://img/s");
    assert_eq!(out[0].time_ago, "now playing");
}

#[test]
fn observed_collapse_reports_the_fetch_fault() {
    let report = collect_display_tracks_observed(Err(FetchError::TransportFailure));
    assert_eq!(report.tracks.len(), 0);
    assert_eq!(report.fault, Some(AbsorbedFault::Fetch(FetchError::TransportFailure)));
    assert_eq!(report.skipped, 0);
    assert_eq!(
        report.fault.unwrap().description(),
        "request could not be sent"
    );
}

#[test]
fn observed_collapse_reports_a_malformed_payload() {
    let report = collect_display_tracks_observed(Ok("not json".to_string()));
    assert_eq!(report.tracks.len(), 0);
    assert_eq!(
        report.fault,
        Some(AbsorbedFault::Transform(TransformError::MalformedPayload))
    );
    assert_eq!(report.skipped, 0);
    assert_eq!(report.fault.unwrap().description(), "malformed payload");
}

#[test]
fn observed_collapse_reports_the_skip_count() {
    let text = r##"{"recenttracks":{"track":[
        {"artist":{"#text":"A"},"album":{"#text":"B"},"name":"C","url":"u","image":[]},
        {"name":"broken entry"}
    ]}}"##;
    let report = collect_display_tracks_observed(Ok(text.to_string()));
    assert_eq!(report.fault, None);
    assert_eq!(report.skipped, 1);
    assert_eq!(report.tracks.len(), 1);
    assert_eq!(report.tracks[0].name, "C");
}

#[test]
fn error_descriptions_name_the_kind() {
    assert_eq!(FetchError::NoCredential.description(), "no credential configured");
    assert_eq!(FetchError::TransportFailure.description(), "request could not be sent");
    assert_eq!(FetchError::HttpStatus(404).description(), "http status 404");
    assert_eq!(
        FetchError::BodyReadFailure.description(),
        "response body could not be read"
    );
}
