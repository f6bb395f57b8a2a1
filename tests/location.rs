use adot::{
    decode_payload, decode_response, location_request_url, resolve_location_config, resolve_store_config,
    AdotError, EnvVar, GeoField, LocationRecord, LocationRefresh, RefreshAction, RefreshEvent, RefreshPhase,
    LATEST_DOCUMENT, LOCATION_COLLECTION,
};

const AUSTIN: &str = r#"{"city":"Austin","region":"Texas","country":"US","timezone":"America/Chicago"}"#;
const STAMP: &str = "2026-10-19T12:00:00+00:00";

fn some(s: &str) -> Option<String> {
    Some(s.to_string())
}

fn austin_record() -> LocationRecord {
    LocationRecord {
        city: "Austin".to_string(),
        region: "Texas".to_string(),
        country: "US".to_string(),
        timezone: "America/Chicago".to_string(),
        observed_at: STAMP.to_string(),
    }
}

fn started() -> LocationRefresh {
    let (m, a) = LocationRefresh::start(STAMP.to_string(), some("proj"), some("/creds.json"), some("tok")).unwrap();
    assert_eq!(a, RefreshAction::DeletePrevious);
    m
}

#[test]
fn env_var_names() {
    assert_eq!(EnvVar::ProjectId.name(), "PROJECT_ID");
    assert_eq!(EnvVar::Credentials.name(), "GOOGLE_APPLICATION_CREDENTIALS");
    assert_eq!(EnvVar::GeoToken.name(), "IPINFO_TOKEN");
}

#[test]
fn geo_field_keys() {
    assert_eq!(GeoField::City.key(), "city");
    assert_eq!(GeoField::Region.key(), "region");
    assert_eq!(GeoField::Country.key(), "country");
    assert_eq!(GeoField::Timezone.key(), "timezone");
}

#[test]
fn store_config_names_first_missing_value() {
    assert_eq!(resolve_store_config(None, None).unwrap_err(), AdotError::MissingConfig { var: EnvVar::ProjectId });
    assert_eq!(
        resolve_store_config(some("p"), None).unwrap_err(),
        AdotError::MissingConfig { var: EnvVar::Credentials }
    );
    let c = resolve_store_config(some("p"), some("c")).unwrap();
    assert_eq!(c.project_id, "p");
    assert_eq!(c.credentials_path, "c");
}

#[test]
fn location_config_without_token_names_token() {
    let e = resolve_location_config(some("p"), some("c"), None).unwrap_err();
    assert_eq!(e, AdotError::MissingConfig { var: EnvVar::GeoToken });
    let c = resolve_location_config(some("p"), some("c"), some("t")).unwrap();
    assert_eq!(c.geo_token, "t");
    assert_eq!(c.store.project_id, "p");
}

#[test]
fn refresh_without_token_fails_before_any_request() {
    let r = LocationRefresh::start(STAMP.to_string(), some("p"), some("c"), None);
    assert_eq!(r.unwrap_err(), AdotError::MissingConfig { var: EnvVar::GeoToken });
    let r = LocationRefresh::begin(None, some("c"), some("t"));
    assert_eq!(r.unwrap_err(), AdotError::MissingConfig { var: EnvVar::ProjectId });
}

#[test]
fn request_url_carries_token() {
    assert_eq!(location_request_url("abc123"), "https://ipinfo.io/json?token=abc123");
}

#[test]
fn austin_payload_decodes_verbatim() {
    let r = decode_response(200, AUSTIN.to_string(), STAMP.to_string()).unwrap();
    assert_eq!(r, austin_record());
}

#[test]
fn payload_with_extra_members_decodes() {
    let body = r#"{"ip":"1.2.3.4","city":"Oslo","region":"Oslo","country":"NO","loc":"59.9,10.7","timezone":"Europe/Oslo"}"#;
    let r = decode_payload(body, "t".to_string()).unwrap();
    assert_eq!(r.city, "Oslo");
    assert_eq!(r.country, "NO");
    assert_eq!(r.timezone, "Europe/Oslo");
    assert_eq!(r.observed_at, "t");
}

#[test]
fn missing_field_is_named() {
    let cases = [
        (r#"{"region":"Texas","country":"US","timezone":"America/Chicago"}"#, GeoField::City),
        (r#"{"city":"Austin","country":"US","timezone":"America/Chicago"}"#, GeoField::Region),
        (r#"{"city":"Austin","region":"Texas","timezone":"America/Chicago"}"#, GeoField::Country),
        (r#"{"city":"Austin","region":"Texas","country":"US"}"#, GeoField::Timezone),
    ];
    for (body, field) in cases {
        let e = decode_response(200, body.to_string(), STAMP.to_string()).unwrap_err();
        assert_eq!(e, AdotError::MissingField { field });
    }
}

#[test]
fn first_missing_field_wins() {
    let e = decode_payload(r#"{"country":"US"}"#, STAMP.to_string()).unwrap_err();
    assert_eq!(e, AdotError::MissingField { field: GeoField::City });
}

#[test]
fn non_string_field_counts_as_missing() {
    let body = r#"{"city":"Austin","region":7,"country":"US","timezone":"America/Chicago"}"#;
    let e = decode_payload(body, STAMP.to_string()).unwrap_err();
    assert_eq!(e, AdotError::MissingField { field: GeoField::Region });
}

#[test]
fn non_json_payload_is_malformed() {
    let e = decode_response(200, "<html>oops</html>".to_string(), STAMP.to_string()).unwrap_err();
    assert_eq!(e, AdotError::MalformedPayload);
    let e = decode_payload("", STAMP.to_string()).unwrap_err();
    assert_eq!(e, AdotError::MalformedPayload);
}

#[test]
fn error_status_carries_status_and_body() {
    let e = decode_response(429, "Too Many Requests".to_string(), STAMP.to_string()).unwrap_err();
    assert_eq!(e, AdotError::RemoteApi { status: 429, body: "Too Many Requests".to_string() });
    let e = decode_response(199, AUSTIN.to_string(), STAMP.to_string()).unwrap_err();
    assert_eq!(e, AdotError::RemoteApi { status: 199, body: AUSTIN.to_string() });
    let e = decode_response(300, AUSTIN.to_string(), STAMP.to_string()).unwrap_err();
    assert_eq!(e, AdotError::RemoteApi { status: 300, body: AUSTIN.to_string() });
    assert!(decode_response(299, AUSTIN.to_string(), STAMP.to_string()).is_ok());
}

#[test]
fn refresh_runs_delete_fetch_insert() {
    let mut m = started();
    assert_eq!(m.phase, RefreshPhase::Deleting);
    let a = m.step(RefreshEvent::DeleteCompleted { succeeded: true });
    assert_eq!(a, RefreshAction::Fetch { url: "https://ipinfo.io/json?token=tok".to_string() });
    let a = m.step(RefreshEvent::FetchCompleted { status: 200, body: AUSTIN.to_string() });
    assert_eq!(a, RefreshAction::Insert { record: austin_record() });
    assert_eq!(m.phase, RefreshPhase::Inserting);
    let a = m.step(RefreshEvent::InsertCompleted { stored: austin_record() });
    assert_eq!(a, RefreshAction::Finish { outcome: Ok(austin_record()) });
    assert_eq!(m.phase, RefreshPhase::Finished);
    assert_eq!(LOCATION_COLLECTION, "location");
    assert_eq!(LATEST_DOCUMENT, "latest");
}

#[test]
fn failed_delete_still_fetches() {
    let mut m = started();
    let a = m.step(RefreshEvent::DeleteCompleted { succeeded: false });
    assert_eq!(a, RefreshAction::Fetch { url: "https://ipinfo.io/json?token=tok".to_string() });
    assert_eq!(m.phase, RefreshPhase::Fetching);
}

#[test]
fn rate_limited_fetch_finishes_without_write() {
    let mut m = started();
    m.step(RefreshEvent::DeleteCompleted { succeeded: true });
    let a = m.step(RefreshEvent::FetchCompleted { status: 429, body: "slow down".to_string() });
    assert_eq!(
        a,
        RefreshAction::Finish { outcome: Err(AdotError::RemoteApi { status: 429, body: "slow down".to_string() }) }
    );
    assert_eq!(m.phase, RefreshPhase::Finished);
    assert!(!m.accepts(&RefreshEvent::InsertCompleted { stored: austin_record() }));
    assert!(!m.accepts(&RefreshEvent::DeleteCompleted { succeeded: true }));
}

#[test]
fn missing_field_finishes_without_write() {
    let mut m = started();
    m.step(RefreshEvent::DeleteCompleted { succeeded: true });
    let a = m.step(RefreshEvent::FetchCompleted { status: 200, body: r#"{"city":"Austin"}"#.to_string() });
    assert_eq!(a, RefreshAction::Finish { outcome: Err(AdotError::MissingField { field: GeoField::Region }) });
    assert_eq!(m.phase, RefreshPhase::Finished);
}

#[test]
fn transport_and_store_failures_are_reported() {
    let mut m = started();
    m.step(RefreshEvent::DeleteCompleted { succeeded: true });
    let a = m.step(RefreshEvent::FetchFailed { message: "dns".to_string() });
    assert_eq!(a, RefreshAction::Finish { outcome: Err(AdotError::Transport { message: "dns".to_string() }) });

    let mut m = started();
    m.step(RefreshEvent::DeleteCompleted { succeeded: true });
    m.step(RefreshEvent::FetchCompleted { status: 200, body: AUSTIN.to_string() });
    let a = m.step(RefreshEvent::InsertFailed { message: "denied".to_string() });
    assert_eq!(a, RefreshAction::Finish { outcome: Err(AdotError::Store { message: "denied".to_string() }) });
}

#[test]
fn accepts_only_the_awaited_event() {
    let m = started();
    assert!(m.accepts(&RefreshEvent::DeleteCompleted { succeeded: false }));
    assert!(!m.accepts(&RefreshEvent::FetchCompleted { status: 200, body: String::new() }));
    assert!(!m.accepts(&RefreshEvent::InsertFailed { message: String::new() }));
}

#[test]
fn begin_stamps_current_utc_time() {
    let (m, a) = LocationRefresh::begin(some("p"), some("c"), some("t")).unwrap();
    assert_eq!(a, RefreshAction::DeletePrevious);
    assert!(m.observed_at.ends_with("+00:00"));
    assert!(m.observed_at.len() >= 25);
    assert_eq!(&m.observed_at[10..11], "T");
    assert_eq!(m.config.geo_token, "t");
}
