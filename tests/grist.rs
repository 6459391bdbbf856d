use timeclock_kiosk::config::RemoteConfig;
use timeclock_kiosk::grist::{
    decode_outcome, hours_request, hours_request_at, read_outcome, record_request, scan_record_request,
    status_is_success, todays_hours_request, workers_request, write_outcome, HttpMethod, HttpResponse,
};

fn config() -> RemoteConfig {
    RemoteConfig {
        api_key: "k3y".to_string(),
        base_url: "https://grist.example".to_string(),
        document_id: "doc42".to_string(),
    }
}

fn reply(status: u16, body: &str) -> Result<HttpResponse, String> {
    Ok(HttpResponse { status, body: Ok(body.to_string()) })
}

#[test]
fn workers_request_is_fixed_query() {
    let r = workers_request(&config());
    assert_eq!(r.method, HttpMethod::Get);
    assert_eq!(
        r.url,
        "https://grist.example/api/docs/doc42/sql?q=SELECT%20*%20FROM%20Workers%20%20WHERE%20start_date%20%3E%20end_date%20OR%20end_date%20IS%20NULL"
    );
    assert_eq!(r.authorization, "Bearer k3y");
    assert_eq!(r.body, None);
}

#[test]
fn workers_query_is_the_same_on_every_call() {
    let a = workers_request(&config());
    let b = workers_request(&config());
    assert_eq!(a.url, b.url);
    let other = RemoteConfig {
        api_key: "x".to_string(),
        base_url: "http://h".to_string(),
        document_id: "d".to_string(),
    };
    let c = workers_request(&other);
    let qa = a.url.split_once("/sql?q=").unwrap().1.to_string();
    let qc = c.url.split_once("/sql?q=").unwrap().1.to_string();
    assert_eq!(qa, qc);
}

#[test]
fn hours_request_covers_inclusive_range() {
    let r = hours_request(&config(), 1699920000, 1700006399);
    assert_eq!(r.method, HttpMethod::Get);
    assert_eq!(
        r.url,
        "https://grist.example/api/docs/doc42/sql?q=SELECT%20*%20FROM%20TimeclockHours%20WHERE%20scan_datetime%20%3E%3D%201699920000%20AND%20scan_datetime%20%3C%3D%201700006399"
    );
    assert_eq!(r.authorization, "Bearer k3y");
}

#[test]
fn hours_request_at_uses_utc_day_of_instant() {
    let r = hours_request_at(&config(), 1700000000).unwrap();
    assert!(r.url.ends_with("%3E%3D%201699920000%20AND%20scan_datetime%20%3C%3D%201700006399"));
    let midnight = hours_request_at(&config(), 1699920000).unwrap();
    assert_eq!(midnight.url, r.url);
    let last = hours_request_at(&config(), 1700006399).unwrap();
    assert_eq!(last.url, r.url);
}

#[test]
fn hours_request_at_before_epoch() {
    let r = hours_request_at(&config(), -1).unwrap();
    assert!(r.url.ends_with("%3E%3D%20-86400%20AND%20scan_datetime%20%3C%3D%20-1"));
}

#[test]
fn hours_request_at_refuses_unrepresentable_days() {
    assert!(hours_request_at(&config(), i64::MAX).is_none());
    assert!(hours_request_at(&config(), i64::MIN).is_none());
}

#[test]
fn todays_hours_request_covers_one_day() {
    let r = todays_hours_request(&config());
    let q = r.url.split_once("%3E%3D%20").unwrap().1;
    let (start, end) = q.split_once("%20AND%20scan_datetime%20%3C%3D%20").unwrap();
    let start: i64 = start.parse().unwrap();
    let end: i64 = end.parse().unwrap();
    assert_eq!(start % 86400, 0);
    assert_eq!(end - start, 86399);
}

#[test]
fn insert_wraps_fields_in_records_envelope() {
    let r = scan_record_request(&config(), r#"{"worker_id":3,"scan_datetime":1700000000}"#).unwrap();
    assert_eq!(r.method, HttpMethod::Post);
    assert_eq!(r.url, "https://grist.example/api/docs/doc42/tables/TimeclockHours/records");
    assert_eq!(r.authorization, "Bearer k3y");
    assert_eq!(
        r.body,
        Some(r#"{"records":[{"fields":{"worker_id":3,"scan_datetime":1700000000}}]}"#.to_string())
    );
}

#[test]
fn insert_refuses_text_that_is_not_json() {
    assert!(scan_record_request(&config(), "{worker_id: 3").is_err());
    let framed = record_request(&config(), "{}");
    assert_eq!(framed.body, Some(r#"{"records":[{"fields":{}}]}"#.to_string()));
}

#[test]
fn insert_rejection_reports_body_text() {
    let r = write_outcome(reply(400, "{\"error\":\"Invalid column worker\"}"));
    assert_eq!(r, Err("Grist API returned error: {\"error\":\"Invalid column worker\"}".to_string()));
}

#[test]
fn insert_success_message() {
    assert_eq!(write_outcome(reply(200, "{\"records\":[{\"id\":9}]}")), Ok("Record successfully added to Grist.".to_string()));
}

#[test]
fn insert_transport_and_unreadable_body() {
    assert_eq!(write_outcome(Err("connection refused".to_string())), Err("Request failed: connection refused".to_string()));
    let r = write_outcome(Ok(HttpResponse { status: 502, body: Err("reset".to_string()) }));
    assert_eq!(r, Err("Grist API returned error: Unknown error".to_string()));
}

#[test]
fn read_decodes_json_body() {
    let r = read_outcome(reply(200, "{\"records\":[{\"id\":1}]}")).unwrap();
    let expected: serde_json::Value = serde_json::from_str("{\"records\":[{\"id\":1}]}").unwrap();
    assert_eq!(r, expected);
}

#[test]
fn read_reports_status() {
    assert_eq!(read_outcome(reply(404, "")), Err("Failed to fetch data: 404 Not Found".to_string()));
    assert_eq!(read_outcome(reply(300, "{}")), Err("Failed to fetch data: 300 Multiple Choices".to_string()));
    assert_eq!(read_outcome(reply(42, "{}")), Err("Failed to fetch data: 42".to_string()));
    assert!(read_outcome(reply(299, "{}")).is_ok());
}

#[test]
fn read_reports_undecodable_body() {
    let e = read_outcome(reply(200, "<html>")).unwrap_err();
    assert!(e.starts_with("error decoding response body: "));
    assert!(e.len() > "error decoding response body: ".len());
}

#[test]
fn read_passes_transport_and_body_errors_on() {
    assert_eq!(read_outcome(Err("dns failure".to_string())), Err("dns failure".to_string()));
    let r = read_outcome(Ok(HttpResponse { status: 200, body: Err("body cut".to_string()) }));
    assert_eq!(r, Err("body cut".to_string()));
}

#[test]
fn decode_outcome_prefixes_message() {
    assert_eq!(decode_outcome(Err("eof".to_string())), Err("error decoding response body: eof".to_string()));
    let v: serde_json::Value = serde_json::from_str("[1]").unwrap();
    assert_eq!(decode_outcome(Ok(v.clone())), Ok(v));
}

#[test]
fn success_statuses_are_2xx() {
    assert!(!status_is_success(199));
    assert!(status_is_success(200));
    assert!(status_is_success(299));
    assert!(!status_is_success(300));
}
