//! Request settings: headers, snapshots, the atomic patch, the retry
//! policy.

use fhir_sdk::client::Client;
use fhir_sdk::headers::{get_header, Header, RequestSettings, SettingsPatch};

fn header(name: &str, value: &str) -> Header {
    Header {
        name: name.to_owned(),
        value: value.to_owned(),
    }
}

#[test]
fn setting_a_header_replaces_its_value_and_keeps_the_others() {
    let settings = RequestSettings::new()
        .header("authorization".to_owned(), "Bearer one".to_owned())
        .header("accept".to_owned(), "application/fhir+json".to_owned())
        .header("authorization".to_owned(), "Bearer two".to_owned());
    assert_eq!(settings.headers.len(), 2);
    assert_eq!(
        get_header(&settings.headers, "authorization").map(String::as_str),
        Some("Bearer two")
    );
    assert_eq!(
        get_header(&settings.headers, "accept").map(String::as_str),
        Some("application/fhir+json")
    );
    assert_eq!(get_header(&settings.headers, "content-type"), None);
}

#[test]
fn a_snapshot_does_not_follow_later_changes() {
    let mut client = Client::new("http://localhost:8090/fhir/".to_owned()).expect("build");
    client.set_request_settings(
        RequestSettings::new().header("authorization".to_owned(), "Bearer old".to_owned()),
    );
    let snapshot = client.request_settings();
    client.patch_request_settings(&SettingsPatch {
        set_headers: vec![header("authorization", "Bearer new")],
        retry: None,
    });
    assert_eq!(
        get_header(&snapshot.headers, "authorization").map(String::as_str),
        Some("Bearer old")
    );
    assert_eq!(
        get_header(&client.request_settings().headers, "authorization").map(String::as_str),
        Some("Bearer new")
    );
}

#[test]
fn a_patch_applies_its_headers_in_order_and_the_last_one_wins() {
    let mut settings = RequestSettings::new().header("accept".to_owned(), "a".to_owned());
    settings.apply_patch(&SettingsPatch {
        set_headers: vec![
            header("authorization", "Bearer one"),
            header("x-extra", "yes"),
            header("authorization", "Bearer two"),
        ],
        retry: Some((4, 250)),
    });
    assert_eq!(
        get_header(&settings.headers, "authorization").map(String::as_str),
        Some("Bearer two")
    );
    assert_eq!(get_header(&settings.headers, "x-extra").map(String::as_str), Some("yes"));
    assert_eq!(get_header(&settings.headers, "accept").map(String::as_str), Some("a"));
    assert_eq!(settings.max_retries, 4);
    assert_eq!(settings.base_delay_ms, 250);
}

#[test]
fn a_patch_through_the_client_installs_its_retry_policy() {
    let mut client = Client::new("http://localhost:8090/fhir/".to_owned()).expect("build");
    client.patch_request_settings(&SettingsPatch {
        set_headers: Vec::new(),
        retry: Some((7, 40)),
    });
    assert_eq!(client.request_settings().max_retries, 7);
    assert_eq!(client.request_settings().base_delay_ms, 40);
    client.patch_request_settings(&SettingsPatch {
        set_headers: vec![header("authorization", "Bearer two")],
        retry: None,
    });
    assert_eq!(client.request_settings().max_retries, 7);
    assert_eq!(client.request_settings().base_delay_ms, 40);
}

#[test]
fn the_retry_policy_bounds_attempts_and_spaces_them_linearly() {
    let settings = RequestSettings::new().retry_policy(3, 100);
    assert!(settings.retry_allowed(0));
    assert!(settings.retry_allowed(2));
    assert!(!settings.retry_allowed(3));
    assert_eq!(settings.backoff_delay_ms(0), 100);
    assert_eq!(settings.backoff_delay_ms(2), 300);
}

#[test]
fn the_backoff_delay_saturates_instead_of_overflowing() {
    let settings = RequestSettings::new().retry_policy(u32::MAX, u64::MAX / 2);
    assert_eq!(settings.backoff_delay_ms(3), u64::MAX);
    let zero = RequestSettings::new().retry_policy(1, 0);
    assert_eq!(zero.backoff_delay_ms(9), 0);
}
