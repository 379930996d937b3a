//! Client construction, URL building, revisions and operation plans.

use fhir_sdk::client::{auth_debug_label, AuthProbe, Client};
use fhir_sdk::error::Error;
use fhir_sdk::extensions::{BundleEntryRequestExt, EntryRequest};
use fhir_sdk::headers::get_header;
use fhir_sdk::operations::{
    find_resource_of_type, OperationParam, QueryValue, SubscriptionPayloadContent,
};
use fhir_sdk::request::Method;
use fhir_sdk::transaction::WireResource;
use fhir_sdk::version::FhirVersion;

fn client() -> Client {
    Client::new("http://localhost:8090/fhir/".to_owned()).expect("base URL should build")
}

#[test]
fn building_records_the_base_origin_and_the_defaults() {
    let client = client();
    assert_eq!(client.base_url().as_str(), "http://localhost:8090/fhir/");
    assert_eq!(client.base_origin.as_deref(), Some("http://localhost:8090"));
    assert_eq!(client.version, FhirVersion::R4B);
    assert!(client.enforce_origin);
    assert!(client.enforce_version);
}

#[test]
fn an_unparseable_base_url_is_refused() {
    match Client::new("not a url at all".to_owned()) {
        Err(Error::InvalidUrl(u)) => assert_eq!(u, "not a url at all"),
        other => panic!("expected the invalid-URL error, got {other:?}"),
    }
}

#[test]
fn a_base_url_that_cannot_carry_segments_is_refused() {
    assert!(matches!(
        Client::new("mailto:someone@example.com".to_owned()),
        Err(Error::InvalidUrl(_))
    ));
}

#[test]
fn url_appends_segments_under_the_base_path() {
    let client = client();
    let url = client
        .url(&vec!["Patient".to_owned(), "p-1".to_owned()])
        .expect("joining plain segments succeeds");
    assert_eq!(url, "http://localhost:8090/fhir/Patient/p-1");
}

#[test]
fn url_escapes_what_a_path_segment_cannot_carry() {
    let client = client();
    let url = client.url(&vec!["a b/c".to_owned()]).expect("the segment is escaped");
    assert_eq!(url, "http://localhost:8090/fhir/a%20b%2Fc");
}

#[test]
fn revision_switches_change_only_the_version_tag() {
    let c = client();
    let base = c.base_url().clone();
    let c = c.r5();
    assert_eq!(c.version, FhirVersion::R5);
    let c = c.stu3();
    assert_eq!(c.version, FhirVersion::Stu3);
    let c = c.r4b();
    assert_eq!(c.version, FhirVersion::R4B);
    assert_eq!(c.base_url().as_str(), base.as_str());
}

#[test]
fn each_revision_names_its_media_type_and_major_version() {
    assert_eq!(FhirVersion::Stu3.mime_type(), "application/fhir+json; fhirVersion=3.0");
    assert_eq!(FhirVersion::R4B.mime_type(), "application/fhir+json; fhirVersion=4.3");
    assert_eq!(FhirVersion::R5.mime_type(), "application/fhir+json; fhirVersion=5.0");
    assert_eq!(FhirVersion::Stu3.major(), "3");
    assert_eq!(FhirVersion::R4B.major(), "4");
    assert_eq!(FhirVersion::R5.major(), "5");
}

#[test]
fn the_everything_operation_plans_a_get_under_the_record() {
    let client = client().r5();
    let request = client
        .operation_encounter_everything_plan("e-9")
        .expect("the plan builds");
    assert_eq!(request.method, Method::Get);
    assert_eq!(request.url, "http://localhost:8090/fhir/Encounter/e-9/$everything");
    assert_eq!(
        get_header(&request.headers, "accept").map(String::as_str),
        Some("application/fhir+json; fhirVersion=5.0")
    );
    let patient_plan = client.operation_patient_everything_plan("p-1").expect("the plan builds");
    assert_eq!(patient_plan.url, "http://localhost:8090/fhir/Patient/p-1/$everything");
}

#[test]
fn the_match_operation_carries_its_three_parameters_in_order() {
    let client = client().r5();
    let incomplete = WireResource {
        resource_type: "Patient".to_owned(),
        id: None,
        version_id: None,
        references: Vec::new(),
        content: "name=Doe".to_owned(),
    };
    let (request, params) = client
        .operation_patient_match_plan(incomplete, true, 5)
        .expect("the plan builds");
    assert_eq!(request.method, Method::Post);
    assert_eq!(request.url, "http://localhost:8090/fhir/Patient/$match");
    assert_eq!(
        get_header(&request.headers, "content-type").map(String::as_str),
        Some("application/fhir+json; fhirVersion=5.0")
    );
    assert_eq!(request.body, None);
    assert_eq!(params.len(), 3);
    assert!(
        matches!(&params[0], OperationParam::Resource { name, resource } if name == "resource" && resource.content == "name=Doe")
    );
    assert!(
        matches!(&params[1], OperationParam::Boolean { name, value } if name == "onlyCertainMatches" && *value)
    );
    assert!(
        matches!(&params[2], OperationParam::Integer { name, value } if name == "count" && *value == 5)
    );
}

#[test]
fn the_subscription_status_operation_plans_its_url() {
    let client = client().r5();
    let request = client.operation_subscription_status_plan("s-3").expect("the plan builds");
    assert_eq!(request.url, "http://localhost:8090/fhir/Subscription/s-3/$status");
    assert_eq!(request.method, Method::Get);
}

#[test]
fn the_events_operation_names_only_the_given_bounds_in_order() {
    let client = client().r5();
    let (request, query) = client
        .operation_subscription_events_plan(
            "s-3",
            Some(10),
            None,
            Some(SubscriptionPayloadContent::IdOnly),
        )
        .expect("the plan builds");
    assert_eq!(request.url, "http://localhost:8090/fhir/Subscription/s-3/$events");
    assert_eq!(query.len(), 2);
    assert_eq!(query[0].name, "eventsSinceNumber");
    assert_eq!(query[0].value, QueryValue::Int(10));
    assert_eq!(query[1].name, "content");
    assert_eq!(query[1].value, QueryValue::Text("id-only".to_owned()));

    let (_, all) = client
        .operation_subscription_events_plan(
            "s-3",
            Some(1),
            Some(9),
            Some(SubscriptionPayloadContent::FullResource),
        )
        .expect("the plan builds");
    assert_eq!(all.len(), 3);
    assert_eq!(all[1].name, "eventsUntilNumber");
    assert_eq!(all[1].value, QueryValue::Int(9));

    let (_, none) = client
        .operation_subscription_events_plan("s-3", None, None, None)
        .expect("the plan builds");
    assert!(none.is_empty());
}

#[test]
fn the_first_resource_of_the_wanted_type_is_found() {
    let other = WireResource {
        resource_type: "Patient".to_owned(),
        id: Some("1".to_owned()),
        version_id: None,
        references: Vec::new(),
        content: String::new(),
    };
    let status_one = WireResource {
        resource_type: "SubscriptionStatus".to_owned(),
        id: Some("first".to_owned()),
        version_id: None,
        references: Vec::new(),
        content: String::new(),
    };
    let status_two = WireResource {
        resource_type: "SubscriptionStatus".to_owned(),
        id: Some("second".to_owned()),
        version_id: None,
        references: Vec::new(),
        content: String::new(),
    };
    let resources = vec![other, status_one, status_two];
    let found = find_resource_of_type(&resources, "SubscriptionStatus", "http://s/url")
        .expect("a status is present");
    assert_eq!(found.id.as_deref(), Some("first"));
}

#[test]
fn a_missing_resource_type_is_a_typed_not_found() {
    let resources: Vec<WireResource> = Vec::new();
    match find_resource_of_type(&resources, "SubscriptionStatus", "http://s/asked-url") {
        Err(Error::ResourceNotFound(url)) => assert_eq!(url, "http://s/asked-url"),
        other => panic!("expected the not-found outcome, got {other:?}"),
    }
}

#[test]
fn the_credential_slot_renders_without_blocking() {
    assert_eq!(auth_debug_label(&AuthProbe::Absent), "None");
    assert_eq!(auth_debug_label(&AuthProbe::Configured), "Some(<login_manager>)");
    assert_eq!(auth_debug_label(&AuthProbe::Contended), "<blocked>");
}

#[test]
fn entry_requests_build_by_refinement() {
    let request = EntryRequest::make("Patient/p-1".to_owned())
        .with_method_put()
        .with_if_match("W/\"3\"".to_owned());
    assert_eq!(request.method, Method::Put);
    assert_eq!(request.url, "Patient/p-1");
    assert_eq!(request.if_match.as_deref(), Some("W/\"3\""));
    let deleted = EntryRequest::make("Patient/p-1".to_owned()).with_method_delete();
    assert_eq!(deleted.method, Method::Delete);
    assert_eq!(deleted.if_match, None);
    let posted = EntryRequest::make("Patient".to_owned()).with_method_post().with_method_get();
    assert_eq!(posted.method, Method::Get);
}
