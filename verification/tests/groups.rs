//! Grouped operations: ordering, placeholders, correlation.

use fhir_sdk::client::Client;
use fhir_sdk::error::Error;
use fhir_sdk::request::Method;
use fhir_sdk::transaction::{
    correlate, parse_status_code, resolve_placeholder, BatchTransaction, EntryOutcome, GroupMode,
    PlannedResource, RefSlot, ResponseEntry,
};

fn client() -> Client {
    Client::new("http://localhost:8090/fhir/".to_owned()).expect("base URL should build")
}

fn patient(id: Option<&str>, version_id: Option<&str>) -> PlannedResource {
    PlannedResource {
        resource_type: "Patient".to_owned(),
        id: id.map(|s| s.to_owned()),
        version_id: version_id.map(|s| s.to_owned()),
        references: Vec::new(),
        content: String::new(),
    }
}

fn ok_entry(status: &str, location: Option<&str>) -> ResponseEntry {
    ResponseEntry {
        status: status.to_owned(),
        location: location.map(|s| s.to_owned()),
        full_url: None,
        resource: None,
    }
}

/// The scenario: a group of five operations submitted as one transaction
/// comes back as five entries in the same order, and the reference that
/// was submitted as a placeholder resolves to the server-assigned
/// identity, not to the placeholder text.
#[test]
fn five_operation_transaction_keeps_order_and_resolves_the_placeholder() {
    let client = client();
    let mut group = client.transaction();
    assert_eq!(group.mode, GroupMode::Transaction);

    group.delete("Patient".to_owned(), "pat-1".to_owned());
    group.read("Patient".to_owned(), "pat-1".to_owned());
    group
        .update(patient(Some("pat-3"), Some("7")), true)
        .expect("update with identity and version");
    let patient_ref = group.create(patient(None, None));
    let encounter = PlannedResource {
        resource_type: "Encounter".to_owned(),
        id: None,
        version_id: None,
        references: vec![RefSlot::Placeholder(patient_ref.clone())],
        content: String::new(),
    };
    let _encounter_ref = group.create(encounter);

    let entries = group.build_entries();
    assert_eq!(entries.len(), 5);
    assert_eq!(entries[0].method, Method::Delete);
    assert_eq!(entries[0].url, "Patient/pat-1");
    assert_eq!(entries[1].method, Method::Get);
    assert_eq!(entries[1].url, "Patient/pat-1");
    assert_eq!(entries[2].method, Method::Put);
    assert_eq!(entries[2].url, "Patient/pat-3");
    assert_eq!(entries[2].if_match.as_deref(), Some("W/\"7\""));
    assert_eq!(entries[3].method, Method::Post);
    assert_eq!(entries[3].url, "Patient");
    assert_eq!(entries[3].full_url.as_deref(), Some(patient_ref.as_str()));
    assert_eq!(entries[4].method, Method::Post);
    assert_eq!(entries[4].url, "Encounter");
    // The placeholder was substituted into the later operation's payload.
    let wire = entries[4].resource.as_ref().expect("the create carries its resource");
    assert_eq!(wire.references, vec![patient_ref.clone()]);

    let responses = vec![
        ok_entry("204 No Content", None),
        ok_entry("200 OK", None),
        ok_entry("200 OK", Some("Patient/pat-3/_history/8")),
        ok_entry("201 Created", Some("Patient/srv-41")),
        ok_entry("201 Created", Some("Encounter/srv-42")),
    ];
    let outcomes = correlate(GroupMode::Transaction, 5, &responses).expect("all entries succeed");
    assert_eq!(outcomes.len(), 5);
    let statuses: Vec<u16> = outcomes
        .iter()
        .map(|o| match o {
            EntryOutcome::Succeeded { status, .. } => *status,
            EntryOutcome::Failed { status } => *status,
        })
        .collect();
    assert_eq!(statuses, vec![204, 200, 200, 201, 201]);

    let ops = group.operations;
    let resolved = resolve_placeholder(&ops, &responses, &patient_ref)
        .expect("the placeholder's create has a response entry");
    assert_eq!(resolved, "Patient/srv-41");
    assert_ne!(resolved, patient_ref);
    assert!(patient_ref.starts_with("urn:uuid:"));
}

#[test]
fn each_create_gets_a_distinct_placeholder() {
    let client = client();
    let mut group = client.batch();
    let a = group.create(patient(None, None));
    let b = group.create(patient(None, None));
    assert_eq!(a.len(), 45);
    assert!(a.starts_with("urn:uuid:"));
    assert_ne!(a, b);
}

#[test]
fn full_url_wins_over_location_as_the_assigned_identity() {
    let client = client();
    let mut group = client.transaction();
    let p = group.create(patient(None, None));
    let responses = vec![ResponseEntry {
        status: "201 Created".to_owned(),
        location: Some("Patient/by-location".to_owned()),
        full_url: Some("Patient/by-full-url".to_owned()),
        resource: None,
    }];
    let resolved =
        resolve_placeholder(&group.operations, &responses, &p).expect("identity is present");
    assert_eq!(resolved, "Patient/by-full-url");
}

#[test]
fn an_unknown_placeholder_does_not_resolve() {
    let client = client();
    let mut group = client.transaction();
    let _p = group.create(patient(None, None));
    let responses = vec![ok_entry("201 Created", Some("Patient/1"))];
    assert_eq!(
        resolve_placeholder(&group.operations, &responses, "urn:uuid:not-handed-out"),
        None
    );
}

#[test]
fn update_without_identity_is_refused() {
    let client = client();
    let mut group = client.transaction();
    assert_eq!(group.update(patient(None, None), false), Err(Error::MissingId));
    assert_eq!(group.operations.len(), 0);
}

#[test]
fn locked_update_without_version_is_refused() {
    let client = client();
    let mut group = client.transaction();
    assert_eq!(
        group.update(patient(Some("pat-1"), None), true),
        Err(Error::MissingVersionId)
    );
    assert_eq!(group.operations.len(), 0);
}

#[test]
fn unlocked_update_carries_no_lock_header() {
    let client = client();
    let mut group = client.transaction();
    group
        .update(patient(Some("pat-1"), None), false)
        .expect("an unlocked update needs no version");
    let entries = group.build_entries();
    assert_eq!(entries[0].if_match, None);
}

#[test]
fn a_response_of_the_wrong_length_is_a_protocol_error() {
    let responses = vec![ok_entry("200 OK", None)];
    match correlate(GroupMode::Transaction, 2, &responses) {
        Err(Error::GroupLengthMismatch { expected, found }) => {
            assert_eq!((expected, found), (2, 1));
        }
        other => panic!("expected the length-mismatch error, got {other:?}"),
    }
}

#[test]
fn a_status_without_a_code_is_a_malformed_response() {
    let responses = vec![ok_entry("200 OK", None), ok_entry("Created", None)];
    match correlate(GroupMode::Batch, 2, &responses) {
        Err(Error::MalformedGroupResponse(s)) => assert_eq!(s, "Created"),
        other => panic!("expected the malformed-response error, got {other:?}"),
    }
}

#[test]
fn in_transaction_mode_one_failure_fails_the_whole_call() {
    let responses = vec![ok_entry("200 OK", None), ok_entry("409 Conflict", None)];
    match correlate(GroupMode::Transaction, 2, &responses) {
        Err(Error::GroupEntryFailed(s)) => assert_eq!(s, "409 Conflict"),
        other => panic!("expected the entry-failed error, got {other:?}"),
    }
}

#[test]
fn in_batch_mode_each_entry_surfaces_its_own_status() {
    let responses = vec![ok_entry("200 OK", None), ok_entry("409 Conflict", None)];
    let outcomes = correlate(GroupMode::Batch, 2, &responses).expect("batch tolerates failures");
    assert!(matches!(outcomes[0], EntryOutcome::Succeeded { status: 200, .. }));
    assert!(matches!(outcomes[1], EntryOutcome::Failed { status: 409 }));
}

#[test]
fn a_single_operation_group_correlates_one_to_one() {
    let responses = vec![ok_entry("201 Created", Some("Patient/1"))];
    let outcomes = correlate(GroupMode::Transaction, 1, &responses).expect("one entry succeeds");
    assert_eq!(outcomes.len(), 1);
    match &outcomes[0] {
        EntryOutcome::Succeeded { status, identity, .. } => {
            assert_eq!(*status, 201);
            assert_eq!(identity.as_deref(), Some("Patient/1"));
        }
        other => panic!("expected a success outcome, got {other:?}"),
    }
}

#[test]
fn status_codes_parse_from_the_leading_digits() {
    assert_eq!(parse_status_code("200"), Some(200));
    assert_eq!(parse_status_code("201 Created"), Some(201));
    assert_eq!(parse_status_code("404 Not Found"), Some(404));
    assert_eq!(parse_status_code("Created"), None);
    assert_eq!(parse_status_code(""), None);
    assert_eq!(parse_status_code("99999"), None);
    assert_eq!(parse_status_code("65535"), Some(65535));
    assert_eq!(parse_status_code("65536"), None);
}

#[test]
fn literal_references_pass_through_substitution_unchanged() {
    let client = client();
    let mut group = client.batch();
    let resource = PlannedResource {
        resource_type: "Observation".to_owned(),
        id: None,
        version_id: None,
        references: vec![RefSlot::Literal("Patient/known".to_owned())],
        content: "opaque payload".to_owned(),
    };
    group.create(resource);
    let entries = group.build_entries();
    let wire = entries[0].resource.as_ref().expect("the create carries its resource");
    assert_eq!(wire.references, vec!["Patient/known".to_owned()]);
    assert_eq!(wire.content, "opaque payload");
}
