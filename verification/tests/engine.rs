//! The auth-retry protocol of the request executor.

use fhir_sdk::client::Client;
use fhir_sdk::error::Error;
use fhir_sdk::exec::{ExecAction, ExecEvent, ExecPhase, RequestExecutor};
use fhir_sdk::headers::Header;
use fhir_sdk::request::{HttpRequest, HttpResponse, Method};

fn client() -> Client {
    Client::new("http://localhost:8090/fhir/".to_owned()).expect("base URL should build")
}

fn get_request(url: &str) -> HttpRequest {
    HttpRequest {
        method: Method::Get,
        url: url.to_owned(),
        headers: Vec::new(),
        body: None,
    }
}

fn ok_response(status: u16) -> HttpResponse {
    HttpResponse {
        status,
        headers: Vec::new(),
        body: Vec::new(),
    }
}

fn correlation_of(machine: &RequestExecutor) -> Option<String> {
    machine
        .request
        .headers
        .iter()
        .find(|h| h.name == "x-correlation-id")
        .map(|h| h.value.clone())
}

#[test]
fn a_plain_success_needs_no_retry() {
    let (mut machine, action) = client().execute(get_request("http://localhost:8090/fhir/Patient"));
    assert!(matches!(action, ExecAction::Send));
    let action = machine.step(ExecEvent::Response(ok_response(200)));
    assert!(matches!(action, ExecAction::Done));
    let outcome = machine.into_outcome().expect("success should come back");
    assert_eq!(outcome.status, 200);
}

#[test]
fn unauthorized_with_callback_refreshes_once_and_resends() {
    let (mut machine, action) = client().execute(get_request("http://localhost:8090/fhir/Patient"));
    assert!(matches!(action, ExecAction::Send));
    let tagged = correlation_of(&machine).expect("a correlation identifier is attached");

    let action = machine.step(ExecEvent::Response(ok_response(401)));
    assert!(matches!(action, ExecAction::TryLockCredentials));
    assert_eq!(machine.phase, ExecPhase::LockRequested);

    let action = machine.step(ExecEvent::LockAcquired { has_callback: true });
    assert!(matches!(action, ExecAction::InvokeRefresh));
    assert_eq!(machine.phase, ExecPhase::Refreshing);

    let action = machine.step(ExecEvent::RefreshSucceeded {
        authorization: "Bearer fresh".to_owned(),
    });
    match action {
        ExecAction::PatchAuthorizationAndResend { authorization } => {
            assert_eq!(authorization, "Bearer fresh");
        }
        other => panic!("expected the patch-and-resend action, got {other:?}"),
    }
    assert_eq!(machine.phase, ExecPhase::Resending);

    // The retried request is the identical description: the correlation
    // identifier is stable across the retry.
    assert_eq!(correlation_of(&machine).as_deref(), Some(tagged.as_str()));

    let action = machine.step(ExecEvent::Response(ok_response(200)));
    assert!(matches!(action, ExecAction::Done));
    let outcome = machine.into_outcome().expect("the retry succeeded");
    assert_eq!(outcome.status, 200);
}

#[test]
fn unauthorized_without_callback_returns_the_response_as_is() {
    let (mut machine, _) = client().execute(get_request("http://localhost:8090/fhir/Patient"));
    machine.step(ExecEvent::Response(ok_response(401)));
    let action = machine.step(ExecEvent::LockAcquired { has_callback: false });
    assert!(matches!(action, ExecAction::Done));
    let outcome = machine.into_outcome().expect("the unauthorized response is not an error");
    assert_eq!(outcome.status, 401);
}

#[test]
fn busy_lock_waits_out_the_other_refresh_and_resends() {
    let (mut machine, _) = client().execute(get_request("http://localhost:8090/fhir/Patient"));
    machine.step(ExecEvent::Response(ok_response(401)));
    let action = machine.step(ExecEvent::LockBusy);
    assert!(matches!(action, ExecAction::AwaitCredentialLock));
    assert_eq!(machine.phase, ExecPhase::AwaitingRefresh);
    let action = machine.step(ExecEvent::LockFreed);
    assert!(matches!(action, ExecAction::Resend));
    let action = machine.step(ExecEvent::Response(ok_response(204)));
    assert!(matches!(action, ExecAction::Done));
    assert_eq!(machine.into_outcome().expect("resend succeeded").status, 204);
}

#[test]
fn a_second_unauthorized_response_is_returned_not_retried() {
    let (mut machine, _) = client().execute(get_request("http://localhost:8090/fhir/Patient"));
    machine.step(ExecEvent::Response(ok_response(401)));
    machine.step(ExecEvent::LockBusy);
    machine.step(ExecEvent::LockFreed);
    let action = machine.step(ExecEvent::Response(ok_response(401)));
    assert!(matches!(action, ExecAction::Done));
    let outcome = machine.into_outcome().expect("the second unauthorized comes back as-is");
    assert_eq!(outcome.status, 401);
}

#[test]
fn a_failed_refresh_surfaces_the_cause() {
    let (mut machine, _) = client().execute(get_request("http://localhost:8090/fhir/Patient"));
    machine.step(ExecEvent::Response(ok_response(401)));
    machine.step(ExecEvent::LockAcquired { has_callback: true });
    let action = machine.step(ExecEvent::RefreshFailed {
        cause: "identity provider unreachable".to_owned(),
    });
    assert!(matches!(action, ExecAction::Done));
    match machine.into_outcome() {
        Err(Error::AuthCallback(cause)) => assert_eq!(cause, "identity provider unreachable"),
        other => panic!("expected the callback error, got {other:?}"),
    }
}

#[test]
fn a_transport_failure_surfaces_as_a_transport_error() {
    let (mut machine, _) = client().execute(get_request("http://localhost:8090/fhir/Patient"));
    let action = machine.step(ExecEvent::TransportFailed("connection refused".to_owned()));
    assert!(matches!(action, ExecAction::Done));
    match machine.into_outcome() {
        Err(Error::Transport(m)) => assert_eq!(m, "connection refused"),
        other => panic!("expected the transport error, got {other:?}"),
    }
}

#[test]
fn a_present_correlation_header_is_preserved() {
    let request = HttpRequest {
        method: Method::Get,
        url: "http://localhost:8090/fhir/Patient".to_owned(),
        headers: vec![Header {
            name: "x-correlation-id".to_owned(),
            value: "caller-chosen".to_owned(),
        }],
        body: None,
    };
    let (machine, _) = client().execute(request);
    assert_eq!(correlation_of(&machine).as_deref(), Some("caller-chosen"));
}

#[test]
fn a_fresh_correlation_identifier_has_the_canonical_shape() {
    let (machine, _) = client().execute(get_request("http://localhost:8090/fhir/Patient"));
    let id = correlation_of(&machine).expect("a correlation identifier is attached");
    assert_eq!(id.len(), 36);
    let (other, _) = client().execute(get_request("http://localhost:8090/fhir/Patient"));
    assert_ne!(correlation_of(&other), Some(id));
}

/// Three callers hit an unauthorized response together. One machine wins
/// the non-blocking probe and refreshes; the others wait the refresh out.
/// The callback runs exactly once, and every caller resends with the one
/// refreshed credential.
#[test]
fn three_concurrent_callers_trigger_one_refresh() {
    let client = client();
    let mut machines: Vec<RequestExecutor> = Vec::new();
    for _ in 0..3 {
        let (mut machine, action) =
            client.execute(get_request("http://localhost:8090/fhir/Patient"));
        assert!(matches!(action, ExecAction::Send));
        let action = machine.step(ExecEvent::Response(ok_response(401)));
        assert!(matches!(action, ExecAction::TryLockCredentials));
        machines.push(machine);
    }

    // All three probe while the first holds the lock.
    let mut lock_held = false;
    let mut invocations = 0;
    let mut waiting: Vec<usize> = Vec::new();
    let mut refresher = None;
    for (i, machine) in machines.iter_mut().enumerate() {
        if !lock_held {
            lock_held = true;
            let action = machine.step(ExecEvent::LockAcquired { has_callback: true });
            assert!(matches!(action, ExecAction::InvokeRefresh));
            invocations += 1;
            refresher = Some(i);
        } else {
            let action = machine.step(ExecEvent::LockBusy);
            assert!(matches!(action, ExecAction::AwaitCredentialLock));
            waiting.push(i);
        }
    }
    assert_eq!(invocations, 1);

    // The one refresh completes, publishes its credential, releases the
    // lock; every waiter wakes and resends.
    let winner = refresher.expect("one caller refreshes");
    let action = machines[winner].step(ExecEvent::RefreshSucceeded {
        authorization: "Bearer shared".to_owned(),
    });
    assert!(matches!(
        action,
        ExecAction::PatchAuthorizationAndResend { ref authorization } if authorization == "Bearer shared"
    ));
    for i in waiting {
        let action = machines[i].step(ExecEvent::LockFreed);
        assert!(matches!(action, ExecAction::Resend));
    }
    for mut machine in machines {
        let action = machine.step(ExecEvent::Response(ok_response(200)));
        assert!(matches!(action, ExecAction::Done));
        assert_eq!(machine.into_outcome().expect("all complete").status, 200);
    }
}

#[test]
fn guard_failures_are_the_never_retried_errors() {
    assert!(Error::DifferentOrigin("u".to_owned()).is_guard_failure());
    assert!(Error::DifferentFhirVersion("4.0".to_owned()).is_guard_failure());
    assert!(!Error::Transport("t".to_owned()).is_guard_failure());
    assert!(!Error::RequestNotClone.is_guard_failure());
}
