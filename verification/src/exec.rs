//! The request executor: one logical request as a state machine.
//!
//! Sending, locking and refreshing are outside work, so the executor is a
//! machine of phases and events: the embedder performs each returned
//! action (a network send, a lock probe, a refresh invocation) and hands
//! the result back as the next event. The machine applies the origin guard
//! before any network action, tags the request with a correlation
//! identifier that stays stable across the retry, performs at most one
//! authorization retry, and applies the version guard to the final
//! response.
//!
//! Each step strictly raises the phase rank, so every phase is visited at
//! most once: in particular the refresh callback is invoked at most once
//! per executed request, and at most two sends occur.

use vstd::prelude::*;

use crate::error::Error;
use crate::headers::header_lookup;
use crate::request::{
    ensure_correlation, spec_correlation_header_name, HttpRequest, HttpResponse,
};
use crate::urls::{check_origin, opt_view, origin_of, spec_origin_ok};
use crate::version::{
    check_version, spec_version_header_name, version_header_name, version_mismatch, FhirVersion,
};
use crate::headers::get_header;

verus! {

/// The guards and protocol revision a client was built with.
#[derive(Debug, Clone)]
pub struct GuardConfig {
    /// Whether a request whose target origin differs from the base origin
    /// is rejected before any network I/O.
    pub enforce_origin: bool,
    /// The ASCII serialization of the base URL's origin; `None` when the
    /// base URL has an opaque origin (every request then fails the guard
    /// when it is enforced).
    pub base_origin: Option<String>,
    /// Whether a response bearing a mismatched major version fails.
    pub enforce_version: bool,
    /// The protocol revision the client is configured for.
    pub version: FhirVersion,
}

/// Where one executed request stands.
#[derive(Debug, Clone, Copy, PartialEq, Eq, Structural)]
pub enum ExecPhase {
    /// The first attempt is with the transport.
    Sending,
    /// An unauthorized response arrived; the credential lock is being
    /// probed without blocking.
    LockRequested,
    /// The lock was acquired and the refresh callback is running.
    Refreshing,
    /// The lock was busy: another caller's refresh is in flight, and this
    /// request waits for the lock to be released.
    AwaitingRefresh,
    /// The single retry is with the transport.
    Resending,
    /// The outcome is available.
    Complete,
}

/// What the embedder reports back to the machine.
#[derive(Debug, Clone)]
pub enum ExecEvent {
    /// A send attempt returned this response.
    Response(HttpResponse),
    /// A send attempt failed at the transport level, after the configured
    /// retry policy was exhausted. Carries the transport's description.
    TransportFailed(String),
    /// The non-blocking probe acquired the credential lock;
    /// `has_callback` says whether a refresh capability is configured.
    LockAcquired { has_callback: bool },
    /// The non-blocking probe found the credential lock held.
    LockBusy,
    /// The blocking wait on the credential lock returned: the in-flight
    /// refresh completed and published its result into the settings.
    LockFreed,
    /// The refresh callback produced a new authorization value.
    RefreshSucceeded { authorization: String },
    /// The refresh callback failed. Carries the underlying cause.
    RefreshFailed { cause: String },
}

/// What the embedder must do next.
#[derive(Debug, Clone)]
pub enum ExecAction {
    /// Send the machine's request with a fresh snapshot of the settings,
    /// applying the transport retry policy; report `Response` or
    /// `TransportFailed`.
    Send,
    /// Probe the credential lock without blocking; report `LockAcquired`
    /// or `LockBusy`.
    TryLockCredentials,
    /// Invoke the refresh callback while holding the lock; report
    /// `RefreshSucceeded` or `RefreshFailed`.
    InvokeRefresh,
    /// Block until the credential lock is released, treating that as "the
    /// in-flight refresh completed"; report `LockFreed`.
    AwaitCredentialLock,
    /// Patch the settings so their authorization header carries this
    /// value, release the lock, then send the machine's request once more
    /// with the refreshed settings; report `Response` or
    /// `TransportFailed`.
    PatchAuthorizationAndResend { authorization: String },
    /// Re-read the settings (they now reflect the other caller's refresh)
    /// and send the machine's request once more; report `Response` or
    /// `TransportFailed`.
    Resend,
    /// The outcome is available; nothing more to do.
    Done,
}

/// How far along a phase is; every step strictly raises it.
pub open spec fn spec_rank(p: ExecPhase) -> nat {
    match p {
        ExecPhase::Sending => 0,
        ExecPhase::LockRequested => 1,
        ExecPhase::Refreshing => 2,
        ExecPhase::AwaitingRefresh => 2,
        ExecPhase::Resending => 3,
        ExecPhase::Complete => 4,
    }
}

/// Well-formedness of an event: a reported response has no duplicate
/// header names (an embedder that takes headers from a transport joins or
/// drops duplicates first).
pub open spec fn event_wf(event: ExecEvent) -> bool {
    match event {
        ExecEvent::Response(r) => r.wf(),
        _ => true,
    }
}

/// Which events the embedder may report in each phase.
pub open spec fn event_allowed(phase: ExecPhase, event: ExecEvent) -> bool {
    match phase {
        ExecPhase::Sending => event is Response || event is TransportFailed,
        ExecPhase::LockRequested => event is LockAcquired || event is LockBusy,
        ExecPhase::Refreshing => event is RefreshSucceeded || event is RefreshFailed,
        ExecPhase::AwaitingRefresh => event is LockFreed,
        ExecPhase::Resending => event is Response || event is TransportFailed,
        ExecPhase::Complete => false,
    }
}

/// Whether `out` is the right outcome for a final response under the
/// version guard: the version-mismatch error carrying the observed value
/// when the guard rejects the response, the response itself otherwise.
pub open spec fn outcome_matches_finish(
    cfg: GuardConfig,
    resp: HttpResponse,
    out: Option<Result<HttpResponse, Error>>,
) -> bool {
    let observed = header_lookup(resp.headers@, spec_version_header_name());
    if version_mismatch(cfg.enforce_version, cfg.version, observed) {
        out matches Some(Err(Error::DifferentFhirVersion(v))) && Some(v@) == observed
    } else {
        out == Some(Result::<HttpResponse, Error>::Ok(resp))
    }
}

/// One logical request in flight.
#[derive(Debug)]
pub struct RequestExecutor {
    /// The guards this request runs under.
    pub config: GuardConfig,
    /// The tagged request; never changed after construction, so the retry
    /// carries the identical description and correlation identifier.
    pub request: HttpRequest,
    /// Where the request stands.
    pub phase: ExecPhase,
    /// The unauthorized response, kept while the lock is probed so that it
    /// can be returned as-is when no refresh capability is configured.
    pub unauthorized: Option<HttpResponse>,
    /// The outcome; present exactly in the `Complete` phase.
    pub outcome: Option<Result<HttpResponse, Error>>,
}

impl RequestExecutor {
    /// Well-formedness of the machine.
    pub open spec fn wf(&self) -> bool {
        &&& self.request.wf()
        &&& (!(self.phase is Complete) ==> header_lookup(
            self.request.headers@,
            spec_correlation_header_name(),
        ) is Some)
        &&& (self.phase is LockRequested ==> self.unauthorized is Some)
        &&& (self.phase is Complete <==> self.outcome is Some)
    }

    /// Begin executing a request: apply the origin guard before any
    /// network I/O, and tag the request with `fresh_correlation` when it
    /// carries no correlation header. When the guard rejects the URL the
    /// machine is born complete with the origin-mismatch error and no
    /// action is required; otherwise the first action is a send.
    pub fn start(config: GuardConfig, request: HttpRequest, fresh_correlation: String) -> (r: (
        RequestExecutor,
        ExecAction,
    ))
        requires
            request.wf(),
        ensures
            r.0.wf(),
            r.0.config == config,
            r.0.request.method == request.method,
            r.0.request.url == request.url,
            r.0.request.body == request.body,
            if !spec_origin_ok(config.enforce_origin, opt_view(config.base_origin), origin_of(request.url@)) {
                &&& r.0.phase is Complete
                &&& r.1 is Done
                &&& (r.0.outcome matches Some(Err(Error::DifferentOrigin(u))) && u@
                    == request.url@)
            } else {
                &&& r.0.phase is Sending
                &&& r.1 is Send
                &&& r.0.outcome is None
                &&& match header_lookup(request.headers@, spec_correlation_header_name()) {
                    Some(_) => r.0.request.headers == request.headers,
                    None => header_lookup(
                        r.0.request.headers@,
                        spec_correlation_header_name(),
                    ) == Some(fresh_correlation@),
                }
                &&& forall|n: Seq<char>|
                    n != spec_correlation_header_name() ==> header_lookup(
                        r.0.request.headers@,
                        n,
                    ) == header_lookup(request.headers@, n)
            },
    {
        match check_origin(config.enforce_origin, &config.base_origin, request.url.as_str()) {
            Err(e) => {
                let m = RequestExecutor {
                    config,
                    request,
                    phase: ExecPhase::Complete,
                    unauthorized: None,
                    outcome: Some(Err(e)),
                };
                (m, ExecAction::Done)
            },
            Ok(()) => {
                let mut tagged = request;
                ensure_correlation(&mut tagged, fresh_correlation);
                let m = RequestExecutor {
                    config,
                    request: tagged,
                    phase: ExecPhase::Sending,
                    unauthorized: None,
                    outcome: None,
                };
                (m, ExecAction::Send)
            },
        }
    }

    /// Apply the version guard to the final response and complete.
    fn finish(&mut self, response: HttpResponse) -> (a: ExecAction)
        requires
            old(self).wf(),
            response.wf(),
            !(old(self).phase is Complete),
        ensures
            final(self).wf(),
            final(self).config == old(self).config,
            final(self).request == old(self).request,
            final(self).phase is Complete,
            a is Done,
            outcome_matches_finish(old(self).config, response, final(self).outcome),
    {
        let observed = get_header(&response.headers, version_header_name());
        let checked = check_version(self.config.enforce_version, &self.config.version, observed);
        match checked {
            Ok(()) => {
                self.outcome = Some(Ok(response));
            },
            Err(e) => {
                self.outcome = Some(Err(e));
            },
        }
        self.phase = ExecPhase::Complete;
        ExecAction::Done
    }

    /// Drive the machine one step: consume the result of the previous
    /// action and return the next one.
    ///
    /// The transition table is the auth-retry protocol: an unauthorized
    /// first response probes the credential lock without blocking; with
    /// the lock and a configured callback the refresh runs and its new
    /// authorization value is patched into the settings before the single
    /// resend; with the lock and no callback the unauthorized response is
    /// returned as-is (a normal response, not an error); with the lock
    /// busy the machine waits the other refresh out and resends with the
    /// settings that refresh published. Every final response passes the
    /// version guard. The request itself never changes, so the retry
    /// carries the identical correlation identifier.
    pub fn step(&mut self, event: ExecEvent) -> (a: ExecAction)
        requires
            old(self).wf(),
            !(old(self).phase is Complete),
            event_wf(event),
            event_allowed(old(self).phase, event),
        ensures
            final(self).wf(),
            final(self).config == old(self).config,
            final(self).request == old(self).request,
            spec_rank(final(self).phase) > spec_rank(old(self).phase),
            a is InvokeRefresh ==> old(self).phase is LockRequested && final(self).phase
                is Refreshing,
            match (old(self).phase, event) {
                (ExecPhase::Sending, ExecEvent::Response(resp)) => if resp.spec_is_unauthorized() {
                    &&& final(self).phase is LockRequested
                    &&& final(self).unauthorized == Some(resp)
                    &&& a is TryLockCredentials
                } else {
                    &&& final(self).phase is Complete
                    &&& a is Done
                    &&& outcome_matches_finish(old(self).config, resp, final(self).outcome)
                },
                (ExecPhase::Resending, ExecEvent::Response(resp)) => {
                    &&& final(self).phase is Complete
                    &&& a is Done
                    &&& outcome_matches_finish(old(self).config, resp, final(self).outcome)
                },
                (_, ExecEvent::TransportFailed(m)) => {
                    &&& final(self).phase is Complete
                    &&& a is Done
                    &&& (final(self).outcome matches Some(Err(Error::Transport(t))) && t@ == m@)
                },
                (ExecPhase::LockRequested, ExecEvent::LockAcquired { has_callback }) => if has_callback {
                    &&& a is InvokeRefresh
                    &&& final(self).phase is Refreshing
                } else {
                    &&& final(self).phase is Complete
                    &&& a is Done
                    &&& final(self).outcome == Some(
                        Result::<HttpResponse, Error>::Ok(old(self).unauthorized->Some_0),
                    )
                },
                (ExecPhase::LockRequested, ExecEvent::LockBusy) => {
                    &&& a is AwaitCredentialLock
                    &&& final(self).phase is AwaitingRefresh
                },
                (ExecPhase::Refreshing, ExecEvent::RefreshSucceeded { authorization }) => {
                    &&& (a matches ExecAction::PatchAuthorizationAndResend {
                        authorization: v,
                    } && v == authorization)
                    &&& final(self).phase is Resending
                },
                (ExecPhase::Refreshing, ExecEvent::RefreshFailed { cause }) => {
                    &&& final(self).phase is Complete
                    &&& a is Done
                    &&& (final(self).outcome matches Some(Err(Error::AuthCallback(c))) && c@
                        == cause@)
                },
                (ExecPhase::AwaitingRefresh, ExecEvent::LockFreed) => {
                    &&& a is Resend
                    &&& final(self).phase is Resending
                },
                _ => false,
            },
    {
        match event {
            ExecEvent::Response(resp) => {
                if matches!(self.phase, ExecPhase::Sending) && resp.is_unauthorized() {
                    self.unauthorized = Some(resp);
                    self.phase = ExecPhase::LockRequested;
                    ExecAction::TryLockCredentials
                } else {
                    self.finish(resp)
                }
            },
            ExecEvent::TransportFailed(m) => {
                self.outcome = Some(Err(Error::Transport(m)));
                self.phase = ExecPhase::Complete;
                ExecAction::Done
            },
            ExecEvent::LockAcquired { has_callback } => {
                if has_callback {
                    self.phase = ExecPhase::Refreshing;
                    ExecAction::InvokeRefresh
                } else {
                    let resp = self.unauthorized.take();
                    match resp {
                        Some(r) => {
                            self.outcome = Some(Ok(r));
                        },
                        None => {
                            // Excluded by well-formedness: the phase is
                            // LockRequested, so the response is present.
                            proof {
                                assert(false);
                            }
                        },
                    }
                    self.phase = ExecPhase::Complete;
                    ExecAction::Done
                }
            },
            ExecEvent::LockBusy => {
                self.phase = ExecPhase::AwaitingRefresh;
                ExecAction::AwaitCredentialLock
            },
            ExecEvent::LockFreed => {
                self.phase = ExecPhase::Resending;
                ExecAction::Resend
            },
            ExecEvent::RefreshSucceeded { authorization } => {
                self.phase = ExecPhase::Resending;
                ExecAction::PatchAuthorizationAndResend { authorization }
            },
            ExecEvent::RefreshFailed { cause } => {
                self.outcome = Some(Err(Error::AuthCallback(cause)));
                self.phase = ExecPhase::Complete;
                ExecAction::Done
            },
        }
    }

    /// Take the outcome of a complete execution.
    pub fn into_outcome(self) -> (r: Result<HttpResponse, Error>)
        requires
            self.wf(),
            self.phase is Complete,
        ensures
            Some(r) == self.outcome,
    {
        match self.outcome {
            Some(r) => r,
            None => {
                // Excluded by well-formedness: a complete machine holds
                // its outcome.
                proof {
                    assert(false);
                }
                Err(Error::RequestNotClone)
            },
        }
    }
}

/// Ranks rise along a chain of steps: a later phase never ranks below an
/// earlier one plus the distance.
proof fn lemma_rank_chain(phases: Seq<ExecPhase>, i: int, j: int)
    requires
        forall|k: int| 0 <= k < phases.len() - 1 ==> spec_rank(phases[k + 1]) > spec_rank(
            #[trigger] phases[k],
        ),
        0 <= i <= j < phases.len(),
    ensures
        spec_rank(phases[j]) >= spec_rank(phases[i]) + (j - i),
    decreases j - i,
{
    if i < j {
        lemma_rank_chain(phases, i, j - 1);
        assert(spec_rank(phases[j]) > spec_rank(phases[j - 1]));
    }
}

/// The auth-retry is single-shot within one executed request: along any
/// chain of phases whose ranks strictly rise — which `step` guarantees —
/// no phase occurs twice, so the refresh callback (invoked only on the
/// step out of `LockRequested`) runs at most once, and at most one resend
/// follows the first send.
pub proof fn lemma_single_auth_retry(phases: Seq<ExecPhase>)
    requires
        forall|k: int| 0 <= k < phases.len() - 1 ==> spec_rank(phases[k + 1]) > spec_rank(
            #[trigger] phases[k],
        ),
    ensures
        forall|i: int, j: int|
            0 <= i < j < phases.len() ==> !(phases[i] is LockRequested
                && phases[j] is LockRequested),
        forall|i: int, j: int|
            0 <= i < j < phases.len() ==> !(phases[i] is Resending && phases[j] is Resending),
{
    assert forall|i: int, j: int| 0 <= i < j < phases.len() implies spec_rank(phases[j])
        > spec_rank(phases[i]) by {
        lemma_rank_chain(phases, i, j);
    }
}

} // verus!
