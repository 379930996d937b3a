//! The client: configuration, settings access, and operation planning.
//!
//! A client holds the base endpoint, the protocol revision and the two
//! guards, plus the settings bundle every request reads. The embedder
//! shares one client among concurrent callers (each holding its own
//! snapshot-taking access path) and owns the transport and the refresh
//! capability; this module plans requests and reads responses, and hands
//! the network work to the executor machine.

use vstd::prelude::*;

use crate::error::Error;
use crate::exec::{ExecAction, GuardConfig, RequestExecutor};
use crate::headers::{header_lookup, settings_eq, RequestSettings, SettingsPatch};
use crate::ident::fresh_correlation_id;
use crate::request::HttpRequest;
use crate::transaction::{BatchTransaction, GroupMode};
use crate::urls::{join_url, joined_url_of, opt_view, origin_of, parse_origin};
use crate::version::FhirVersion;

verus! {

/// A client of the resource API: immutable-after-construction
/// configuration plus the settings bundle. The embedder wraps one value
/// of this type in its shared-ownership and locking containers; the
/// `patch_request_settings` merge is the race-free mutation path.
#[derive(Debug)]
pub struct Client {
    /// The configured base endpoint.
    pub base_url: String,
    /// The ASCII serialization of the base endpoint's origin; `None` when
    /// that origin is opaque.
    pub base_origin: Option<String>,
    /// The protocol revision this client speaks.
    pub version: FhirVersion,
    /// Whether requests leaving the base origin are rejected.
    pub enforce_origin: bool,
    /// Whether responses of another major version are rejected.
    pub enforce_version: bool,
    /// Whether a credential refresh capability is configured (the
    /// capability itself lives with the embedder).
    pub auth_configured: bool,
    /// The retry policy and default headers read by every request.
    pub settings: RequestSettings,
}

impl Client {
    /// Well-formedness: the settings are well formed and the recorded
    /// base origin is the base URL's origin.
    pub open spec fn wf(&self) -> bool {
        &&& self.settings.wf()
        &&& opt_view(self.base_origin) == origin_of(self.base_url@)
    }

    /// Start building a client with custom settings.
    pub fn builder() -> (r: ClientBuilder)
        ensures
            r.is_default(),
    {
        ClientBuilder::default()
    }

    /// A client for this base endpoint with default settings: both guards
    /// enabled, no refresh capability, no default headers.
    pub fn new(base_url: String) -> (r: Result<Client, Error>)
        ensures
            match r {
                Ok(c) => {
                    &&& c.wf()
                    &&& c.base_url@ == base_url@
                    &&& c.version == FhirVersion::R4B
                    &&& c.enforce_origin
                    &&& c.enforce_version
                    &&& !c.auth_configured
                },
                Err(e) => (e matches Error::InvalidUrl(u) && u@ == base_url@)
                    && joined_url_of(base_url@, Seq::empty()) is None,
            },
    {
        Client::builder().base_url(base_url).build()
    }

    /// The configured base URL.
    pub fn base_url(&self) -> (r: &String)
        ensures
            r == &self.base_url,
    {
        &self.base_url
    }

    /// The URL under the base endpoint with these path segments appended.
    /// The base URL was checked at construction, so this fails only when
    /// the parser refuses the combination.
    pub fn url(&self, segments: &Vec<String>) -> (r: Result<String, Error>)
        ensures
            match r {
                Ok(u) => joined_url_of(self.base_url@, segments.deep_view()) == Some(u@)
                    && origin_of(u@) == origin_of(self.base_url@),
                Err(e) => joined_url_of(self.base_url@, segments.deep_view()) is None && (
                e matches Error::InvalidUrl(b) && b@ == self.base_url@),
            },
    {
        match join_url(self.base_url.as_str(), segments) {
            Some(u) => Ok(u),
            None => Err(Error::InvalidUrl(self.base_url.clone())),
        }
    }

    /// A snapshot of the request settings, as every request takes at send
    /// time.
    pub fn request_settings(&self) -> (r: RequestSettings)
        requires
            self.wf(),
        ensures
            r.wf(),
            settings_eq(r, self.settings),
    {
        self.settings.snapshot()
    }

    /// Replace the settings wholesale. Racy against concurrent
    /// read-modify-write: prefer [`Self::patch_request_settings`], which
    /// merges atomically.
    pub fn set_request_settings(&mut self, settings: RequestSettings)
        requires
            old(self).wf(),
            settings.wf(),
        ensures
            final(self).wf(),
            final(self).settings == settings,
            final(self).base_url == old(self).base_url,
            final(self).base_origin == old(self).base_origin,
            final(self).version == old(self).version,
            final(self).enforce_origin == old(self).enforce_origin,
            final(self).enforce_version == old(self).enforce_version,
            final(self).auth_configured == old(self).auth_configured,
    {
        self.settings = settings;
    }

    /// Merge a patch into the settings: the race-free mutation path. The
    /// embedder holds its settings lock for exactly the duration of this
    /// call.
    pub fn patch_request_settings(&mut self, patch: &SettingsPatch)
        requires
            old(self).wf(),
        ensures
            final(self).wf(),
            forall|n: Seq<char>|
                header_lookup(final(self).settings.headers@, n) == match crate::headers::patch_lookup(
                    patch.set_headers@,
                    n,
                ) {
                    Some(v) => Some(v),
                    None => header_lookup(old(self).settings.headers@, n),
                },
            match patch.retry {
                Some((retries, delay)) => final(self).settings.max_retries == retries
                    && final(self).settings.base_delay_ms == delay,
                None => final(self).settings.max_retries == old(self).settings.max_retries
                    && final(self).settings.base_delay_ms == old(self).settings.base_delay_ms,
            },
            final(self).base_url == old(self).base_url,
            final(self).base_origin == old(self).base_origin,
            final(self).version == old(self).version,
            final(self).enforce_origin == old(self).enforce_origin,
            final(self).enforce_version == old(self).enforce_version,
            final(self).auth_configured == old(self).auth_configured,
    {
        self.settings.apply_patch(patch);
    }

    /// The same client, switched to the first revision.
    pub fn stu3(self) -> (r: Client)
        ensures
            r == (Client { version: FhirVersion::Stu3, ..self }),
    {
        Client { version: FhirVersion::Stu3, ..self }
    }

    /// The same client, switched to the second revision.
    pub fn r4b(self) -> (r: Client)
        ensures
            r == (Client { version: FhirVersion::R4B, ..self }),
    {
        Client { version: FhirVersion::R4B, ..self }
    }

    /// The same client, switched to the third revision.
    pub fn r5(self) -> (r: Client)
        ensures
            r == (Client { version: FhirVersion::R5, ..self }),
    {
        Client { version: FhirVersion::R5, ..self }
    }

    /// The guard configuration a request executor runs under.
    pub fn guard_config(&self) -> (r: GuardConfig)
        ensures
            r.enforce_origin == self.enforce_origin,
            opt_view(r.base_origin) == opt_view(self.base_origin),
            r.enforce_version == self.enforce_version,
            r.version == self.version,
    {
        let base_origin = match &self.base_origin {
            Some(o) => Some(o.clone()),
            None => None,
        };
        GuardConfig {
            enforce_origin: self.enforce_origin,
            base_origin,
            enforce_version: self.enforce_version,
            version: self.version,
        }
    }

    /// Begin executing a request under this client's guards, with a fresh
    /// correlation identifier at hand for tagging: the origin guard
    /// applies before any network action, and a request that fails it is
    /// born complete with the origin-mismatch error.
    pub fn execute(&self, request: HttpRequest) -> (r: (RequestExecutor, ExecAction))
        requires
            request.wf(),
        ensures
            r.0.wf(),
            r.0.config.enforce_origin == self.enforce_origin,
            r.0.config.enforce_version == self.enforce_version,
            r.0.config.version == self.version,
            opt_view(r.0.config.base_origin) == opt_view(self.base_origin),
            r.0.request.method == request.method,
            r.0.request.url == request.url,
            r.0.request.body == request.body,
            if !crate::urls::spec_origin_ok(
                self.enforce_origin,
                opt_view(self.base_origin),
                origin_of(request.url@),
            ) {
                &&& r.0.phase is Complete
                &&& r.1 is Done
                &&& (r.0.outcome matches Some(Err(Error::DifferentOrigin(u))) && u@
                    == request.url@)
            } else {
                &&& r.0.phase is Sending
                &&& r.1 is Send
                &&& header_lookup(
                    r.0.request.headers@,
                    crate::request::spec_correlation_header_name(),
                ) is Some
                &&& match header_lookup(
                    request.headers@,
                    crate::request::spec_correlation_header_name(),
                ) {
                    Some(_) => r.0.request.headers == request.headers,
                    None => true,
                }
                &&& forall|n: Seq<char>|
                    n != crate::request::spec_correlation_header_name() ==> header_lookup(
                        r.0.request.headers@,
                        n,
                    ) == header_lookup(request.headers@, n)
            },
    {
        let correlation = fresh_correlation_id();
        RequestExecutor::start(self.guard_config(), request, correlation)
    }

    /// An empty all-or-nothing group of operations.
    pub fn transaction(&self) -> (r: BatchTransaction)
        ensures
            r.wf(),
            r.mode == GroupMode::Transaction,
            r.operations@.len() == 0,
    {
        BatchTransaction::new(GroupMode::Transaction)
    }

    /// An empty independent group of operations.
    pub fn batch(&self) -> (r: BatchTransaction)
        ensures
            r.wf(),
            r.mode == GroupMode::Batch,
            r.operations@.len() == 0,
    {
        BatchTransaction::new(GroupMode::Batch)
    }
}

/// What a non-blocking probe of the credential slot saw: no capability,
/// a capability at rest, or the slot in use by an in-flight refresh.
#[derive(Debug, Clone, Copy, PartialEq, Eq, Structural)]
pub enum AuthProbe {
    Absent,
    Configured,
    Contended,
}

/// The label an introspection or debug rendering shows for the
/// credential slot. The probe never blocks: a contended slot renders as
/// a sentinel rather than waiting or failing.
pub fn auth_debug_label(probe: &AuthProbe) -> (r: &'static str)
    ensures
        r@ == match probe {
            AuthProbe::Absent => "None"@,
            AuthProbe::Configured => "Some(<login_manager>)"@,
            AuthProbe::Contended => "<blocked>"@,
        },
{
    match probe {
        AuthProbe::Absent => "None",
        AuthProbe::Configured => "Some(<login_manager>)",
        AuthProbe::Contended => "<blocked>",
    }
}

/// Builds a client; `build` validates the base URL and computes its
/// origin.
#[derive(Debug)]
pub struct ClientBuilder {
    /// The base endpoint; required.
    pub base_url: Option<String>,
    /// The protocol revision; the middle revision by default.
    pub version: FhirVersion,
    /// Whether to allow requests whose origin differs from the base
    /// origin (the guard is on by default).
    pub allow_origin_mismatch: bool,
    /// Whether to allow responses of another major version (the guard is
    /// on by default).
    pub allow_version_mismatch: bool,
    /// Whether the embedder configures a refresh capability.
    pub auth_configured: bool,
    /// The initial settings.
    pub settings: RequestSettings,
}

impl ClientBuilder {
    /// Whether this builder still holds its starting values: no base
    /// URL, the middle revision, both guards on, no refresh capability,
    /// empty settings.
    pub open spec fn is_default(&self) -> bool {
        &&& self.base_url is None
        &&& self.version == FhirVersion::R4B
        &&& !self.allow_origin_mismatch
        &&& !self.allow_version_mismatch
        &&& !self.auth_configured
        &&& self.settings.wf()
        &&& self.settings.headers@.len() == 0
        &&& self.settings.max_retries == 0
        &&& self.settings.base_delay_ms == 0
    }

    /// Set the base endpoint.
    pub fn base_url(self, base_url: String) -> (r: ClientBuilder)
        ensures
            r == (ClientBuilder { base_url: Some(base_url), ..self }),
    {
        ClientBuilder { base_url: Some(base_url), ..self }
    }

    /// Set the protocol revision.
    pub fn version(self, version: FhirVersion) -> (r: ClientBuilder)
        ensures
            r == (ClientBuilder { version, ..self }),
    {
        ClientBuilder { version, ..self }
    }

    /// Allow or reject requests whose origin leaves the base origin.
    pub fn allow_origin_mismatch(self, allow: bool) -> (r: ClientBuilder)
        ensures
            r == (ClientBuilder { allow_origin_mismatch: allow, ..self }),
    {
        ClientBuilder { allow_origin_mismatch: allow, ..self }
    }

    /// Allow or reject responses bearing another major version.
    pub fn allow_version_mismatch(self, allow: bool) -> (r: ClientBuilder)
        ensures
            r == (ClientBuilder { allow_version_mismatch: allow, ..self }),
    {
        ClientBuilder { allow_version_mismatch: allow, ..self }
    }

    /// Record whether the embedder configures a refresh capability.
    pub fn auth_configured(self, configured: bool) -> (r: ClientBuilder)
        ensures
            r == (ClientBuilder { auth_configured: configured, ..self }),
    {
        ClientBuilder { auth_configured: configured, ..self }
    }

    /// Set the initial settings.
    pub fn request_settings(self, settings: RequestSettings) -> (r: ClientBuilder)
        ensures
            r == (ClientBuilder { settings, ..self }),
    {
        ClientBuilder { settings, ..self }
    }

    /// Build the client: the base URL must be present and must parse as a
    /// URL that can carry path segments; its origin is computed once,
    /// here, and every request's origin is compared against it.
    pub fn build(self) -> (r: Result<Client, Error>)
        requires
            self.settings.wf(),
        ensures
            match r {
                Ok(c) => {
                    &&& c.wf()
                    &&& (self.base_url matches Some(u) && c.base_url@ == u@)
                    &&& joined_url_of(c.base_url@, Seq::empty()) is Some
                    &&& c.version == self.version
                    &&& c.enforce_origin == !self.allow_origin_mismatch
                    &&& c.enforce_version == !self.allow_version_mismatch
                    &&& c.auth_configured == self.auth_configured
                    &&& c.settings == self.settings
                },
                Err(e) => match self.base_url {
                    Some(u) => (e matches Error::InvalidUrl(b) && b@ == u@) && joined_url_of(
                        u@,
                        Seq::empty(),
                    ) is None,
                    None => e matches Error::InvalidUrl(b) && b@.len() == 0,
                },
            },
    {
        let base_url = match self.base_url {
            Some(u) => u,
            None => {
                return Err(Error::InvalidUrl(String::new()));
            },
        };
        let no_segments: Vec<String> = Vec::new();
        proof {
            assert(no_segments.deep_view() =~= Seq::<Seq<char>>::empty());
        }
        match join_url(base_url.as_str(), &no_segments) {
            Some(_) => {},
            None => {
                return Err(Error::InvalidUrl(base_url));
            },
        }
        let base_origin = parse_origin(base_url.as_str());
        Ok(
            Client {
                base_url,
                base_origin,
                version: self.version,
                enforce_origin: !self.allow_origin_mismatch,
                enforce_version: !self.allow_version_mismatch,
                auth_configured: self.auth_configured,
                settings: self.settings,
            },
        )
    }
}

impl Default for ClientBuilder {
    /// The starting builder: no base URL, the middle revision, both
    /// guards on, no refresh capability, empty settings.
    fn default() -> (r: ClientBuilder)
        ensures
            r.is_default(),
    {
        ClientBuilder {
            base_url: None,
            version: FhirVersion::R4B,
            allow_origin_mismatch: false,
            allow_version_mismatch: false,
            auth_configured: false,
            settings: RequestSettings::new(),
        }
    }
}

} // verus!
