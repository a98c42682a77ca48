//! The policy client: its configuration, the preparation of a request and
//! the decision taken on the backend's reply.
use vstd::prelude::*;
use crate::mode::{mode_from_text, normalized_mode_text, ConfigError, PolicyMode};
use crate::request::{AuthorizationRequest, AuthorizationRequestView};
use crate::request_id::{fresh_request_id, is_v4_uuid_text};
use crate::text::{is_blank, parse_u64, parse_u64_text, text_eq, trim, trim_str};

verus! {

/// A configured policy client.
pub struct PolicyClient {
    mode: PolicyMode,
    endpoint: String,
    service_token: String,
    instance_id: String,
    timeout_ms: u64,
}

/// The content of a [`PolicyClient`].
pub struct PolicyClientView {
    pub mode: PolicyMode,
    pub endpoint: Seq<char>,
    pub service_token: Seq<char>,
    pub instance_id: Seq<char>,
    pub timeout_ms: u64,
}

/// What every configured client satisfies: a positive timeout, and a
/// non-empty service token whenever the policy is consulted.
pub open spec fn client_well_formed(c: PolicyClientView) -> bool {
    &&& c.timeout_ms > 0
    &&& c.mode != PolicyMode::Off ==> c.service_token.len() > 0
}

impl View for PolicyClient {
    type V = PolicyClientView;

    closed spec fn view(&self) -> PolicyClientView {
        PolicyClientView {
            mode: self.mode,
            endpoint: self.endpoint@,
            service_token: self.service_token@,
            instance_id: self.instance_id@,
            timeout_ms: self.timeout_ms,
        }
    }
}

/// The raw configuration values; `None` where a variable is unset.
pub struct PolicySettings {
    pub mode: Option<String>,
    pub endpoint: Option<String>,
    pub instance_id: Option<String>,
    pub timeout_ms: Option<String>,
    pub service_token_file: Option<String>,
}

/// A configuration that consults the policy and still needs the contents of
/// its service token file.
pub struct PendingPolicyClient {
    mode: PolicyMode,
    endpoint: String,
    instance_id: String,
    timeout_ms: u64,
    service_token_file: String,
}

/// The content of a [`PendingPolicyClient`].
pub struct PendingPolicyClientView {
    pub mode: PolicyMode,
    pub endpoint: Seq<char>,
    pub instance_id: Seq<char>,
    pub timeout_ms: u64,
    pub service_token_file: Seq<char>,
}

/// What every pending configuration satisfies.
pub open spec fn pending_well_formed(p: PendingPolicyClientView) -> bool {
    &&& p.mode != PolicyMode::Off
    &&& p.timeout_ms > 0
    &&& trim(p.service_token_file).len() > 0
}

impl View for PendingPolicyClient {
    type V = PendingPolicyClientView;

    closed spec fn view(&self) -> PendingPolicyClientView {
        PendingPolicyClientView {
            mode: self.mode,
            endpoint: self.endpoint@,
            instance_id: self.instance_id@,
            timeout_ms: self.timeout_ms,
            service_token_file: self.service_token_file@,
        }
    }
}

/// Where reading the configuration stands after the settings are checked.
pub enum ConfigStep {
    /// The client is complete (the policy is off and needs no token).
    Ready(PolicyClient),
    /// The service token file named in the pending configuration must be read.
    ReadServiceToken(PendingPolicyClient),
}

/// The policy endpoint used when none is configured.
pub open spec fn default_endpoint() -> Seq<char> {
    "http://127.0.0.1:8081/internal/v1/connection-authorizations"@
}

/// The server instance name used when none is configured.
pub open spec fn default_instance_id() -> Seq<char> {
    "hbbs-1"@
}

/// The timeout text used when none is configured.
pub open spec fn default_timeout_text() -> Seq<char> {
    "300"@
}

/// A configured value, or the default where it is unset.
pub open spec fn text_or(value: Option<String>, default: Seq<char>) -> Seq<char> {
    match value {
        Some(s) => s@,
        None => default,
    }
}

/// What checking the settings gives, before any service token file is read.
pub open spec fn settings_step_ok(s: PolicySettings, r: Result<ConfigStep, ConfigError>) -> bool {
    let mode_text = text_or(s.mode, Seq::empty());
    let endpoint = text_or(s.endpoint, default_endpoint());
    let instance_id = text_or(s.instance_id, default_instance_id());
    let timeout_text = text_or(s.timeout_ms, default_timeout_text());
    let token_file = text_or(s.service_token_file, Seq::empty());
    match mode_from_text(mode_text) {
        None => r matches Err(ConfigError::InvalidMode(v)) && v@ == normalized_mode_text(mode_text),
        Some(mode) => match parse_u64_text(timeout_text) {
            None => r matches Err(ConfigError::TimeoutNotInteger),
            Some(t) => if t == 0 {
                r matches Err(ConfigError::TimeoutNotPositive)
            } else if mode == PolicyMode::Off {
                r matches Ok(ConfigStep::Ready(c)) && c@ == (PolicyClientView {
                    mode: PolicyMode::Off,
                    endpoint: endpoint,
                    service_token: Seq::empty(),
                    instance_id: instance_id,
                    timeout_ms: t,
                })
            } else if trim(token_file).len() == 0 {
                r matches Err(ConfigError::TokenFileRequired)
            } else {
                r matches Ok(ConfigStep::ReadServiceToken(p)) && p@ == (PendingPolicyClientView {
                    mode: mode,
                    endpoint: endpoint,
                    instance_id: instance_id,
                    timeout_ms: t,
                    service_token_file: token_file,
                })
            },
        },
    }
}

fn text_or_default(value: Option<String>, default: &str) -> (r: String)
    ensures
        r@ == text_or(value, default@),
{
    match value {
        Some(s) => s,
        None => default.to_owned(),
    }
}

/// The backend's answer to a request that reached it and was understood.
pub struct PolicyDecision {
    pub decision_id: String,
    pub decision: String,
    pub reason_code: String,
}

/// What came back from asking the backend.
pub enum PolicyReply {
    /// A well-formed answer.
    Decision(PolicyDecision),
    /// The request failed, timed out, got an HTTP error status or an invalid
    /// body; holds a description of the failure.
    Unavailable(String),
}

/// The content of a [`PolicyReply`].
pub enum PolicyReplyView {
    Decision { decision_id: Seq<char>, decision: Seq<char>, reason_code: Seq<char> },
    Unavailable(Seq<char>),
}

impl View for PolicyReply {
    type V = PolicyReplyView;

    open spec fn view(&self) -> PolicyReplyView {
        match self {
            PolicyReply::Decision(d) => PolicyReplyView::Decision {
                decision_id: d.decision_id@,
                decision: d.decision@,
                reason_code: d.reason_code@,
            },
            PolicyReply::Unavailable(e) => PolicyReplyView::Unavailable(e@),
        }
    }
}

/// How a request was settled.
#[derive(Clone, Copy, Debug, PartialEq, Eq, Structural)]
pub enum AuthorizationOutcome {
    /// The policy is off; nothing was asked.
    Bypassed,
    /// The backend allowed the request.
    Allowed,
    /// The backend denied the request, which observe mode lets pass.
    WouldDeny,
    /// The backend denied the request in enforce mode.
    Denied,
    /// The backend could not be used, which observe mode lets pass.
    UnavailableObserved,
    /// The backend could not be used in enforce mode: failing closed.
    UnavailableFailedClosed,
}

/// Whether a reply is an explicit allow.
pub open spec fn is_allow(reply: PolicyReplyView) -> bool {
    reply matches PolicyReplyView::Decision { decision, .. } && decision == "allow"@
}

/// The outcome of a reply under a mode.
pub open spec fn outcome_of(mode: PolicyMode, reply: PolicyReplyView) -> AuthorizationOutcome {
    match mode {
        PolicyMode::Off => AuthorizationOutcome::Bypassed,
        PolicyMode::Observe => match reply {
            PolicyReplyView::Decision { .. } => if is_allow(reply) {
                AuthorizationOutcome::Allowed
            } else {
                AuthorizationOutcome::WouldDeny
            },
            PolicyReplyView::Unavailable(_) => AuthorizationOutcome::UnavailableObserved,
        },
        PolicyMode::Enforce => match reply {
            PolicyReplyView::Decision { .. } => if is_allow(reply) {
                AuthorizationOutcome::Allowed
            } else {
                AuthorizationOutcome::Denied
            },
            PolicyReplyView::Unavailable(_) => AuthorizationOutcome::UnavailableFailedClosed,
        },
    }
}

/// Whether an outcome lets the connection request go on.
pub open spec fn permits(o: AuthorizationOutcome) -> bool {
    match o {
        AuthorizationOutcome::Denied | AuthorizationOutcome::UnavailableFailedClosed => false,
        _ => true,
    }
}

impl AuthorizationOutcome {
    /// Whether this outcome lets the connection request go on.
    pub fn is_permitted(&self) -> (b: bool)
        ensures
            b == permits(*self),
    {
        match self {
            AuthorizationOutcome::Denied | AuthorizationOutcome::UnavailableFailedClosed => false,
            _ => true,
        }
    }
}

/// Whether an HTTP status code is a success (200 to 299), the only statuses
/// whose body is read as a decision.
pub fn status_is_success(code: u16) -> (b: bool)
    ensures
        b == (200 <= code < 300),
{
    200 <= code && code < 300
}

impl PolicyClient {
    #[verifier::type_invariant]
    spec fn inv(&self) -> bool {
        client_well_formed(self@)
    }

    /// Checks the configuration values, in the order: mode, timeout, token file.
    pub fn from_settings(settings: PolicySettings) -> (r: Result<ConfigStep, ConfigError>)
        ensures
            settings_step_ok(settings, r),
            r matches Ok(ConfigStep::Ready(c)) ==> client_well_formed(c@),
            r matches Ok(ConfigStep::ReadServiceToken(p)) ==> pending_well_formed(p@),
    {
        proof {
            reveal_strlit("");
        }
        let PolicySettings { mode, endpoint, instance_id, timeout_ms, service_token_file } =
            settings;
        let mode_text = text_or_default(mode, "");
        let mode = match PolicyMode::parse(mode_text.as_str()) {
            Ok(m) => m,
            Err(e) => {
                return Err(e);
            },
        };
        let endpoint = text_or_default(
            endpoint,
            "http://127.0.0.1:8081/internal/v1/connection-authorizations",
        );
        let instance_id = text_or_default(instance_id, "hbbs-1");
        let timeout_text = text_or_default(timeout_ms, "300");
        let timeout_ms = match parse_u64(timeout_text.as_str()) {
            Some(t) => t,
            None => {
                return Err(ConfigError::TimeoutNotInteger);
            },
        };
        if timeout_ms == 0 {
            return Err(ConfigError::TimeoutNotPositive);
        }
        let token_file = text_or_default(service_token_file, "");
        if mode == PolicyMode::Off {
            Ok(
                ConfigStep::Ready(
                    PolicyClient {
                        mode,
                        endpoint,
                        service_token: String::new(),
                        instance_id,
                        timeout_ms,
                    },
                ),
            )
        } else if is_blank(token_file.as_str()) {
            Err(ConfigError::TokenFileRequired)
        } else {
            Ok(
                ConfigStep::ReadServiceToken(
                    PendingPolicyClient {
                        mode,
                        endpoint,
                        instance_id,
                        timeout_ms,
                        service_token_file: token_file,
                    },
                ),
            )
        }
    }

    /// The configured mode.
    pub fn mode(&self) -> (m: PolicyMode)
        ensures
            m == self@.mode,
    {
        self.mode
    }

    /// The policy endpoint URL.
    pub fn endpoint(&self) -> (e: &str)
        ensures
            e@ == self@.endpoint,
    {
        self.endpoint.as_str()
    }

    /// The bearer token presented to the backend.
    pub fn service_token(&self) -> (t: &str)
        ensures
            t@ == self@.service_token,
            self@.mode != PolicyMode::Off ==> t@.len() > 0,
    {
        proof {
            use_type_invariant(self);
        }
        self.service_token.as_str()
    }

    /// The name of this server instance.
    pub fn instance_id(&self) -> (i: &str)
        ensures
            i@ == self@.instance_id,
    {
        self.instance_id.as_str()
    }

    /// The request timeout in milliseconds.
    pub fn timeout_ms(&self) -> (t: u64)
        ensures
            t == self@.timeout_ms,
            t > 0,
    {
        proof {
            use_type_invariant(self);
        }
        self.timeout_ms
    }

    /// Whether the hook is bypassed (mode off, break-glass).
    pub fn is_break_glass(&self) -> (b: bool)
        ensures
            b == (self@.mode == PolicyMode::Off),
    {
        self.mode == PolicyMode::Off
    }

    /// Prepares a request for sending: `None` when the policy is off (nothing
    /// is sent and the request passes), otherwise the request with a fresh
    /// random id and this server's instance name; nothing else changes.
    pub fn begin(&self, request: AuthorizationRequest) -> (r: Option<AuthorizationRequest>)
        ensures
            self@.mode == PolicyMode::Off <==> r is None,
            r matches Some(p) ==> (is_v4_uuid_text(p@.request_id) && p@ == (
            AuthorizationRequestView {
                request_id: p@.request_id,
                hbbs_instance: self@.instance_id,
                ..request@
            })),
    {
        if self.mode == PolicyMode::Off {
            return None;
        }
        let id = fresh_request_id();
        let instance = self.instance_id.clone();
        Some(request.stamp(id, instance))
    }

    /// The outcome of the backend's reply under this client's mode.
    pub fn decide(&self, reply: &PolicyReply) -> (o: AuthorizationOutcome)
        ensures
            o == outcome_of(self@.mode, reply@),
    {
        match self.mode {
            PolicyMode::Off => AuthorizationOutcome::Bypassed,
            PolicyMode::Observe => match reply {
                PolicyReply::Decision(d) => if text_eq(d.decision.as_str(), "allow") {
                    AuthorizationOutcome::Allowed
                } else {
                    AuthorizationOutcome::WouldDeny
                },
                PolicyReply::Unavailable(_) => AuthorizationOutcome::UnavailableObserved,
            },
            PolicyMode::Enforce => match reply {
                PolicyReply::Decision(d) => if text_eq(d.decision.as_str(), "allow") {
                    AuthorizationOutcome::Allowed
                } else {
                    AuthorizationOutcome::Denied
                },
                PolicyReply::Unavailable(_) => AuthorizationOutcome::UnavailableFailedClosed,
            },
        }
    }
}

impl PendingPolicyClient {
    #[verifier::type_invariant]
    spec fn inv(&self) -> bool {
        pending_well_formed(self@)
    }

    /// The path of the service token file to read.
    pub fn service_token_file(&self) -> (f: &str)
        ensures
            f@ == self@.service_token_file,
    {
        self.service_token_file.as_str()
    }

    /// Completes the configuration with the contents of the service token
    /// file; the token is the trimmed contents, which must not be blank.
    pub fn with_service_token(self, contents: String) -> (r: Result<PolicyClient, ConfigError>)
        ensures
            trim(contents@).len() == 0 ==> r matches Err(ConfigError::EmptyServiceToken),
            trim(contents@).len() > 0 ==> (r matches Ok(c) && c@ == (PolicyClientView {
                mode: self@.mode,
                endpoint: self@.endpoint,
                service_token: trim(contents@),
                instance_id: self@.instance_id,
                timeout_ms: self@.timeout_ms,
            })),
            r matches Ok(c) ==> client_well_formed(c@),
    {
        proof {
            use_type_invariant(&self);
        }
        let token = trim_str(contents.as_str()).to_owned();
        if token.as_str().unicode_len() == 0 {
            return Err(ConfigError::EmptyServiceToken);
        }
        let PendingPolicyClient { mode, endpoint, instance_id, timeout_ms, service_token_file: _ } =
            self;
        Ok(PolicyClient { mode, endpoint, service_token: token, instance_id, timeout_ms })
    }
}

} // verus!
