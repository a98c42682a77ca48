//! Verified decision logic of the connection-authorization policy hook of a
//! rendezvous server: configuration checking, request construction, the
//! request body and the allow/deny decision on the backend's reply.
pub mod text;
pub mod mode;
pub mod request;
pub mod request_id;
pub mod client;
pub mod laws;

pub use client::{
    status_is_success, AuthorizationOutcome, ConfigStep, PendingPolicyClient, PolicyClient,
    PolicyDecision, PolicyReply, PolicySettings,
};
pub use mode::{ConfigError, PolicyMode};
pub use request::{connection_type, request, AuthorizationRequest, BodyField, BodyValue};
