//! The policy mode and the errors of the policy configuration.
use vstd::prelude::*;
use crate::text::{ascii_lower_text, ascii_lowercase, text_eq, trim, trim_str};

verus! {

/// How the policy hook treats connection requests.
#[derive(Clone, Copy, Debug, PartialEq, Eq, Structural)]
pub enum PolicyMode {
    /// No policy call; every request passes (break-glass).
    Off,
    /// The policy is asked, but denials and failures are only reported.
    Observe,
    /// The policy is asked; anything but an explicit allow rejects the request.
    Enforce,
}

/// Why a policy configuration is refused.
#[derive(Debug)]
pub enum ConfigError {
    /// `POLICY_MODE` is none of `off`, `observe`, `enforce` (or empty);
    /// holds the trimmed, ASCII-lowercased value.
    InvalidMode(String),
    /// `POLICY_TIMEOUT_MS` is not an unsigned integer.
    TimeoutNotInteger,
    /// `POLICY_TIMEOUT_MS` is zero.
    TimeoutNotPositive,
    /// Observe or enforce mode without `POLICY_SERVICE_TOKEN_FILE`.
    TokenFileRequired,
    /// Observe or enforce mode whose service token file holds only whitespace.
    EmptyServiceToken,
}

/// The text that a mode value is matched by: trimmed, then ASCII-lowercased.
pub open spec fn normalized_mode_text(value: Seq<char>) -> Seq<char> {
    ascii_lower_text(trim(value))
}

/// The mode that a configuration value names, if any.
pub open spec fn mode_from_text(value: Seq<char>) -> Option<PolicyMode> {
    let n = normalized_mode_text(value);
    if n.len() == 0 || n == "off"@ {
        Some(PolicyMode::Off)
    } else if n == "observe"@ {
        Some(PolicyMode::Observe)
    } else if n == "enforce"@ {
        Some(PolicyMode::Enforce)
    } else {
        None
    }
}

impl PolicyMode {
    /// Reads a mode from its configuration text, ignoring surrounding whitespace
    /// and ASCII case; the empty text means `Off`.
    pub fn parse(value: &str) -> (r: Result<PolicyMode, ConfigError>)
        ensures
            match mode_from_text(value@) {
                Some(m) => r == Ok::<PolicyMode, ConfigError>(m),
                None => r matches Err(ConfigError::InvalidMode(v)) && v@ == normalized_mode_text(
                    value@,
                ),
            },
    {
        let trimmed = trim_str(value);
        let lowered = ascii_lowercase(trimmed);
        let l = lowered.as_str();
        if l.unicode_len() == 0 || text_eq(l, "off") {
            Ok(PolicyMode::Off)
        } else if text_eq(l, "observe") {
            Ok(PolicyMode::Observe)
        } else if text_eq(l, "enforce") {
            Ok(PolicyMode::Enforce)
        } else {
            Err(ConfigError::InvalidMode(lowered))
        }
    }
}

} // verus!
