//! Properties of the policy hook that hold across all inputs.
use vstd::prelude::*;
use crate::client::{
    is_allow, outcome_of, permits, settings_step_ok, AuthorizationOutcome, ConfigStep,
    PolicyReplyView, PolicySettings,
};
use crate::mode::ConfigError;
use crate::request::{body_of, connection_type_name, AuthorizationRequestView, BodyValueView};
use crate::mode::{mode_from_text, normalized_mode_text, PolicyMode};
use crate::text::{ascii_lower, ascii_lower_text, is_white_space, trim, trim_end, trim_start};

verus! {

/// With the policy off every request passes and the backend's reply plays no part.
pub proof fn law_off_bypasses(reply: PolicyReplyView)
    ensures
        outcome_of(PolicyMode::Off, reply) == AuthorizationOutcome::Bypassed,
        permits(outcome_of(PolicyMode::Off, reply)),
{
}

/// A reply is bypassed exactly when the policy is off, which is exactly when
/// `PolicyClient::begin` prepares nothing to send.
pub proof fn law_bypassed_exactly_when_off(mode: PolicyMode, reply: PolicyReplyView)
    ensures
        (outcome_of(mode, reply) == AuthorizationOutcome::Bypassed) <==> mode == PolicyMode::Off,
{
}

/// Observe mode never rejects: denials and backend failures are only reported.
pub proof fn law_observe_never_rejects(reply: PolicyReplyView)
    ensures
        permits(outcome_of(PolicyMode::Observe, reply)),
{
}

/// Enforce mode fails closed: a request passes exactly when the backend
/// answered with an explicit allow; a deny, a timeout, a connection failure,
/// an HTTP error or an invalid answer all reject it.
pub proof fn law_enforce_fails_closed(reply: PolicyReplyView)
    ensures
        permits(outcome_of(PolicyMode::Enforce, reply)) <==> is_allow(reply),
{
}

/// An explicit allow lets the request pass in every mode.
pub proof fn law_allow_passes_in_every_mode(mode: PolicyMode, reply: PolicyReplyView)
    requires
        is_allow(reply),
    ensures
        permits(outcome_of(mode, reply)),
{
}

/// Observe mode is never stricter than enforce mode.
pub proof fn law_observe_no_stricter_than_enforce(reply: PolicyReplyView)
    ensures
        permits(outcome_of(PolicyMode::Enforce, reply)) ==> permits(
            outcome_of(PolicyMode::Observe, reply),
        ),
{
}

proof fn lemma_lower_char(c: char)
    ensures
        is_white_space(ascii_lower(c)) == is_white_space(c),
        ascii_lower(ascii_lower(c)) == ascii_lower(c),
{
    let n = c as u32;
    if 65 <= n <= 90 {
        let l = ((n + 32) as u32) as char;
        assert(l as u32 == n + 32);
    }
}

proof fn lemma_trim_start_lower(s: Seq<char>)
    ensures
        trim_start(ascii_lower_text(s)) == ascii_lower_text(trim_start(s)),
    decreases s.len(),
{
    let l = ascii_lower_text(s);
    if s.len() > 0 {
        lemma_lower_char(s[0]);
        if is_white_space(s[0]) {
            assert(l.drop_first() =~= ascii_lower_text(s.drop_first()));
            lemma_trim_start_lower(s.drop_first());
        }
    }
}

proof fn lemma_trim_end_lower(s: Seq<char>)
    ensures
        trim_end(ascii_lower_text(s)) == ascii_lower_text(trim_end(s)),
    decreases s.len(),
{
    let l = ascii_lower_text(s);
    if s.len() > 0 {
        lemma_lower_char(s.last());
        if is_white_space(s.last()) {
            assert(l.drop_last() =~= ascii_lower_text(s.drop_last()));
            lemma_trim_end_lower(s.drop_last());
        }
    }
}

proof fn lemma_lower_idempotent(s: Seq<char>)
    ensures
        ascii_lower_text(ascii_lower_text(s)) == ascii_lower_text(s),
{
    assert forall|i: int| 0 <= i < s.len() implies #[trigger] ascii_lower_text(
        ascii_lower_text(s),
    )[i] == ascii_lower_text(s)[i] by {
        lemma_lower_char(s[i]);
    }
    assert(ascii_lower_text(ascii_lower_text(s)) =~= ascii_lower_text(s));
}

/// The mode named by a configuration value does not depend on the ASCII case
/// of the value.
pub proof fn law_mode_ignores_ascii_case(value: Seq<char>)
    ensures
        mode_from_text(ascii_lower_text(value)) == mode_from_text(value),
        normalized_mode_text(ascii_lower_text(value)) == normalized_mode_text(value),
{
    lemma_trim_start_lower(value);
    lemma_trim_end_lower(trim_start(value));
    lemma_lower_idempotent(trim(value));
}

proof fn lemma_trim_start_of_trimmed_start(s: Seq<char>)
    ensures
        trim_start(trim_start(s)) == trim_start(s),
        trim_start(s).len() > 0 ==> !is_white_space(trim_start(s)[0]),
    decreases s.len(),
{
    if s.len() > 0 && is_white_space(s[0]) {
        lemma_trim_start_of_trimmed_start(s.drop_first());
    }
}

proof fn lemma_trim_end_keeps_start(s: Seq<char>)
    requires
        s.len() > 0 ==> !is_white_space(s[0]),
    ensures
        trim_start(trim_end(s)) == trim_end(s),
        trim_end(trim_end(s)) == trim_end(s),
    decreases s.len(),
{
    if s.len() > 0 && is_white_space(s.last()) {
        let t = s.drop_last();
        if t.len() > 0 {
            assert(t[0] == s[0]);
        }
        lemma_trim_end_keeps_start(t);
    }
}

/// Surrounding whitespace in a configuration value does not change the mode it names.
pub proof fn law_mode_ignores_surrounding_whitespace(value: Seq<char>)
    ensures
        trim(trim(value)) == trim(value),
        mode_from_text(trim(value)) == mode_from_text(value),
{
    lemma_trim_start_of_trimmed_start(value);
    lemma_trim_end_keeps_start(trim_start(value));
}


/// The configured endpoint and server instance are the ones used: a value
/// that is set is taken as it is, and the default only stands in for an
/// unset one. The same holds of the service token file of a pending
/// configuration.
pub proof fn law_settings_use_configured_values(
    s: PolicySettings,
    r: Result<ConfigStep, ConfigError>,
)
    requires
        settings_step_ok(s, r),
    ensures
        s.endpoint matches Some(e) ==> (r matches Ok(ConfigStep::Ready(c)) ==> c@.endpoint == e@),
        s.endpoint matches Some(e) ==> (r matches Ok(ConfigStep::ReadServiceToken(p))
            ==> p@.endpoint == e@),
        s.endpoint is None ==> (r matches Ok(ConfigStep::Ready(c)) ==> c@.endpoint
            == "http://127.0.0.1:8081/internal/v1/connection-authorizations"@),
        s.endpoint is None ==> (r matches Ok(ConfigStep::ReadServiceToken(p)) ==> p@.endpoint
            == "http://127.0.0.1:8081/internal/v1/connection-authorizations"@),
        s.instance_id matches Some(i) ==> (r matches Ok(ConfigStep::Ready(c)) ==> c@.instance_id
            == i@),
        s.instance_id matches Some(i) ==> (r matches Ok(ConfigStep::ReadServiceToken(p))
            ==> p@.instance_id == i@),
        s.instance_id is None ==> (r matches Ok(ConfigStep::Ready(c)) ==> c@.instance_id
            == "hbbs-1"@),
        s.instance_id is None ==> (r matches Ok(ConfigStep::ReadServiceToken(p))
            ==> p@.instance_id == "hbbs-1"@),
        s.service_token_file matches Some(f) ==> (r matches Ok(ConfigStep::ReadServiceToken(p))
            ==> p@.service_token_file == f@),
{
}

/// Whether `body` has a member `name` holding `value`.
pub open spec fn has_member(
    body: Seq<(Seq<char>, BodyValueView)>,
    name: Seq<char>,
    value: BodyValueView,
) -> bool {
    exists|i: int| 0 <= i < body.len() && body[i] == (name, value)
}

/// Whether `body` has a member called `name` at all.
pub open spec fn has_member_named(body: Seq<(Seq<char>, BodyValueView)>, name: Seq<char>) -> bool {
    exists|i: int| 0 <= i < body.len() && #[trigger] body[i].0 == name
}

/// No two members of `body` share a name.
pub open spec fn member_names_unique(body: Seq<(Seq<char>, BodyValueView)>) -> bool {
    forall|i: int, j: int|
        0 <= i < body.len() && 0 <= j < body.len() && i != j ==> #[trigger] body[i].0 != #[trigger] body[j].0
}

/// Every member of the request body that is named after a request field
/// holds that field's value, no name occurs twice (so a reader finds that
/// value under the name), the two optional members appear exactly when their
/// field is non-empty, and no requester device UUID is ever sent.
pub proof fn law_body_members_hold_their_fields(r: AuthorizationRequestView)
    ensures
        member_names_unique(body_of(r)),
        has_member(body_of(r), "request_id"@, BodyValueView::Text(r.request_id)),
        has_member(body_of(r), "request_kind"@, BodyValueView::Text(r.request_kind)),
        has_member(body_of(r), "access_token"@, BodyValueView::Text(r.access_token)),
        has_member(body_of(r), "requester_ip"@, BodyValueView::Text(r.requester_ip)),
        has_member(body_of(r), "target_rustdesk_id"@, BodyValueView::Text(r.target_rustdesk_id)),
        has_member(body_of(r), "connection_type"@, BodyValueView::Text(r.connection_type)),
        has_member(body_of(r), "relay_requested"@, BodyValueView::Flag(r.relay_requested)),
        has_member(body_of(r), "hbbs_instance"@, BodyValueView::Text(r.hbbs_instance)),
        r.requester_rustdesk_id.len() > 0 ==> has_member(
            body_of(r),
            "requester_rustdesk_id"@,
            BodyValueView::Text(r.requester_rustdesk_id),
        ),
        r.requester_rustdesk_id.len() == 0 ==> !has_member_named(
            body_of(r),
            "requester_rustdesk_id"@,
        ),
        r.relay_request_uuid.len() > 0 ==> has_member(
            body_of(r),
            "relay_request_uuid"@,
            BodyValueView::Text(r.relay_request_uuid),
        ),
        r.relay_request_uuid.len() == 0 ==> !has_member_named(body_of(r), "relay_request_uuid"@),
        !has_member_named(body_of(r), "requester_uuid"@),
{
    reveal_strlit("request_id");
    reveal_strlit("request_kind");
    reveal_strlit("access_token");
    reveal_strlit("requester_rustdesk_id");
    reveal_strlit("relay_request_uuid");
    reveal_strlit("requester_ip");
    reveal_strlit("target_rustdesk_id");
    reveal_strlit("connection_type");
    reveal_strlit("relay_requested");
    reveal_strlit("hbbs_instance");
    reveal_strlit("requester_uuid");
    let b = body_of(r);
    let k: int = if r.requester_rustdesk_id.len() == 0 { 0 } else { 1 };
    let m: int = if r.relay_request_uuid.len() == 0 { 0 } else { 1 };
    assert(b.len() == 8 + k + m);
    assert(b[0] == ("request_id"@, BodyValueView::Text(r.request_id)));
    assert(b[1] == ("request_kind"@, BodyValueView::Text(r.request_kind)));
    assert(b[2] == ("access_token"@, BodyValueView::Text(r.access_token)));
    if k == 1 {
        assert(b[3] == ("requester_rustdesk_id"@, BodyValueView::Text(r.requester_rustdesk_id)));
    }
    if m == 1 {
        assert(b[3 + k] == ("relay_request_uuid"@, BodyValueView::Text(r.relay_request_uuid)));
    }
    let t = 3 + k + m;
    assert(b[t] == ("requester_ip"@, BodyValueView::Text(r.requester_ip)));
    assert(b[t + 1] == ("target_rustdesk_id"@, BodyValueView::Text(r.target_rustdesk_id)));
    assert(b[t + 2] == ("connection_type"@, BodyValueView::Text(r.connection_type)));
    assert(b[t + 3] == ("relay_requested"@, BodyValueView::Flag(r.relay_requested)));
    assert(b[t + 4] == ("hbbs_instance"@, BodyValueView::Text(r.hbbs_instance)));
    // The names differ pairwise: by length, or by a character.
    assert forall|i: int, j: int|
        0 <= i < b.len() && 0 <= j < b.len() && i != j implies #[trigger] b[i].0
        != #[trigger] b[j].0 by {
        if b[i].0 == b[j].0 {
            assert(b[i].0.len() == b[j].0.len());
            assert(b[i].0[0] == b[j].0[0]);
            assert(b[i].0[b[i].0.len() - 1] == b[j].0[b[j].0.len() - 1]);
            assert(b[i].0[8] == b[j].0[8]);
        }
    }
    assert forall|i: int| 0 <= i < b.len() implies #[trigger] b[i].0 != "requester_uuid"@ by {
        assert("requester_uuid"@.len() == 14);
    }
    if k == 0 {
        assert forall|i: int| 0 <= i < b.len() implies #[trigger] b[i].0
            != "requester_rustdesk_id"@ by {
            let n = "requester_rustdesk_id"@;
            if b[i].0 == n {
                assert(b[i].0.len() == n.len());
                assert(b[i].0[0] == n[0]);
                assert(b[i].0[n.len() - 1] == n[n.len() - 1]);
                assert(b[i].0[8] == n[8]);
            }
        }
    }
    if m == 0 {
        assert forall|i: int| 0 <= i < b.len() implies #[trigger] b[i].0
            != "relay_request_uuid"@ by {
            let n = "relay_request_uuid"@;
            if b[i].0 == n {
                assert(b[i].0.len() == n.len());
                assert(b[i].0[0] == n[0]);
                assert(b[i].0[n.len() - 1] == n[n.len() - 1]);
                assert(b[i].0[8] == n[8]);
            }
        }
    }
}

/// In enforce mode a backend that answered and did not allow gives a denial,
/// and the request is reported as failing closed for an unavailable backend
/// only; in observe mode the same answers are reported as would-deny and
/// observed unavailability. An "allow" answer is allowed in both modes.
pub proof fn law_decision_kinds(mode: PolicyMode, reply: PolicyReplyView)
    ensures
        (reply matches PolicyReplyView::Decision { decision, .. } && decision == "allow"@) ==> (
        mode != PolicyMode::Off ==> outcome_of(mode, reply) == AuthorizationOutcome::Allowed),
        (reply matches PolicyReplyView::Decision { decision, .. } && decision != "allow"@) ==> (
        mode == PolicyMode::Enforce ==> outcome_of(mode, reply) == AuthorizationOutcome::Denied),
        (reply matches PolicyReplyView::Decision { decision, .. } && decision != "allow"@) ==> (
        mode == PolicyMode::Observe ==> outcome_of(mode, reply)
            == AuthorizationOutcome::WouldDeny),
        (outcome_of(mode, reply) == AuthorizationOutcome::UnavailableFailedClosed) <==> (mode
            == PolicyMode::Enforce && reply is Unavailable),
        (outcome_of(mode, reply) == AuthorizationOutcome::UnavailableObserved) <==> (mode
            == PolicyMode::Observe && reply is Unavailable),
        (outcome_of(mode, reply) == AuthorizationOutcome::Denied) ==> mode == PolicyMode::Enforce
            && reply is Decision,
        (outcome_of(mode, reply) == AuthorizationOutcome::WouldDeny) ==> mode == PolicyMode::Observe
            && reply is Decision,
{
}

/// The Unicode `White_Space` characters, the ones `str::trim` removes.
pub open spec fn unicode_white_space(c: char) -> bool {
    ||| c == '\t' || c == '\n' || c == '\u{b}' || c == '\u{c}' || c == '\r' || c == ' '
    ||| c == '\u{85}' || c == '\u{a0}' || c == '\u{1680}'
    ||| c == '\u{2000}' || c == '\u{2001}' || c == '\u{2002}' || c == '\u{2003}'
    ||| c == '\u{2004}' || c == '\u{2005}' || c == '\u{2006}' || c == '\u{2007}'
    ||| c == '\u{2008}' || c == '\u{2009}' || c == '\u{200a}'
    ||| c == '\u{2028}' || c == '\u{2029}' || c == '\u{202f}' || c == '\u{205f}'
    ||| c == '\u{3000}'
}

proof fn lemma_trim_start_push(s: Seq<char>, c: char)
    ensures
        trim_start(s.push(c)) == if trim_start(s).len() == 0 {
            trim_start(seq![c])
        } else {
            trim_start(s).push(c)
        },
    decreases s.len(),
{
    if s.len() == 0 {
        assert(s.push(c) =~= seq![c]);
    } else {
        assert(s.push(c)[0] == s[0]);
        if is_white_space(s[0]) {
            assert(s.push(c).drop_first() =~= s.drop_first().push(c));
            lemma_trim_start_push(s.drop_first(), c);
        }
    }
}

/// Trimming treats exactly the Unicode `White_Space` characters as
/// whitespace: one of them at either end of a text is removed (so a token
/// file ending in "\r\n" gives the token without them), and any other
/// character alone is kept.
pub proof fn law_trim_removes_unicode_white_space(s: Seq<char>, c: char)
    ensures
        unicode_white_space(c) ==> trim(s.push(c)) == trim(s),
        unicode_white_space(c) ==> trim(seq![c] + s) == trim(s),
        !unicode_white_space(c) ==> trim(seq![c]) == seq![c],
{
    let one = seq![c];
    if unicode_white_space(c) {
        assert(is_white_space(c));
        lemma_trim_start_push(s, c);
        assert(trim_start(one) == trim_start(one.drop_first()));
        assert(one.drop_first() =~= Seq::<char>::empty());
        if trim_start(s).len() > 0 {
            assert(trim_start(s).push(c).drop_last() =~= trim_start(s));
        }
        assert((one + s).drop_first() =~= s);
    } else {
        assert(!is_white_space(c));
        assert(one.last() == c);
    }
}

/// Connection type codes 1 to 4 have their own names, each named by one code
/// only; every other code is a remote desktop session.
pub proof fn law_connection_type_names(v: i32)
    ensures
        (v < 1 || v > 4) ==> connection_type_name(v) == "remote_desktop"@,
        connection_type_name(v) == "file_transfer"@ <==> v == 1,
        connection_type_name(v) == "port_forward"@ <==> v == 2,
        connection_type_name(v) == "rdp"@ <==> v == 3,
        connection_type_name(v) == "view_camera"@ <==> v == 4,
        connection_type_name(v) == "remote_desktop"@ <==> (v < 1 || v > 4),
{
    reveal_strlit("file_transfer");
    reveal_strlit("port_forward");
    reveal_strlit("rdp");
    reveal_strlit("view_camera");
    reveal_strlit("remote_desktop");
    if connection_type_name(v) == "file_transfer"@ {
        assert(connection_type_name(v).len() == 13);
    }
    if connection_type_name(v) == "port_forward"@ {
        assert(connection_type_name(v).len() == 12);
    }
    if connection_type_name(v) == "rdp"@ {
        assert(connection_type_name(v).len() == 3);
    }
    if connection_type_name(v) == "view_camera"@ {
        assert(connection_type_name(v).len() == 11);
    }
    if connection_type_name(v) == "remote_desktop"@ {
        assert(connection_type_name(v).len() == 14);
        assert(connection_type_name(v)[0] == 'r');
    }
}

} // verus!
