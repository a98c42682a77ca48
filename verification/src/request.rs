//! The authorization request sent to the policy backend, and its body.
use vstd::prelude::*;

verus! {

/// One connection-authorization request.
pub struct AuthorizationRequest {
    pub request_id: String,
    pub request_kind: &'static str,
    pub access_token: String,
    pub requester_rustdesk_id: String,
    pub relay_request_uuid: String,
    pub requester_ip: String,
    pub target_rustdesk_id: String,
    pub connection_type: String,
    pub relay_requested: bool,
    pub hbbs_instance: String,
}

/// The content of an [`AuthorizationRequest`].
pub struct AuthorizationRequestView {
    pub request_id: Seq<char>,
    pub request_kind: Seq<char>,
    pub access_token: Seq<char>,
    pub requester_rustdesk_id: Seq<char>,
    pub relay_request_uuid: Seq<char>,
    pub requester_ip: Seq<char>,
    pub target_rustdesk_id: Seq<char>,
    pub connection_type: Seq<char>,
    pub relay_requested: bool,
    pub hbbs_instance: Seq<char>,
}

impl View for AuthorizationRequest {
    type V = AuthorizationRequestView;

    open spec fn view(&self) -> AuthorizationRequestView {
        AuthorizationRequestView {
            request_id: self.request_id@,
            request_kind: self.request_kind@,
            access_token: self.access_token@,
            requester_rustdesk_id: self.requester_rustdesk_id@,
            relay_request_uuid: self.relay_request_uuid@,
            requester_ip: self.requester_ip@,
            target_rustdesk_id: self.target_rustdesk_id@,
            connection_type: self.connection_type@,
            relay_requested: self.relay_requested,
            hbbs_instance: self.hbbs_instance@,
        }
    }
}

/// A value in the request body.
pub enum BodyValue {
    Text(String),
    Flag(bool),
}

/// The content of a [`BodyValue`].
pub enum BodyValueView {
    Text(Seq<char>),
    Flag(bool),
}

impl View for BodyValue {
    type V = BodyValueView;

    open spec fn view(&self) -> BodyValueView {
        match self {
            BodyValue::Text(s) => BodyValueView::Text(s@),
            BodyValue::Flag(b) => BodyValueView::Flag(*b),
        }
    }
}

/// One named member of the request body.
pub struct BodyField {
    pub name: &'static str,
    pub value: BodyValue,
}

impl View for BodyField {
    type V = (Seq<char>, BodyValueView);

    open spec fn view(&self) -> (Seq<char>, BodyValueView) {
        (self.name@, self.value@)
    }
}

/// The name of a connection type code: 1 to 4 name the special kinds, every
/// other code is a remote desktop session.
pub open spec fn connection_type_name(value: i32) -> Seq<char> {
    if value == 1 {
        "file_transfer"@
    } else if value == 2 {
        "port_forward"@
    } else if value == 3 {
        "rdp"@
    } else if value == 4 {
        "view_camera"@
    } else {
        "remote_desktop"@
    }
}

/// The members of the request body, in order. The requester's RustDesk id and
/// the relay request UUID are left out when they are empty.
pub open spec fn body_of(r: AuthorizationRequestView) -> Seq<(Seq<char>, BodyValueView)> {
    seq![
        ("request_id"@, BodyValueView::Text(r.request_id)),
        ("request_kind"@, BodyValueView::Text(r.request_kind)),
        ("access_token"@, BodyValueView::Text(r.access_token)),
    ] + (if r.requester_rustdesk_id.len() == 0 {
        Seq::empty()
    } else {
        seq![("requester_rustdesk_id"@, BodyValueView::Text(r.requester_rustdesk_id))]
    }) + (if r.relay_request_uuid.len() == 0 {
        Seq::empty()
    } else {
        seq![("relay_request_uuid"@, BodyValueView::Text(r.relay_request_uuid))]
    }) + seq![
        ("requester_ip"@, BodyValueView::Text(r.requester_ip)),
        ("target_rustdesk_id"@, BodyValueView::Text(r.target_rustdesk_id)),
        ("connection_type"@, BodyValueView::Text(r.connection_type)),
        ("relay_requested"@, BodyValueView::Flag(r.relay_requested)),
        ("hbbs_instance"@, BodyValueView::Text(r.hbbs_instance)),
    ]
}

/// Names a connection type code as the policy backend expects it.
pub fn connection_type(value: i32) -> (name: String)
    ensures
        name@ == connection_type_name(value),
{
    let s: &str = if value == 1 {
        "file_transfer"
    } else if value == 2 {
        "port_forward"
    } else if value == 3 {
        "rdp"
    } else if value == 4 {
        "view_camera"
    } else {
        "remote_desktop"
    };
    s.to_owned()
}

/// Builds a request for the policy backend. The request id and the server
/// instance are left empty until the request is sent, and no requester
/// device identity is claimed.
pub fn request(
    kind: &'static str,
    access_token: String,
    relay_request_uuid: String,
    requester_ip: String,
    target_rustdesk_id: String,
    connection_type: String,
    relay_requested: bool,
) -> (r: AuthorizationRequest)
    ensures
        r@ == (AuthorizationRequestView {
            request_id: Seq::empty(),
            request_kind: kind@,
            access_token: access_token@,
            requester_rustdesk_id: Seq::empty(),
            relay_request_uuid: relay_request_uuid@,
            requester_ip: requester_ip@,
            target_rustdesk_id: target_rustdesk_id@,
            connection_type: connection_type@,
            relay_requested: relay_requested,
            hbbs_instance: Seq::empty(),
        }),
{
    AuthorizationRequest {
        request_id: String::new(),
        request_kind: kind,
        access_token,
        requester_rustdesk_id: String::new(),
        relay_request_uuid,
        requester_ip,
        target_rustdesk_id,
        connection_type,
        relay_requested,
        hbbs_instance: String::new(),
    }
}

fn text_field(name: &'static str, value: &String) -> (f: BodyField)
    ensures
        f@ == (name@, BodyValueView::Text(value@)),
{
    BodyField { name, value: BodyValue::Text(value.clone()) }
}

impl AuthorizationRequest {
    /// The same request with its id and the answering server instance filled in.
    pub fn stamp(self, request_id: String, hbbs_instance: String) -> (r: AuthorizationRequest)
        ensures
            r@ == (AuthorizationRequestView {
                request_id: request_id@,
                hbbs_instance: hbbs_instance@,
                ..self@
            }),
    {
        AuthorizationRequest { request_id, hbbs_instance, ..self }
    }

    /// The members of the JSON body that carries this request, in order.
    pub fn body_fields(&self) -> (fields: Vec<BodyField>)
        ensures
            fields@.map_values(|f: BodyField| f@) == body_of(self@),
    {
        let mut fields: Vec<BodyField> = Vec::new();
        fields.push(text_field("request_id", &self.request_id));
        fields.push(text_field("request_kind", &self.request_kind.to_owned()));
        fields.push(text_field("access_token", &self.access_token));
        if self.requester_rustdesk_id.as_str().unicode_len() > 0 {
            fields.push(text_field("requester_rustdesk_id", &self.requester_rustdesk_id));
        }
        if self.relay_request_uuid.as_str().unicode_len() > 0 {
            fields.push(text_field("relay_request_uuid", &self.relay_request_uuid));
        }
        fields.push(text_field("requester_ip", &self.requester_ip));
        fields.push(text_field("target_rustdesk_id", &self.target_rustdesk_id));
        fields.push(text_field("connection_type", &self.connection_type));
        fields.push(BodyField { name: "relay_requested", value: BodyValue::Flag(self.relay_requested) });
        fields.push(text_field("hbbs_instance", &self.hbbs_instance));
        assert(fields@.map_values(|f: BodyField| f@) =~= body_of(self@));
        fields
    }
}

} // verus!
