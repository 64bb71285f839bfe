//! Envelope layer: the role-tagged wire container pairing a JSON-encoded
//! payload string with per-role properties.
//!
//! An outgoing envelope keeps its destination for topic resolution and
//! serializes to the wire text `{"payload":...,"properties":{...}}`; the
//! payload is carried as JSON text inside a string field, so the wire
//! text double-encodes it. The per-role properties object carries the
//! role under a `type` tag, with authentication flattened to scalar
//! fields.

use vstd::prelude::*;

use crate::addressing::{Destination, DestinationV};
use crate::error::{Error, MessageKind};
use crate::ident::{AgentId, AgentIdV};
use crate::json::{
    append_quoted, append_status_code, member_num, member_str, push_char, quoted,
};
use crate::message::{
    AuthnProperties, IncomingEventProperties, IncomingEventPropertiesV, IncomingRequestProperties,
    IncomingRequestPropertiesV, IncomingResponseProperties, IncomingResponsePropertiesV,
    OutgoingEventProperties, OutgoingEventPropertiesV, OutgoingMessage, OutgoingRequestProperties,
    OutgoingRequestPropertiesV, OutgoingResponseProperties, OutgoingResponsePropertiesV,
};
use crate::topic::DestinationTopic;

verus! {

/// Mathematical view of outgoing envelope properties.
pub enum OutgoingEnvelopePropertiesV {
    Event(OutgoingEventPropertiesV),
    Request(OutgoingRequestPropertiesV),
    Response(OutgoingResponsePropertiesV),
}

/// Mathematical view of incoming envelope properties.
pub enum IncomingEnvelopePropertiesV {
    Event(IncomingEventPropertiesV),
    Request(IncomingRequestPropertiesV),
    Response(IncomingResponsePropertiesV),
}

/// Mathematical view of an incoming envelope.
pub struct IncomingEnvelopeV {
    pub payload: Seq<char>,
    pub properties: IncomingEnvelopePropertiesV,
}

/// Role-tagged properties of an envelope to send.
#[derive(Debug)]
pub enum OutgoingEnvelopeProperties {
    Event(OutgoingEventProperties),
    Request(OutgoingRequestProperties),
    Response(OutgoingResponseProperties),
}

/// Role-tagged properties of a received envelope.
#[derive(Debug)]
pub enum IncomingEnvelopeProperties {
    Event(IncomingEventProperties),
    Request(IncomingRequestProperties),
    Response(IncomingResponseProperties),
}

impl View for OutgoingEnvelopeProperties {
    type V = OutgoingEnvelopePropertiesV;

    open spec fn view(&self) -> OutgoingEnvelopePropertiesV {
        match self {
            OutgoingEnvelopeProperties::Event(p) => OutgoingEnvelopePropertiesV::Event(p@),
            OutgoingEnvelopeProperties::Request(p) => OutgoingEnvelopePropertiesV::Request(p@),
            OutgoingEnvelopeProperties::Response(p) => OutgoingEnvelopePropertiesV::Response(p@),
        }
    }
}

impl View for IncomingEnvelopeProperties {
    type V = IncomingEnvelopePropertiesV;

    open spec fn view(&self) -> IncomingEnvelopePropertiesV {
        match self {
            IncomingEnvelopeProperties::Event(p) => IncomingEnvelopePropertiesV::Event(p@),
            IncomingEnvelopeProperties::Request(p) => IncomingEnvelopePropertiesV::Request(p@),
            IncomingEnvelopeProperties::Response(p) => IncomingEnvelopePropertiesV::Response(p@),
        }
    }
}

/// The role an incoming envelope is tagged with.
pub open spec fn incoming_kind(p: IncomingEnvelopePropertiesV) -> MessageKind {
    match p {
        IncomingEnvelopePropertiesV::Event(_) => MessageKind::Event,
        IncomingEnvelopePropertiesV::Request(_) => MessageKind::Request,
        IncomingEnvelopePropertiesV::Response(_) => MessageKind::Response,
    }
}

impl IncomingEnvelopeProperties {
    /// The role this envelope is tagged with.
    pub fn kind(&self) -> (r: MessageKind)
        ensures
            r == incoming_kind(self@),
    {
        match self {
            IncomingEnvelopeProperties::Event(_) => MessageKind::Event,
            IncomingEnvelopeProperties::Request(_) => MessageKind::Request,
            IncomingEnvelopeProperties::Response(_) => MessageKind::Response,
        }
    }
}

/// An envelope to send: the payload as JSON text, role-tagged properties,
/// and the destination used only for topic resolution (never serialized).
#[derive(Debug)]
pub struct OutgoingEnvelope {
    pub payload: String,
    pub properties: OutgoingEnvelopeProperties,
    pub destination: Destination,
}

/// A received envelope: the payload as JSON text and role-tagged
/// properties.
#[derive(Debug)]
pub struct IncomingEnvelope {
    pub payload: String,
    pub properties: IncomingEnvelopeProperties,
}

impl View for IncomingEnvelope {
    type V = IncomingEnvelopeV;

    open spec fn view(&self) -> IncomingEnvelopeV {
        IncomingEnvelopeV { payload: self.payload@, properties: self.properties@ }
    }
}

impl DestinationTopic for OutgoingEnvelopeProperties {
    open spec fn message_kind_spec(&self) -> MessageKind {
        match self {
            OutgoingEnvelopeProperties::Event(p) => p.message_kind_spec(),
            OutgoingEnvelopeProperties::Request(p) => p.message_kind_spec(),
            OutgoingEnvelopeProperties::Response(p) => p.message_kind_spec(),
        }
    }

    open spec fn destination_topic_spec(&self, me: AgentIdV, dest: DestinationV) -> Option<
        Seq<char>,
    > {
        match self {
            OutgoingEnvelopeProperties::Event(p) => p.destination_topic_spec(me, dest),
            OutgoingEnvelopeProperties::Request(p) => p.destination_topic_spec(me, dest),
            OutgoingEnvelopeProperties::Response(p) => p.destination_topic_spec(me, dest),
        }
    }

    fn destination_topic(&self, me: &AgentId, dest: &Destination) -> (r: Result<String, Error>) {
        match self {
            OutgoingEnvelopeProperties::Event(p) => p.destination_topic(me, dest),
            OutgoingEnvelopeProperties::Request(p) => p.destination_topic(me, dest),
            OutgoingEnvelopeProperties::Response(p) => p.destination_topic(me, dest),
        }
    }
}

// ---------------------------------------------------------------------------
// The wire text of an outgoing envelope
// ---------------------------------------------------------------------------

/// The members of an event properties object, closing brace included.
pub open spec fn ser_event_members(p: OutgoingEventPropertiesV) -> Seq<char> {
    member_str("type"@, "event"@) + seq![','] + member_str("label"@, p.label) + seq!['}']
}

/// The members of a request properties object, closing brace included;
/// authentication, when present, flattens to three scalar fields.
pub open spec fn ser_request_members(p: OutgoingRequestPropertiesV) -> Seq<char> {
    member_str("type"@, "request"@) + seq![','] + member_str("method"@, p.method) + seq![',']
        + member_str("correlation_data"@, p.correlation_data) + seq![','] + member_str(
        "response_topic"@,
        p.response_topic,
    ) + (match p.authn {
        None => seq!['}'],
        Some(a) => seq![','] + member_str("agent_label"@, a.label) + seq![','] + member_str(
            "account_label"@,
            a.account_id.label,
        ) + seq![','] + member_str("audience"@, a.account_id.audience) + seq!['}'],
    })
}

/// The members of a response properties object, closing brace included;
/// the status is carried numerically, the response topic never.
pub open spec fn ser_response_members(p: OutgoingResponsePropertiesV) -> Seq<char> {
    member_str("type"@, "response"@) + seq![','] + member_num("status"@, p.status) + seq![',']
        + member_str("correlation_data"@, p.correlation_data) + seq!['}']
}

/// The members of a standalone authentication object, closing brace
/// included: the three flattened scalar fields.
pub open spec fn ser_authn_members(a: AgentIdV) -> Seq<char> {
    member_str("agent_label"@, a.label) + seq![','] + member_str(
        "account_label"@,
        a.account_id.label,
    ) + seq![','] + member_str("audience"@, a.account_id.audience) + seq!['}']
}

/// The members of the properties object, by role.
pub open spec fn ser_props_members(p: OutgoingEnvelopePropertiesV) -> Seq<char> {
    match p {
        OutgoingEnvelopePropertiesV::Event(e) => ser_event_members(e),
        OutgoingEnvelopePropertiesV::Request(q) => ser_request_members(q),
        OutgoingEnvelopePropertiesV::Response(s) => ser_response_members(s),
    }
}

/// The whole wire text: payload and properties as sibling fields of one
/// object.
pub open spec fn ser_envelope(payload: Seq<char>, props_members: Seq<char>) -> Seq<char> {
    seq!['{'] + quoted("payload"@) + seq![':'] + quoted(payload) + seq![','] + quoted(
        "properties"@,
    ) + seq![':'] + seq!['{'] + props_members + seq!['}']
}

impl OutgoingEnvelope {
    /// Wraps a JSON-text payload, role-tagged properties and a
    /// destination.
    pub fn new(payload: &str, properties: OutgoingEnvelopeProperties, destination: Destination) -> (r:
        Self)
        ensures
            r.payload@ == payload@,
            r.properties == properties,
            r.destination == destination,
    {
        OutgoingEnvelope { payload: payload.to_owned(), properties, destination }
    }

    /// Resolves the publish topic for this envelope from its role and its
    /// destination.
    pub fn destination_topic(&self, me: &AgentId) -> (r: Result<String, Error>)
        ensures
            match r {
                Ok(t) => self.properties.destination_topic_spec(me@, self.destination@) == Some(
                    t@,
                ),
                Err(e) => self.properties.destination_topic_spec(me@, self.destination@) is None
                    && (e matches Error::IncompatibleDestination { kind, destination } && kind
                    == self.properties.message_kind_spec() && destination == self.destination),
            },
    {
        self.properties.destination_topic(me, &self.destination)
    }

    /// The wire bytes of this envelope: exactly the serialized text.
    pub fn to_bytes(&self) -> (r: String)
        ensures
            r@ == ser_envelope(self.payload@, ser_props_members(self.properties@)),
    {
        let mut out = String::new();
        push_char(&mut out, '{');
        append_quoted(&mut out, "payload");
        push_char(&mut out, ':');
        append_quoted(&mut out, self.payload.as_str());
        push_char(&mut out, ',');
        append_quoted(&mut out, "properties");
        push_char(&mut out, ':');
        push_char(&mut out, '{');
        match &self.properties {
            OutgoingEnvelopeProperties::Event(p) => {
                append_event_members(&mut out, p);
            },
            OutgoingEnvelopeProperties::Request(p) => {
                append_request_members(&mut out, p);
            },
            OutgoingEnvelopeProperties::Response(p) => {
                append_response_members(&mut out, p);
            },
        }
        push_char(&mut out, '}');
        proof {
            assert(out@ =~= ser_envelope(self.payload@, ser_props_members(self.properties@)));
        }
        out
    }
}

/// Appends the members of an event properties object.
fn append_event_members(out: &mut String, p: &OutgoingEventProperties)
    ensures
        final(out)@ == old(out)@ + ser_event_members(p@),
{
    append_quoted(out, "type");
    push_char(out, ':');
    append_quoted(out, "event");
    push_char(out, ',');
    append_quoted(out, "label");
    push_char(out, ':');
    append_quoted(out, p.label);
    push_char(out, '}');
    assert(final(out)@ =~= old(out)@ + ser_event_members(p@));
}

/// Appends the members of a request properties object.
#[verifier::rlimit(50)]
fn append_request_members(out: &mut String, p: &OutgoingRequestProperties)
    ensures
        final(out)@ == old(out)@ + ser_request_members(p@),
{
    append_quoted(out, "type");
    push_char(out, ':');
    append_quoted(out, "request");
    push_char(out, ',');
    append_quoted(out, "method");
    push_char(out, ':');
    append_quoted(out, p.method.as_str());
    push_char(out, ',');
    append_quoted(out, "correlation_data");
    push_char(out, ':');
    append_quoted(out, p.correlation_data.as_str());
    push_char(out, ',');
    append_quoted(out, "response_topic");
    push_char(out, ':');
    append_quoted(out, p.response_topic.as_str());
    assert(out@ =~= old(out)@ + (member_str("type"@, "request"@) + seq![','] + member_str(
        "method"@,
        p.method@,
    ) + seq![','] + member_str("correlation_data"@, p.correlation_data@) + seq![','] + member_str(
        "response_topic"@,
        p.response_topic@,
    )));
    let ghost mid = out@;
    match &p.authn {
        None => {
            push_char(out, '}');
        },
        Some(a) => {
            push_char(out, ',');
            append_quoted(out, "agent_label");
            push_char(out, ':');
            append_quoted(out, a.agent_id.label.as_str());
            push_char(out, ',');
            append_quoted(out, "account_label");
            push_char(out, ':');
            append_quoted(out, a.agent_id.account_id.label.as_str());
            push_char(out, ',');
            append_quoted(out, "audience");
            push_char(out, ':');
            append_quoted(out, a.agent_id.account_id.audience.as_str());
            push_char(out, '}');
            assert(out@ =~= mid + (seq![','] + member_str("agent_label"@, a.agent_id.label@)
                + seq![','] + member_str("account_label"@, a.agent_id.account_id.label@)
                + seq![','] + member_str("audience"@, a.agent_id.account_id.audience@)
                + seq!['}']));
        },
    }
    assert(final(out)@ =~= old(out)@ + ser_request_members(p@));
}

/// Appends the members of a response properties object.
fn append_response_members(out: &mut String, p: &OutgoingResponseProperties)
    ensures
        final(out)@ == old(out)@ + ser_response_members(p@),
{
    append_quoted(out, "type");
    push_char(out, ':');
    append_quoted(out, "response");
    push_char(out, ',');
    append_quoted(out, "status");
    push_char(out, ':');
    proof {
        use_type_invariant(p.status);
        p.status.lemma_wf_range();
    }
    append_status_code(out, p.status.as_u16());
    push_char(out, ',');
    append_quoted(out, "correlation_data");
    push_char(out, ':');
    append_quoted(out, p.correlation_data.as_str());
    push_char(out, '}');
    assert(final(out)@ =~= old(out)@ + ser_response_members(p@));
}

impl IncomingEnvelope {
    /// Wraps a JSON-text payload and role-tagged properties.
    pub fn new(payload: String, properties: IncomingEnvelopeProperties) -> (r: Self)
        ensures
            r.payload == payload,
            r.properties == properties,
    {
        IncomingEnvelope { payload, properties }
    }

    /// The role-tagged properties of the envelope.
    pub fn properties(&self) -> (r: &IncomingEnvelopeProperties)
        ensures
            *r == self.properties,
    {
        &self.properties
    }

    /// The payload, as the JSON text it was carried as.
    pub fn payload(&self) -> (r: &str)
        ensures
            r@ == self.payload@,
    {
        self.payload.as_str()
    }
}

impl AuthnProperties {
    /// The JSON object form of the flattened authentication fields.
    pub fn to_json_string(&self) -> (r: String)
        ensures
            r@ == seq!['{'] + ser_authn_members(self@),
    {
        let mut out = String::new();
        push_char(&mut out, '{');
        append_quoted(&mut out, "agent_label");
        push_char(&mut out, ':');
        append_quoted(&mut out, self.agent_id.label.as_str());
        push_char(&mut out, ',');
        append_quoted(&mut out, "account_label");
        push_char(&mut out, ':');
        append_quoted(&mut out, self.agent_id.account_id.label.as_str());
        push_char(&mut out, ',');
        append_quoted(&mut out, "audience");
        push_char(&mut out, ':');
        append_quoted(&mut out, self.agent_id.account_id.audience.as_str());
        push_char(&mut out, '}');
        assert(out@ =~= seq!['{'] + ser_authn_members(self@));
        out
    }
}

/// Capability of becoming a wire envelope: outgoing messages whose
/// payload is already JSON text convert by tagging their properties with
/// their role.
pub trait IntoEnvelope: Sized {
    /// The envelope the conversion produces.
    spec fn envelope_spec(self) -> OutgoingEnvelope;

    /// Converts into a wire envelope.
    fn into_envelope(self) -> (r: Result<OutgoingEnvelope, Error>)
        ensures
            r matches Ok(env) && env == self.envelope_spec(),
    ;
}

impl IntoEnvelope for OutgoingMessage<String, OutgoingEventProperties> {
    open spec fn envelope_spec(self) -> OutgoingEnvelope {
        OutgoingEnvelope {
            payload: self.payload,
            properties: OutgoingEnvelopeProperties::Event(self.properties),
            destination: self.destination,
        }
    }

    fn into_envelope(self) -> (r: Result<OutgoingEnvelope, Error>) {
        Ok(
            OutgoingEnvelope {
                payload: self.payload,
                properties: OutgoingEnvelopeProperties::Event(self.properties),
                destination: self.destination,
            },
        )
    }
}

impl IntoEnvelope for OutgoingMessage<String, OutgoingRequestProperties> {
    open spec fn envelope_spec(self) -> OutgoingEnvelope {
        OutgoingEnvelope {
            payload: self.payload,
            properties: OutgoingEnvelopeProperties::Request(self.properties),
            destination: self.destination,
        }
    }

    fn into_envelope(self) -> (r: Result<OutgoingEnvelope, Error>) {
        Ok(
            OutgoingEnvelope {
                payload: self.payload,
                properties: OutgoingEnvelopeProperties::Request(self.properties),
                destination: self.destination,
            },
        )
    }
}

impl IntoEnvelope for OutgoingMessage<String, OutgoingResponseProperties> {
    open spec fn envelope_spec(self) -> OutgoingEnvelope {
        OutgoingEnvelope {
            payload: self.payload,
            properties: OutgoingEnvelopeProperties::Response(self.properties),
            destination: self.destination,
        }
    }

    fn into_envelope(self) -> (r: Result<OutgoingEnvelope, Error>) {
        Ok(
            OutgoingEnvelope {
                payload: self.payload,
                properties: OutgoingEnvelopeProperties::Response(self.properties),
                destination: self.destination,
            },
        )
    }
}

} // verus!
