//! Message model: per-role properties, the generic incoming and outgoing
//! message wrappers, and the connection naming helpers.
//!
//! All types are immutable value objects: constructed once, then read.

use vstd::prelude::*;
use vstd::string::StringExecFns;

use crate::addressing::{Destination, DestinationV};
use crate::ident::{
    account_id_string, agent_id_string, AccountId, Addressable, AgentId, AgentIdV, Authenticable,
};

verus! {

/// A status code carried on the wire in its numeric form.
/// Every status has exactly three decimal digits.
#[derive(Debug, Clone, Copy, PartialEq, Eq, Structural)]
pub struct ResponseStatus {
    code: u16,
}

/// The status of an outgoing response, under its role-specific name.
pub type OutgoingResponseStatus = ResponseStatus;

impl ResponseStatus {
    /// Every status a caller can hold is in the three-digit range.
    #[verifier::type_invariant]
    pub closed spec fn wf(&self) -> bool {
        100 <= self.code <= 999
    }

    /// The numeric code of the status.
    pub closed spec fn code_spec(&self) -> u16 {
        self.code
    }

    /// A well-formed status is in the three-digit range.
    pub proof fn lemma_wf_range(&self)
        requires
            self.wf(),
        ensures
            100 <= self.code_spec() <= 999,
    {
    }

    /// Makes a status from its numeric code; `None` outside the
    /// three-digit range.
    pub fn from_u16(code: u16) -> (r: Option<Self>)
        ensures
            100 <= code <= 999 ==> (r matches Some(s) && s.code_spec() == code),
            !(100 <= code <= 999) ==> r is None,
    {
        if 100 <= code && code <= 999 {
            Some(ResponseStatus { code })
        } else {
            None
        }
    }

    /// The numeric form of the status.
    pub fn as_u16(&self) -> (r: u16)
        ensures
            r == self.code_spec(),
    {
        self.code
    }
}

/// The minimal authentication carrier: the sender's agent identity,
/// flattened on the wire to `agent_label`, `account_label` and `audience`.
#[derive(Debug, PartialEq, Eq)]
pub struct AuthnProperties {
    pub agent_id: AgentId,
}

impl View for AuthnProperties {
    type V = AgentIdV;

    open spec fn view(&self) -> AgentIdV {
        self.agent_id@
    }
}

impl Clone for AuthnProperties {
    fn clone(&self) -> (r: Self)
        ensures
            r == *self,
    {
        AuthnProperties { agent_id: self.agent_id.clone() }
    }
}

impl Authenticable for AuthnProperties {
    open spec fn account_id_spec(&self) -> AccountId {
        self.agent_id.account_id
    }

    fn account_id(&self) -> (r: &AccountId) {
        &self.agent_id.account_id
    }
}

impl Addressable for AuthnProperties {
    open spec fn agent_id_spec(&self) -> AgentId {
        self.agent_id
    }

    fn agent_id(&self) -> (r: &AgentId) {
        &self.agent_id
    }
}

impl vstd::std_specs::convert::FromSpecImpl<AgentId> for AuthnProperties {
    open spec fn obeys_from_spec() -> bool {
        true
    }

    open spec fn from_spec(agent_id: AgentId) -> Self {
        AuthnProperties { agent_id }
    }
}

impl From<AgentId> for AuthnProperties {
    fn from(agent_id: AgentId) -> (r: Self) {
        AuthnProperties { agent_id }
    }
}

/// Mathematical view of incoming event properties.
pub struct IncomingEventPropertiesV {
    pub agent_id: AgentIdV,
}

/// Mathematical view of incoming request properties.
pub struct IncomingRequestPropertiesV {
    pub method: Seq<char>,
    pub correlation_data: Seq<char>,
    pub response_topic: Seq<char>,
    pub agent_id: AgentIdV,
}

/// Mathematical view of incoming response properties.
pub struct IncomingResponsePropertiesV {
    pub status: int,
    pub correlation_data: Seq<char>,
    pub agent_id: AgentIdV,
}

/// Properties of a received event: the sender's authentication.
#[derive(Debug, PartialEq, Eq)]
pub struct IncomingEventProperties {
    pub authn: AuthnProperties,
}

/// Properties of a received request: method, correlation data, the topic
/// the response is expected on, and the sender's authentication.
#[derive(Debug, PartialEq, Eq)]
pub struct IncomingRequestProperties {
    pub method: String,
    pub correlation_data: String,
    pub response_topic: String,
    pub authn: AuthnProperties,
}

/// Properties of a received response: status, correlation data, and the
/// sender's authentication.
#[derive(Debug, PartialEq, Eq)]
pub struct IncomingResponseProperties {
    pub status: ResponseStatus,
    pub correlation_data: String,
    pub authn: AuthnProperties,
}

impl View for IncomingEventProperties {
    type V = IncomingEventPropertiesV;

    open spec fn view(&self) -> IncomingEventPropertiesV {
        IncomingEventPropertiesV { agent_id: self.authn@ }
    }
}

impl View for IncomingRequestProperties {
    type V = IncomingRequestPropertiesV;

    open spec fn view(&self) -> IncomingRequestPropertiesV {
        IncomingRequestPropertiesV {
            method: self.method@,
            correlation_data: self.correlation_data@,
            response_topic: self.response_topic@,
            agent_id: self.authn@,
        }
    }
}

impl View for IncomingResponseProperties {
    type V = IncomingResponsePropertiesV;

    open spec fn view(&self) -> IncomingResponsePropertiesV {
        IncomingResponsePropertiesV {
            status: self.status.code_spec() as int,
            correlation_data: self.correlation_data@,
            agent_id: self.authn@,
        }
    }
}

impl Clone for IncomingEventProperties {
    fn clone(&self) -> (r: Self)
        ensures
            r == *self,
    {
        IncomingEventProperties { authn: self.authn.clone() }
    }
}

impl Clone for IncomingRequestProperties {
    fn clone(&self) -> (r: Self)
        ensures
            r == *self,
    {
        IncomingRequestProperties {
            method: self.method.clone(),
            correlation_data: self.correlation_data.clone(),
            response_topic: self.response_topic.clone(),
            authn: self.authn.clone(),
        }
    }
}

impl Clone for IncomingResponseProperties {
    fn clone(&self) -> (r: Self)
        ensures
            r == *self,
    {
        IncomingResponseProperties {
            status: self.status,
            correlation_data: self.correlation_data.clone(),
            authn: self.authn.clone(),
        }
    }
}

impl Authenticable for IncomingEventProperties {
    open spec fn account_id_spec(&self) -> AccountId {
        self.authn.account_id_spec()
    }

    fn account_id(&self) -> (r: &AccountId) {
        self.authn.account_id()
    }
}

impl Addressable for IncomingEventProperties {
    open spec fn agent_id_spec(&self) -> AgentId {
        self.authn.agent_id_spec()
    }

    fn agent_id(&self) -> (r: &AgentId) {
        self.authn.agent_id()
    }
}

impl Authenticable for IncomingRequestProperties {
    open spec fn account_id_spec(&self) -> AccountId {
        self.authn.account_id_spec()
    }

    fn account_id(&self) -> (r: &AccountId) {
        self.authn.account_id()
    }
}

impl Addressable for IncomingRequestProperties {
    open spec fn agent_id_spec(&self) -> AgentId {
        self.authn.agent_id_spec()
    }

    fn agent_id(&self) -> (r: &AgentId) {
        self.authn.agent_id()
    }
}

impl Authenticable for IncomingResponseProperties {
    open spec fn account_id_spec(&self) -> AccountId {
        self.authn.account_id_spec()
    }

    fn account_id(&self) -> (r: &AccountId) {
        self.authn.account_id()
    }
}

impl Addressable for IncomingResponseProperties {
    open spec fn agent_id_spec(&self) -> AgentId {
        self.authn.agent_id_spec()
    }

    fn agent_id(&self) -> (r: &AgentId) {
        self.authn.agent_id()
    }
}

impl IncomingRequestProperties {
    /// The method the request asks for.
    pub fn method(&self) -> (r: &str)
        ensures
            r@ == self@.method,
    {
        self.method.as_str()
    }

    /// Synthesizes properties of a response answering this request:
    /// the correlation data is carried over verbatim, and the request's
    /// response topic becomes the explicit topic of the response.
    pub fn to_response(&self, status: ResponseStatus) -> (r: OutgoingResponseProperties)
        ensures
            r.status == status,
            r.correlation_data@ == self@.correlation_data,
            r.response_topic matches Some(t) && t@ == self@.response_topic,
    {
        OutgoingResponseProperties::new(
            status,
            self.correlation_data.as_str(),
            Some(self.response_topic.as_str()),
        )
    }
}

/// Mathematical view of outgoing event properties.
pub struct OutgoingEventPropertiesV {
    pub label: Seq<char>,
}

/// Mathematical view of outgoing request properties.
pub struct OutgoingRequestPropertiesV {
    pub method: Seq<char>,
    pub correlation_data: Seq<char>,
    pub response_topic: Seq<char>,
    pub authn: Option<AgentIdV>,
}

/// Mathematical view of outgoing response properties.
pub struct OutgoingResponsePropertiesV {
    pub status: int,
    pub correlation_data: Seq<char>,
    pub response_topic: Option<Seq<char>>,
}

/// Properties of an event to send: its static label.
#[derive(Debug, PartialEq, Eq)]
pub struct OutgoingEventProperties {
    pub label: &'static str,
}

/// Properties of a request to send: method, correlation data, the topic
/// the response is expected on, and optionally the sender's authentication.
#[derive(Debug, PartialEq, Eq)]
pub struct OutgoingRequestProperties {
    pub method: String,
    pub correlation_data: String,
    pub response_topic: String,
    pub authn: Option<AuthnProperties>,
}

/// Properties of a response to send: status, correlation data, and an
/// optional explicit response topic that overrides destination-based
/// resolution (never serialized).
#[derive(Debug, PartialEq, Eq)]
pub struct OutgoingResponseProperties {
    pub status: ResponseStatus,
    pub correlation_data: String,
    pub response_topic: Option<String>,
}

impl View for OutgoingEventProperties {
    type V = OutgoingEventPropertiesV;

    open spec fn view(&self) -> OutgoingEventPropertiesV {
        OutgoingEventPropertiesV { label: self.label@ }
    }
}

impl View for OutgoingRequestProperties {
    type V = OutgoingRequestPropertiesV;

    open spec fn view(&self) -> OutgoingRequestPropertiesV {
        OutgoingRequestPropertiesV {
            method: self.method@,
            correlation_data: self.correlation_data@,
            response_topic: self.response_topic@,
            authn: match self.authn {
                Some(a) => Some(a@),
                None => None,
            },
        }
    }
}

impl View for OutgoingResponseProperties {
    type V = OutgoingResponsePropertiesV;

    open spec fn view(&self) -> OutgoingResponsePropertiesV {
        OutgoingResponsePropertiesV {
            status: self.status.code_spec() as int,
            correlation_data: self.correlation_data@,
            response_topic: match self.response_topic {
                Some(t) => Some(t@),
                None => None,
            },
        }
    }
}

impl OutgoingEventProperties {
    /// Makes event properties from a static label.
    pub fn new(label: &'static str) -> (r: Self)
        ensures
            r.label@ == label@,
    {
        OutgoingEventProperties { label }
    }
}

impl OutgoingRequestProperties {
    /// Makes request properties.
    pub fn new(
        method: String,
        response_topic: String,
        authn: Option<AuthnProperties>,
        correlation_data: String,
    ) -> (r: Self)
        ensures
            r.method == method,
            r.response_topic == response_topic,
            r.authn == authn,
            r.correlation_data == correlation_data,
    {
        OutgoingRequestProperties { method, response_topic, authn, correlation_data }
    }

    /// The correlation data the matching response must carry.
    pub fn correlation_data(&self) -> (r: &str)
        ensures
            r@ == self@.correlation_data,
    {
        self.correlation_data.as_str()
    }
}

impl OutgoingResponseProperties {
    /// Makes response properties.
    pub fn new(
        status: ResponseStatus,
        correlation_data: &str,
        response_topic: Option<&str>,
    ) -> (r: Self)
        ensures
            r.status == status,
            r.correlation_data@ == correlation_data@,
            match response_topic {
                Some(t) => r.response_topic matches Some(o) && o@ == t@,
                None => r.response_topic is None,
            },
    {
        let owned_topic: Option<String> = match response_topic {
            Some(t) => Some(t.to_owned()),
            None => None,
        };
        OutgoingResponseProperties {
            status,
            correlation_data: correlation_data.to_owned(),
            response_topic: owned_topic,
        }
    }
}

/// A received message: a payload and role-specific properties.
#[derive(Debug)]
pub struct IncomingMessage<T, P> {
    pub payload: T,
    pub properties: P,
}

/// A message to send: a payload, role-specific properties, and the
/// addressing intent used to resolve the publish topic.
#[derive(Debug)]
pub struct OutgoingMessage<T, P> {
    pub payload: T,
    pub properties: P,
    pub destination: Destination,
}

/// A received event.
pub type IncomingEvent<T> = IncomingMessage<T, IncomingEventProperties>;

/// A received request.
pub type IncomingRequest<T> = IncomingMessage<T, IncomingRequestProperties>;

/// A received response.
pub type IncomingResponse<T> = IncomingMessage<T, IncomingResponseProperties>;

/// An event to send.
pub type OutgoingEvent<T> = OutgoingMessage<T, OutgoingEventProperties>;

/// A request to send.
pub type OutgoingRequest<T> = OutgoingMessage<T, OutgoingRequestProperties>;

/// A response to send.
pub type OutgoingResponse<T> = OutgoingMessage<T, OutgoingResponseProperties>;

impl<T, P: Addressable> IncomingMessage<T, P> {
    /// Wraps a payload and its properties.
    pub fn new(payload: T, properties: P) -> (r: Self)
        ensures
            r.payload == payload,
            r.properties == properties,
    {
        IncomingMessage { payload, properties }
    }

    /// The message's payload.
    pub fn payload(&self) -> (r: &T)
        ensures
            *r == self.payload,
    {
        &self.payload
    }

    /// The message's properties.
    pub fn properties(&self) -> (r: &P)
        ensures
            *r == self.properties,
    {
        &self.properties
    }
}

impl<T> IncomingMessage<T, IncomingRequestProperties> {
    /// Builds the response answering this request: addressed `Unicast`
    /// back to the requester's agent identity, with the request's
    /// correlation data carried over verbatim and the request's response
    /// topic as the explicit topic.
    pub fn to_response<R>(&self, data: R, status: ResponseStatus) -> (r: OutgoingResponse<R>)
        ensures
            r.payload == data,
            r.properties.status == status,
            r.properties.correlation_data@ == self.properties@.correlation_data,
            r.properties.response_topic matches Some(t) && t@ == self.properties@.response_topic,
            r.destination@ == DestinationV::Unicast(self.properties@.agent_id),
    {
        OutgoingMessage::new(
            data,
            self.properties.to_response(status),
            Destination::Unicast(self.properties.authn.agent_id.clone()),
        )
    }
}

impl<T, P> OutgoingMessage<T, P> {
    /// Wraps a payload, its properties and an addressing intent.
    pub fn new(payload: T, properties: P, destination: Destination) -> (r: Self)
        ensures
            r.payload == payload,
            r.properties == properties,
            r.destination == destination,
    {
        OutgoingMessage { payload, properties, destination }
    }
}

impl<T> OutgoingMessage<T, OutgoingEventProperties> {
    /// An event addressed to anyone listening on an app-scoped URI.
    pub fn broadcast(payload: T, properties: OutgoingEventProperties, to_uri: &str) -> (r: Self)
        ensures
            r.payload == payload,
            r.properties == properties,
            r.destination@ == DestinationV::Broadcast(to_uri@),
    {
        OutgoingMessage::new(payload, properties, Destination::Broadcast(to_uri.to_owned()))
    }
}

impl<T> OutgoingMessage<T, OutgoingRequestProperties> {
    /// A request addressed to any agent of the recipient's account.
    pub fn multicast<A: Addressable>(
        payload: T,
        properties: OutgoingRequestProperties,
        to: &A,
    ) -> (r: Self)
        ensures
            r.payload == payload,
            r.properties == properties,
            r.destination@ == DestinationV::Multicast(to.account_id_spec()@),
    {
        OutgoingMessage::new(
            payload,
            properties,
            Destination::Multicast(to.account_id().clone()),
        )
    }

    /// A request addressed to exactly one agent.
    pub fn unicast<A: Addressable>(
        payload: T,
        properties: OutgoingRequestProperties,
        to: &A,
    ) -> (r: Self)
        ensures
            r.payload == payload,
            r.properties == properties,
            r.destination@ == DestinationV::Unicast(to.agent_id_spec()@),
    {
        OutgoingMessage::new(payload, properties, Destination::Unicast(to.agent_id().clone()))
    }
}

impl<T> OutgoingMessage<T, OutgoingResponseProperties> {
    /// A response addressed to exactly one agent.
    pub fn unicast<A: Addressable>(
        payload: T,
        properties: OutgoingResponseProperties,
        to: &A,
    ) -> (r: Self)
        ensures
            r.payload == payload,
            r.properties == properties,
            r.destination@ == DestinationV::Unicast(to.agent_id_spec()@),
    {
        OutgoingMessage::new(payload, properties, Destination::Unicast(to.agent_id().clone()))
    }
}

/// The way an agent presents itself to the transport.
#[derive(Debug, Clone, Copy, PartialEq, Eq, Structural)]
pub enum ConnectionMode {
    Agent,
    Bridge,
}

/// The transport-facing name of a connection mode.
pub open spec fn connection_mode_string(m: ConnectionMode) -> Seq<char> {
    match m {
        ConnectionMode::Agent => "agents"@,
        ConnectionMode::Bridge => "bridge-agents"@,
    }
}

impl ConnectionMode {
    /// The transport-facing name of the mode.
    pub fn as_str(&self) -> (r: &'static str)
        ensures
            r@ == connection_mode_string(*self),
    {
        match self {
            ConnectionMode::Agent => "agents",
            ConnectionMode::Bridge => "bridge-agents",
        }
    }
}

/// Connection configuration handed to the transport collaborator.
#[derive(Debug, PartialEq, Eq)]
pub struct AgentConfig {
    pub uri: String,
}

impl AgentConfig {
    /// Makes a configuration naming the transport's URI.
    pub fn new(uri: &str) -> (r: Self)
        ensures
            r.uri@ == uri@,
    {
        AgentConfig { uri: uri.to_owned() }
    }

    /// The transport's URI.
    pub fn uri(&self) -> (r: &str)
        ensures
            r@ == self.uri@,
    {
        self.uri.as_str()
    }
}

/// The client identity a connection presents: `{version}/{mode}/{agent_id}`.
pub open spec fn client_id_string(version: Seq<char>, mode: ConnectionMode, agent: AgentIdV) -> Seq<
    char,
> {
    version + "/"@ + connection_mode_string(mode) + "/"@ + agent_id_string(agent)
}

/// Prepares a connection for an agent identity: version and mode have
/// defaults that can be overridden before the surrounding system starts
/// the transport session.
#[derive(Debug)]
pub struct AgentBuilder {
    pub agent_id: AgentId,
    pub version: String,
    pub mode: ConnectionMode,
}

impl AgentBuilder {
    /// Starts a builder with the default version and mode.
    pub fn new(agent_id: AgentId) -> (r: Self)
        ensures
            r.agent_id == agent_id,
            r.version@ == "v1.mqtt3"@,
            r.mode == ConnectionMode::Agent,
    {
        AgentBuilder { agent_id, version: "v1.mqtt3".to_owned(), mode: ConnectionMode::Agent }
    }

    /// Overrides the protocol version part of the client identity.
    pub fn version(self, version: &str) -> (r: Self)
        ensures
            r.agent_id == self.agent_id,
            r.version@ == version@,
            r.mode == self.mode,
    {
        AgentBuilder { agent_id: self.agent_id, version: version.to_owned(), mode: self.mode }
    }

    /// Overrides the connection mode.
    pub fn mode(self, mode: ConnectionMode) -> (r: Self)
        ensures
            r.agent_id == self.agent_id,
            r.version == self.version,
            r.mode == mode,
    {
        AgentBuilder { agent_id: self.agent_id, version: self.version, mode }
    }

    /// The client identity this builder would present to the transport.
    pub fn mqtt_client_id(&self) -> (r: String)
        ensures
            r@ == client_id_string(self.version@, self.mode, self.agent_id@),
    {
        let mut s = self.version.clone();
        s.append("/");
        s.append(self.mode.as_str());
        s.append("/");
        let agent = self.agent_id.to_string();
        s.append(agent.as_str());
        s
    }
}

} // verus!
