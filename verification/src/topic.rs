//! Topic resolution: the naming protocol that turns an addressing intent
//! and a message role into a concrete topic string (publish side) or topic
//! pattern (subscribe side).
//!
//! Every topic string is independently derivable by sender and receiver
//! from these rules; illegal (role, intent) pairings fail with an error
//! carrying both operands.

use vstd::prelude::*;
use vstd::string::StringExecFns;

use crate::addressing::{
    Destination, DestinationV, EventSubscription, RequestSubscription, ResponseSubscription,
    SharedGroup, Source, SourceV,
};
use crate::error::{Error, MessageKind};
use crate::ident::{account_id_string, agent_id_string, AccountIdV, AgentId, AgentIdV};
use crate::message::{
    OutgoingEventProperties, OutgoingRequestProperties, OutgoingResponseProperties,
};

verus! {

/// Topic events are broadcast on: `apps/{account}/api/v1/{uri}`.
pub open spec fn broadcast_topic(account: AccountIdV, uri: Seq<char>) -> Seq<char> {
    "apps/"@ + account_id_string(account) + "/api/v1/"@ + uri
}

/// Topic a message for one agent goes in on:
/// `agents/{agent}/api/v1/in/{account}`, where `account` is the sender's.
pub open spec fn unicast_topic(to: AgentIdV, from_account: AccountIdV) -> Seq<char> {
    "agents/"@ + agent_id_string(to) + "/api/v1/in/"@ + account_id_string(from_account)
}

/// Topic a multicast request goes out on:
/// `agents/{sender agent}/api/v1/out/{recipient account}`.
pub open spec fn multicast_topic(from: AgentIdV, to_account: AccountIdV) -> Seq<char> {
    "agents/"@ + agent_id_string(from) + "/api/v1/out/"@ + account_id_string(to_account)
}

/// Pattern matching multicast requests from any agent of an account:
/// `agents/+/api/v1/out/{account}`.
pub open spec fn multicast_pattern(account: AccountIdV) -> Seq<char> {
    "agents/+/api/v1/out/"@ + account_id_string(account)
}

/// Pattern matching unicast messages from anyone:
/// `agents/{agent}/api/v1/in/+`.
pub open spec fn unicast_any_pattern(me: AgentIdV) -> Seq<char> {
    "agents/"@ + agent_id_string(me) + "/api/v1/in/+"@
}

/// A pattern wrapped for shared-group delivery: `$share/{group}/{pattern}`.
pub open spec fn shared_pattern(group: Seq<char>, pattern: Seq<char>) -> Seq<char> {
    "$share/"@ + group + "/"@ + pattern
}

/// Capability of resolving a publish topic from an addressing intent, per
/// message role. The specification function gives the resolved topic, or
/// `None` where the intent is illegal for the role.
pub trait DestinationTopic {
    /// The message role resolution happens for.
    spec fn message_kind_spec(&self) -> MessageKind;

    /// The topic the role's rules give, or `None` for an illegal intent.
    spec fn destination_topic_spec(&self, me: AgentIdV, dest: DestinationV) -> Option<Seq<char>>;

    /// Resolves the publish topic; an illegal intent fails with
    /// `IncompatibleDestination` carrying the role and the intent.
    fn destination_topic(&self, me: &AgentId, dest: &Destination) -> (r: Result<String, Error>)
        ensures
            match r {
                Ok(t) => self.destination_topic_spec(me@, dest@) == Some(t@),
                Err(e) => self.destination_topic_spec(me@, dest@) is None && (
                e matches Error::IncompatibleDestination { kind, destination } && kind
                    == self.message_kind_spec() && destination == *dest),
            },
    ;
}

impl DestinationTopic for OutgoingEventProperties {
    open spec fn message_kind_spec(&self) -> MessageKind {
        MessageKind::Event
    }

    open spec fn destination_topic_spec(&self, me: AgentIdV, dest: DestinationV) -> Option<
        Seq<char>,
    > {
        match dest {
            DestinationV::Broadcast(uri) => Some(broadcast_topic(me.account_id, uri)),
            _ => None,
        }
    }

    fn destination_topic(&self, me: &AgentId, dest: &Destination) -> (r: Result<String, Error>) {
        match dest {
            Destination::Broadcast(uri) => {
                let mut t = "apps/".to_owned();
                let account = me.account_id().to_string();
                t.append(account.as_str());
                t.append("/api/v1/");
                t.append(uri.as_str());
                Ok(t)
            },
            _ => Err(
                Error::IncompatibleDestination {
                    kind: MessageKind::Event,
                    destination: dest.clone(),
                },
            ),
        }
    }
}

impl DestinationTopic for OutgoingRequestProperties {
    open spec fn message_kind_spec(&self) -> MessageKind {
        MessageKind::Request
    }

    open spec fn destination_topic_spec(&self, me: AgentIdV, dest: DestinationV) -> Option<
        Seq<char>,
    > {
        match dest {
            DestinationV::Unicast(agent) => Some(unicast_topic(agent, me.account_id)),
            DestinationV::Multicast(account) => Some(multicast_topic(me, account)),
            _ => None,
        }
    }

    fn destination_topic(&self, me: &AgentId, dest: &Destination) -> (r: Result<String, Error>) {
        match dest {
            Destination::Unicast(agent_id) => {
                let mut t = "agents/".to_owned();
                let agent = agent_id.to_string();
                t.append(agent.as_str());
                t.append("/api/v1/in/");
                let account = me.account_id().to_string();
                t.append(account.as_str());
                Ok(t)
            },
            Destination::Multicast(account_id) => {
                let mut t = "agents/".to_owned();
                let agent = me.to_string();
                t.append(agent.as_str());
                t.append("/api/v1/out/");
                let account = account_id.to_string();
                t.append(account.as_str());
                Ok(t)
            },
            _ => Err(
                Error::IncompatibleDestination {
                    kind: MessageKind::Request,
                    destination: dest.clone(),
                },
            ),
        }
    }
}

impl DestinationTopic for OutgoingResponseProperties {
    open spec fn message_kind_spec(&self) -> MessageKind {
        MessageKind::Response
    }

    open spec fn destination_topic_spec(&self, me: AgentIdV, dest: DestinationV) -> Option<
        Seq<char>,
    > {
        match self.response_topic {
            Some(t) => Some(t@),
            None => match dest {
                DestinationV::Unicast(agent) => Some(unicast_topic(agent, me.account_id)),
                _ => None,
            },
        }
    }

    fn destination_topic(&self, me: &AgentId, dest: &Destination) -> (r: Result<String, Error>) {
        match &self.response_topic {
            Some(t) => Ok(t.clone()),
            None => match dest {
                Destination::Unicast(agent_id) => {
                    let mut t = "agents/".to_owned();
                    let agent = agent_id.to_string();
                    t.append(agent.as_str());
                    t.append("/api/v1/in/");
                    let account = me.account_id().to_string();
                    t.append(account.as_str());
                    Ok(t)
                },
                _ => Err(
                    Error::IncompatibleDestination {
                        kind: MessageKind::Response,
                        destination: dest.clone(),
                    },
                ),
            },
        }
    }
}

/// Capability of resolving a subscribe pattern from an incoming intent,
/// per subscription role. The specification function gives the resolved
/// pattern, or `None` where the intent is illegal for the role.
pub trait SubscriptionTopic {
    /// The subscription role resolution happens for.
    spec fn subscription_kind_spec(&self) -> MessageKind;

    /// The incoming intent the subscription was made with.
    spec fn source_spec(&self) -> Source;

    /// The pattern the role's rules give, or `None` for an illegal intent.
    spec fn subscription_topic_spec(&self, me: AgentIdV) -> Option<Seq<char>>;

    /// Resolves the subscribe pattern; an illegal intent fails with
    /// `IncompatibleSource` carrying the role and the intent.
    fn subscription_topic(&self, me: &AgentId) -> (r: Result<String, Error>)
        ensures
            match r {
                Ok(t) => self.subscription_topic_spec(me@) == Some(t@),
                Err(e) => self.subscription_topic_spec(me@) is None && (
                e matches Error::IncompatibleSource { kind, source } && kind
                    == self.subscription_kind_spec() && source == self.source_spec()),
            },
    ;
}

impl SubscriptionTopic for EventSubscription {
    open spec fn subscription_kind_spec(&self) -> MessageKind {
        MessageKind::Event
    }

    open spec fn source_spec(&self) -> Source {
        self.source
    }

    open spec fn subscription_topic_spec(&self, me: AgentIdV) -> Option<Seq<char>> {
        match self.source@ {
            SourceV::Broadcast(from, uri) => Some(broadcast_topic(from.account_id, uri)),
            _ => None,
        }
    }

    fn subscription_topic(&self, me: &AgentId) -> (r: Result<String, Error>) {
        match &self.source {
            Source::Broadcast(from, uri) => {
                let mut t = "apps/".to_owned();
                let account = from.account_id().to_string();
                t.append(account.as_str());
                t.append("/api/v1/");
                t.append(uri.as_str());
                Ok(t)
            },
            _ => Err(
                Error::IncompatibleSource { kind: MessageKind::Event, source: self.source.clone() },
            ),
        }
    }
}

impl SubscriptionTopic for RequestSubscription {
    open spec fn subscription_kind_spec(&self) -> MessageKind {
        MessageKind::Request
    }

    open spec fn source_spec(&self) -> Source {
        self.source
    }

    open spec fn subscription_topic_spec(&self, me: AgentIdV) -> Option<Seq<char>> {
        match self.source@ {
            SourceV::Multicast => Some(multicast_pattern(me.account_id)),
            SourceV::Unicast(Some(from)) => Some(unicast_topic(me, from.account_id)),
            SourceV::Unicast(None) => Some(unicast_any_pattern(me)),
            _ => None,
        }
    }

    fn subscription_topic(&self, me: &AgentId) -> (r: Result<String, Error>) {
        match &self.source {
            Source::Multicast => {
                let mut t = "agents/+/api/v1/out/".to_owned();
                let account = me.account_id().to_string();
                t.append(account.as_str());
                Ok(t)
            },
            Source::Unicast(Some(from)) => {
                let mut t = "agents/".to_owned();
                let agent = me.to_string();
                t.append(agent.as_str());
                t.append("/api/v1/in/");
                let account = from.account_id().to_string();
                t.append(account.as_str());
                Ok(t)
            },
            Source::Unicast(None) => {
                let mut t = "agents/".to_owned();
                let agent = me.to_string();
                t.append(agent.as_str());
                t.append("/api/v1/in/+");
                Ok(t)
            },
            _ => Err(
                Error::IncompatibleSource {
                    kind: MessageKind::Request,
                    source: self.source.clone(),
                },
            ),
        }
    }
}

impl SubscriptionTopic for ResponseSubscription {
    open spec fn subscription_kind_spec(&self) -> MessageKind {
        MessageKind::Response
    }

    open spec fn source_spec(&self) -> Source {
        self.source
    }

    open spec fn subscription_topic_spec(&self, me: AgentIdV) -> Option<Seq<char>> {
        match self.source@ {
            SourceV::Unicast(Some(from)) => Some(unicast_topic(me, from.account_id)),
            SourceV::Unicast(None) => Some(unicast_any_pattern(me)),
            _ => None,
        }
    }

    fn subscription_topic(&self, me: &AgentId) -> (r: Result<String, Error>) {
        match &self.source {
            Source::Unicast(Some(from)) => {
                let mut t = "agents/".to_owned();
                let agent = me.to_string();
                t.append(agent.as_str());
                t.append("/api/v1/in/");
                let account = from.account_id().to_string();
                t.append(account.as_str());
                Ok(t)
            },
            Source::Unicast(None) => {
                let mut t = "agents/".to_owned();
                let agent = me.to_string();
                t.append(agent.as_str());
                t.append("/api/v1/in/+");
                Ok(t)
            },
            _ => Err(
                Error::IncompatibleSource {
                    kind: MessageKind::Response,
                    source: self.source.clone(),
                },
            ),
        }
    }
}

/// Resolves a subscribe pattern and, when a shared group is named, wraps
/// it as `$share/{group}/{pattern}` for load-shared delivery.
pub fn shared_subscription_topic<S: SubscriptionTopic>(
    subscription: &S,
    me: &AgentId,
    maybe_group: Option<&SharedGroup>,
) -> (r: Result<String, Error>)
    ensures
        match r {
            Ok(t) => match maybe_group {
                None => subscription.subscription_topic_spec(me@) == Some(t@),
                Some(g) => (subscription.subscription_topic_spec(me@) matches Some(base) && t@
                    == shared_pattern(g@, base)),
            },
            Err(e) => subscription.subscription_topic_spec(me@) is None && (
            e matches Error::IncompatibleSource { kind, source } && kind
                == subscription.subscription_kind_spec() && source
                == subscription.source_spec()),
        },
{
    match subscription.subscription_topic(me) {
        Ok(base) => match maybe_group {
            Some(group) => {
                let mut t = "$share/".to_owned();
                t.append(group.name.as_str());
                t.append("/");
                t.append(base.as_str());
                Ok(t)
            },
            None => Ok(base),
        },
        Err(e) => Err(e),
    }
}

} // verus!
