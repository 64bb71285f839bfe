use svc_agent::addressing::{
    Destination, EventSubscription, RequestSubscription, ResponseSubscription, SharedGroup, Source,
};
use svc_agent::error::{Error, MessageKind};
use svc_agent::ident::{AccountId, AgentId};
use svc_agent::message::{
    AgentBuilder, AgentConfig, ConnectionMode, OutgoingEventProperties, OutgoingRequestProperties,
    OutgoingResponseProperties, ResponseStatus,
};
use svc_agent::topic::{shared_subscription_topic, DestinationTopic, SubscriptionTopic};

fn me_in(account: &str) -> AgentId {
    AgentId::new("me", AccountId::parse(account).unwrap())
}

#[test]
fn request_unicast_topic_example() {
    let me = me_in("usr02.example.org");
    let to = AgentId::parse("web.svc.usr01.svc.example.org").unwrap();
    let props = OutgoingRequestProperties::new(
        String::from("ping"),
        String::from("agents/me.usr02.example.org/api/v1/in/usr01.svc.example.org"),
        None,
        String::from("c1"),
    );
    let topic = props.destination_topic(&me, &Destination::Unicast(to)).unwrap();
    assert_eq!(topic, "agents/web.svc.usr01.svc.example.org/api/v1/in/usr02.example.org");
}

#[test]
fn event_broadcast_topic_example() {
    let me = me_in("svc.example.org");
    let props = OutgoingEventProperties::new("room.create");
    let topic = props
        .destination_topic(&me, &Destination::Broadcast(String::from("rooms/123/events")))
        .unwrap();
    assert_eq!(topic, "apps/svc.example.org/api/v1/rooms/123/events");
}

#[test]
fn request_multicast_topic() {
    let me = AgentId::new("alpha", AccountId::new("svc", "example.org"));
    let props = OutgoingRequestProperties::new(
        String::from("ping"),
        String::from("t"),
        None,
        String::from("c1"),
    );
    let to = AccountId::new("usr02", "example.org");
    let topic = props.destination_topic(&me, &Destination::Multicast(to)).unwrap();
    assert_eq!(topic, "agents/alpha.svc.example.org/api/v1/out/usr02.example.org");
}

#[test]
fn response_topic_uses_explicit_override() {
    let me = me_in("svc.example.org");
    let status = ResponseStatus::from_u16(200).unwrap();
    let props = OutgoingResponseProperties::new(status, "c1", Some("custom/topic"));
    let to = AgentId::parse("web.svc.example.org").unwrap();
    let topic = props.destination_topic(&me, &Destination::Unicast(to)).unwrap();
    assert_eq!(topic, "custom/topic");
}

#[test]
fn response_unicast_topic_without_override() {
    let me = me_in("svc.example.org");
    let status = ResponseStatus::from_u16(200).unwrap();
    let props = OutgoingResponseProperties::new(status, "c1", None);
    let to = AgentId::parse("web.app.example.org").unwrap();
    let topic = props.destination_topic(&me, &Destination::Unicast(to)).unwrap();
    assert_eq!(topic, "agents/web.app.example.org/api/v1/in/svc.example.org");
}

#[test]
fn event_rejects_unicast_destination() {
    let me = me_in("svc.example.org");
    let props = OutgoingEventProperties::new("e");
    let to = AgentId::parse("web.app.example.org").unwrap();
    let dest = Destination::Unicast(to);
    let err = props.destination_topic(&me, &dest).unwrap_err();
    assert_eq!(err, Error::IncompatibleDestination { kind: MessageKind::Event, destination: dest });
}

#[test]
fn request_rejects_broadcast_destination() {
    let me = me_in("svc.example.org");
    let props = OutgoingRequestProperties::new(
        String::from("m"),
        String::from("t"),
        None,
        String::from("c"),
    );
    let dest = Destination::Broadcast(String::from("uri"));
    let err = props.destination_topic(&me, &dest).unwrap_err();
    assert_eq!(
        err,
        Error::IncompatibleDestination { kind: MessageKind::Request, destination: dest }
    );
}

#[test]
fn response_rejects_multicast_without_override() {
    let me = me_in("svc.example.org");
    let status = ResponseStatus::from_u16(404).unwrap();
    let props = OutgoingResponseProperties::new(status, "c1", None);
    let dest = Destination::Multicast(AccountId::new("usr", "example.org"));
    let err = props.destination_topic(&me, &dest).unwrap_err();
    assert_eq!(
        err,
        Error::IncompatibleDestination { kind: MessageKind::Response, destination: dest }
    );
}

#[test]
fn event_subscription_broadcast_pattern() {
    let me = me_in("svc.example.org");
    let from = AgentId::parse("web.app.example.org").unwrap();
    let sub = EventSubscription::new(Source::Broadcast(from, String::from("rooms/1/events")));
    let pattern = sub.subscription_topic(&me).unwrap();
    assert_eq!(pattern, "apps/app.example.org/api/v1/rooms/1/events");
}

#[test]
fn request_subscription_multicast_pattern() {
    let me = me_in("svc.example.org");
    let sub = RequestSubscription::new(Source::Multicast);
    let pattern = sub.subscription_topic(&me).unwrap();
    assert_eq!(pattern, "agents/+/api/v1/out/svc.example.org");
}

#[test]
fn request_subscription_unicast_from_known_sender() {
    let me = me_in("svc.example.org");
    let from = AgentId::parse("web.app.example.org").unwrap();
    let sub = RequestSubscription::new(Source::Unicast(Some(from)));
    let pattern = sub.subscription_topic(&me).unwrap();
    assert_eq!(pattern, "agents/me.svc.example.org/api/v1/in/app.example.org");
}

#[test]
fn request_subscription_unicast_from_anyone() {
    let me = me_in("svc.example.org");
    let sub = RequestSubscription::new(Source::Unicast(None));
    let pattern = sub.subscription_topic(&me).unwrap();
    assert_eq!(pattern, "agents/me.svc.example.org/api/v1/in/+");
}

#[test]
fn response_subscription_patterns() {
    let me = me_in("svc.example.org");
    let from = AgentId::parse("web.app.example.org").unwrap();
    let sub = ResponseSubscription::new(Source::Unicast(Some(from)));
    assert_eq!(
        sub.subscription_topic(&me).unwrap(),
        "agents/me.svc.example.org/api/v1/in/app.example.org"
    );
    let any = ResponseSubscription::new(Source::Unicast(None));
    assert_eq!(any.subscription_topic(&me).unwrap(), "agents/me.svc.example.org/api/v1/in/+");
}

#[test]
fn event_subscription_rejects_multicast() {
    let me = me_in("svc.example.org");
    let sub = EventSubscription::new(Source::Multicast);
    let err = sub.subscription_topic(&me).unwrap_err();
    assert_eq!(err, Error::IncompatibleSource { kind: MessageKind::Event, source: Source::Multicast });
}

#[test]
fn response_subscription_rejects_broadcast() {
    let me = me_in("svc.example.org");
    let from = AgentId::parse("web.app.example.org").unwrap();
    let source = Source::Broadcast(from.clone(), String::from("uri"));
    let sub = ResponseSubscription::new(Source::Broadcast(from, String::from("uri")));
    let err = sub.subscription_topic(&me).unwrap_err();
    assert_eq!(err, Error::IncompatibleSource { kind: MessageKind::Response, source });
}

#[test]
fn shared_group_wraps_pattern() {
    let me = me_in("svc.example.org");
    let sub = RequestSubscription::new(Source::Multicast);
    let group = SharedGroup::parse("workers").unwrap();
    let pattern = shared_subscription_topic(&sub, &me, Some(&group)).unwrap();
    assert_eq!(pattern, "$share/workers/agents/+/api/v1/out/svc.example.org");
}

#[test]
fn shared_subscription_without_group_is_plain() {
    let me = me_in("svc.example.org");
    let sub = RequestSubscription::new(Source::Unicast(None));
    let pattern = shared_subscription_topic(&sub, &me, None).unwrap();
    assert_eq!(pattern, "agents/me.svc.example.org/api/v1/in/+");
}

#[test]
fn builder_client_id_defaults() {
    let agent = AgentId::new("web", AccountId::new("svc", "example.org"));
    let builder = AgentBuilder::new(agent);
    assert_eq!(builder.mqtt_client_id(), "v1.mqtt3/agents/web.svc.example.org");
}

#[test]
fn builder_client_id_with_overrides() {
    let agent = AgentId::new("web", AccountId::new("svc", "example.org"));
    let builder = AgentBuilder::new(agent).version("v2").mode(ConnectionMode::Bridge);
    assert_eq!(builder.mqtt_client_id(), "v2/bridge-agents/web.svc.example.org");
}

#[test]
fn connection_mode_names() {
    assert_eq!(ConnectionMode::Agent.as_str(), "agents");
    assert_eq!(ConnectionMode::Bridge.as_str(), "bridge-agents");
}

#[test]
fn agent_config_holds_uri() {
    let config = AgentConfig::new("mqtt://broker.example.org:1883");
    assert_eq!(config.uri(), "mqtt://broker.example.org:1883");
}

#[test]
fn response_status_range() {
    assert_eq!(ResponseStatus::from_u16(200).unwrap().as_u16(), 200);
    assert!(ResponseStatus::from_u16(99).is_none());
    assert!(ResponseStatus::from_u16(1000).is_none());
}
