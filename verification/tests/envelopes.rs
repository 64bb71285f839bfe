use svc_agent::addressing::Destination;
use svc_agent::codec::{into_event, into_request, into_response};
use svc_agent::envelope::{
    IncomingEnvelope, IncomingEnvelopeProperties, IntoEnvelope, OutgoingEnvelope,
    OutgoingEnvelopeProperties,
};
use svc_agent::error::{Error, MessageKind};
use svc_agent::ident::{AccountId, AgentId};
use svc_agent::message::{
    AuthnProperties, IncomingMessage, IncomingRequestProperties, OutgoingEvent,
    OutgoingEventProperties, OutgoingRequest, OutgoingRequestProperties, OutgoingResponse,
    OutgoingResponseProperties, ResponseStatus,
};
use svc_agent::topic::DestinationTopic;

fn sender() -> AgentId {
    AgentId::new("web", AccountId::new("svc", "example.org"))
}

fn request_props(authn: bool) -> OutgoingRequestProperties {
    OutgoingRequestProperties::new(
        String::from("room.read"),
        String::from("agents/web.svc.example.org/api/v1/in/app.example.org"),
        if authn { Some(AuthnProperties { agent_id: sender() }) } else { None },
        String::from("corr-1"),
    )
}

#[test]
fn event_envelope_wire_text() {
    let props = OutgoingEventProperties::new("ping");
    let envelope = OutgoingEnvelope::new(
        "\"hi\"",
        OutgoingEnvelopeProperties::Event(props),
        Destination::Broadcast(String::from("rooms/1/events")),
    );
    assert_eq!(
        envelope.to_bytes(),
        "{\"payload\":\"\\\"hi\\\"\",\"properties\":{\"type\":\"event\",\"label\":\"ping\"}}"
    );
}

#[test]
fn response_envelope_wire_text() {
    let status = ResponseStatus::from_u16(200).unwrap();
    let props = OutgoingResponseProperties::new(status, "corr-1", None);
    let to = AgentId::parse("web.app.example.org").unwrap();
    let envelope = OutgoingEnvelope::new(
        "{}",
        OutgoingEnvelopeProperties::Response(props),
        Destination::Unicast(to),
    );
    assert_eq!(
        envelope.to_bytes(),
        "{\"payload\":\"{}\",\"properties\":{\"type\":\"response\",\"status\":200,\"correlation_data\":\"corr-1\"}}"
    );
}

#[test]
fn request_envelope_round_trip() {
    let payload = String::from("{\"name\":\"room 1\"}");
    let to = AgentId::parse("api.app.example.org").unwrap();
    let message = OutgoingRequest::unicast(payload.clone(), request_props(true), &to);
    let envelope = message.into_envelope().unwrap();
    let bytes = envelope.to_bytes();
    let received = IncomingEnvelope::parse(&bytes).unwrap();
    let request = into_request(received).unwrap();
    assert_eq!(request.payload(), &payload);
    assert_eq!(request.properties().method(), "room.read");
    assert_eq!(request.properties().correlation_data, "corr-1");
    assert_eq!(
        request.properties().response_topic,
        "agents/web.svc.example.org/api/v1/in/app.example.org"
    );
    assert_eq!(request.properties().authn.agent_id, sender());
}

#[test]
fn round_trip_escapes_special_characters() {
    let payload = String::from("{\"note\":\"line\\nbreak \\\\ and \\\"quotes\\\"\"}");
    let to = AgentId::parse("api.app.example.org").unwrap();
    let mut props = request_props(true);
    props.correlation_data = String::from("tab\there \"q\" back\\slash\nend");
    let message = OutgoingRequest::unicast(payload.clone(), props, &to);
    let bytes = message.into_envelope().unwrap().to_bytes();
    let received = IncomingEnvelope::parse(&bytes).unwrap();
    let request = into_request(received).unwrap();
    assert_eq!(request.payload(), &payload);
    assert_eq!(request.properties().correlation_data, "tab\there \"q\" back\\slash\nend");
}

#[test]
fn emitted_envelope_is_valid_json_for_serde() {
    let payload = String::from("{\"key\":[1,2,3]}");
    let to = AgentId::parse("api.app.example.org").unwrap();
    let message = OutgoingRequest::unicast(payload.clone(), request_props(true), &to);
    let bytes = message.into_envelope().unwrap().to_bytes();
    let value: serde_json::Value = serde_json::from_str(&bytes).unwrap();
    assert_eq!(value["payload"].as_str().unwrap(), payload);
    assert_eq!(value["properties"]["type"].as_str().unwrap(), "request");
    assert_eq!(value["properties"]["method"].as_str().unwrap(), "room.read");
    assert_eq!(value["properties"]["agent_label"].as_str().unwrap(), "web");
    assert_eq!(value["properties"]["account_label"].as_str().unwrap(), "svc");
    assert_eq!(value["properties"]["audience"].as_str().unwrap(), "example.org");
    let inner: serde_json::Value =
        serde_json::from_str(value["payload"].as_str().unwrap()).unwrap();
    assert_eq!(inner["key"][0].as_u64().unwrap(), 1);
}

#[test]
fn parses_serde_emitted_envelope() {
    let mut props = serde_json::Map::new();
    props.insert(String::from("type"), serde_json::Value::String(String::from("event")));
    props.insert(String::from("agent_label"), serde_json::Value::String(String::from("web")));
    props.insert(String::from("account_label"), serde_json::Value::String(String::from("svc")));
    props.insert(
        String::from("audience"),
        serde_json::Value::String(String::from("example.org")),
    );
    let mut outer = serde_json::Map::new();
    outer.insert(String::from("payload"), serde_json::Value::String(String::from("null")));
    outer.insert(String::from("properties"), serde_json::Value::Object(props));
    let text = serde_json::to_string(&serde_json::Value::Object(outer)).unwrap();
    let envelope = IncomingEnvelope::parse(&text).unwrap();
    let event = into_event(envelope).unwrap();
    assert_eq!(event.payload(), "null");
    assert_eq!(event.properties().authn.agent_id, sender());
}

#[test]
fn parse_accepts_whitespace_and_any_field_order() {
    let text = " {\n\t\"properties\" : { \"correlation_data\" : \"c\" ,\r\n \"type\" : \"response\" , \"status\" : 404 , \"audience\" : \"example.org\" , \"agent_label\" : \"web\" , \"account_label\" : \"svc\" } , \"payload\" : \"null\" } ";
    let envelope = IncomingEnvelope::parse(text).unwrap();
    let response = into_response(envelope).unwrap();
    assert_eq!(response.properties().status.as_u16(), 404);
    assert_eq!(response.properties().correlation_data, "c");
    assert_eq!(response.properties().authn.agent_id, sender());
}

#[test]
fn parse_decodes_unicode_escapes() {
    let text = "{\"payload\":\"\\u0041\\n\\t\\/\",\"properties\":{\"type\":\"event\",\"agent_label\":\"a\",\"account_label\":\"b\",\"audience\":\"c\"}}";
    let envelope = IncomingEnvelope::parse(text).unwrap();
    assert_eq!(envelope.payload(), "A\n\t/");
}

#[test]
fn role_mismatch_on_request_conversion() {
    let text = "{\"type\":\"event\", \"agent_label\":\"a\",\"account_label\":\"b\",\"audience\":\"c\"}";
    let props = IncomingEnvelopeProperties::parse(text).unwrap();
    let envelope = IncomingEnvelope::new(String::from("null"), props);
    let err = into_request(envelope).unwrap_err();
    assert_eq!(err, Error::RoleMismatch { expected: MessageKind::Request, found: MessageKind::Event });
}

#[test]
fn authn_missing_audience() {
    let text = "{\"agent_label\":\"a\",\"account_label\":\"b\"}";
    let err = AuthnProperties::parse(text).unwrap_err();
    assert_eq!(err, Error::MissingField(String::from("audience")));
}

#[test]
fn authn_parse_reconstructs_identity() {
    let text = "{\"agent_label\":\"web\",\"account_label\":\"svc\",\"audience\":\"example.org\"}";
    let authn = AuthnProperties::parse(text).unwrap();
    assert_eq!(authn.agent_id, sender());
}

#[test]
fn authn_duplicate_field() {
    let text = "{\"agent_label\":\"a\",\"agent_label\":\"b\",\"account_label\":\"c\",\"audience\":\"d\"}";
    let err = AuthnProperties::parse(text).unwrap_err();
    assert_eq!(err, Error::DuplicateField(String::from("agent_label")));
}

#[test]
fn authn_unknown_field() {
    let text = "{\"agent_label\":\"a\",\"color\":\"red\"}";
    let err = AuthnProperties::parse(text).unwrap_err();
    assert_eq!(err, Error::UnknownField(String::from("color")));
}

#[test]
fn properties_missing_type_tag() {
    let text = "{\"agent_label\":\"a\",\"account_label\":\"b\",\"audience\":\"c\"}";
    let err = IncomingEnvelopeProperties::parse(text).unwrap_err();
    assert_eq!(err, Error::MissingField(String::from("type")));
}

#[test]
fn properties_unknown_type_tag() {
    let text = "{\"type\":\"signal\",\"agent_label\":\"a\",\"account_label\":\"b\",\"audience\":\"c\"}";
    let err = IncomingEnvelopeProperties::parse(text).unwrap_err();
    assert_eq!(err, Error::InvalidFormat(String::from(text)));
}

#[test]
fn envelope_missing_payload_field() {
    let text = "{\"properties\":{\"type\":\"event\",\"agent_label\":\"a\",\"account_label\":\"b\",\"audience\":\"c\"}}";
    let err = IncomingEnvelope::parse(text).unwrap_err();
    assert_eq!(err, Error::MissingField(String::from("payload")));
}

#[test]
fn envelope_malformed_text() {
    let err = IncomingEnvelope::parse("not json").unwrap_err();
    assert_eq!(err, Error::InvalidFormat(String::from("not json")));
    let err = IncomingEnvelope::parse("{\"payload\":\"x\"").unwrap_err();
    assert_eq!(err, Error::InvalidFormat(String::from("{\"payload\":\"x\"")));
}

#[test]
fn response_status_out_of_range_is_invalid() {
    let text = "{\"payload\":\"null\",\"properties\":{\"type\":\"response\",\"status\":99,\"correlation_data\":\"c\",\"agent_label\":\"a\",\"account_label\":\"b\",\"audience\":\"c\"}}";
    let err = IncomingEnvelope::parse(text).unwrap_err();
    assert_eq!(err, Error::InvalidFormat(String::from(text)));
}

#[test]
fn to_response_preserves_correlation_and_addresses_sender() {
    let requester = AgentId::parse("client.app.example.org").unwrap();
    let props = IncomingRequestProperties {
        method: String::from("room.read"),
        correlation_data: String::from("corr-42"),
        response_topic: String::from("agents/client.app.example.org/api/v1/in/svc.example.org"),
        authn: AuthnProperties { agent_id: requester.clone() },
    };
    let request = IncomingMessage::new(String::from("{}"), props);
    let status = ResponseStatus::from_u16(200).unwrap();
    let response = request.to_response(String::from("{\"ok\":true}"), status);
    assert_eq!(response.properties.correlation_data, "corr-42");
    assert_eq!(response.properties.status, status);
    assert_eq!(
        response.properties.response_topic.as_deref(),
        Some("agents/client.app.example.org/api/v1/in/svc.example.org")
    );
    assert_eq!(response.destination, Destination::Unicast(requester));
}

#[test]
fn envelope_destination_topic_dispatches_by_role() {
    let me = AgentId::new("me", AccountId::new("usr02", "example.org"));
    let to = AgentId::parse("web.svc.usr01.svc.example.org").unwrap();
    let message = OutgoingRequest::unicast(String::from("null"), request_props(false), &to);
    let envelope = message.into_envelope().unwrap();
    let topic = envelope.destination_topic(&me).unwrap();
    assert_eq!(topic, "agents/web.svc.usr01.svc.example.org/api/v1/in/usr02.example.org");
}

#[test]
fn request_without_authn_fails_incoming_parse() {
    let to = AgentId::parse("api.app.example.org").unwrap();
    let message = OutgoingRequest::unicast(String::from("null"), request_props(false), &to);
    let bytes = message.into_envelope().unwrap().to_bytes();
    let err = IncomingEnvelope::parse(&bytes).unwrap_err();
    assert_eq!(err, Error::MissingField(String::from("agent_label")));
}

#[test]
fn event_label_is_unknown_to_incoming_parse() {
    let props = OutgoingEventProperties::new("ping");
    let envelope = OutgoingEnvelope::new(
        "null",
        OutgoingEnvelopeProperties::Event(props),
        Destination::Broadcast(String::from("x")),
    );
    let err = IncomingEnvelope::parse(&envelope.to_bytes()).unwrap_err();
    assert_eq!(err, Error::UnknownField(String::from("label")));
}

#[test]
fn huge_number_is_invalid() {
    let text = "{\"payload\":\"null\",\"properties\":{\"type\":\"response\",\"status\":99999999999999999999999,\"correlation_data\":\"c\",\"agent_label\":\"a\",\"account_label\":\"b\",\"audience\":\"c\"}}";
    let err = IncomingEnvelope::parse(text).unwrap_err();
    assert_eq!(err, Error::InvalidFormat(String::from(text)));
}

#[test]
fn status_boundaries_on_the_wire() {
    for code in [100u16, 999u16] {
        let status = ResponseStatus::from_u16(code).unwrap();
        let props = OutgoingResponseProperties::new(status, "c", None);
        let envelope = OutgoingEnvelope::new(
            "null",
            OutgoingEnvelopeProperties::Response(props),
            Destination::Unicast(AgentId::parse("a.b.c").unwrap()),
        );
        let bytes = envelope.to_bytes();
        assert!(bytes.contains(&format!("\"status\":{}", code)));
        let received = IncomingEnvelope::parse(&bytes).unwrap_err();
        assert_eq!(received, Error::MissingField(String::from("agent_label")));
    }
}

#[test]
fn outgoing_constructors_set_destinations() {
    let to = AgentId::parse("web.app.example.org").unwrap();
    let event = OutgoingEvent::broadcast(String::from("null"), OutgoingEventProperties::new("e"), "uri/x");
    assert_eq!(event.destination, Destination::Broadcast(String::from("uri/x")));
    let request = OutgoingRequest::multicast(String::from("null"), request_props(false), &to);
    assert_eq!(
        request.destination,
        Destination::Multicast(AccountId::new("app", "example.org"))
    );
    let status = ResponseStatus::from_u16(200).unwrap();
    let response = OutgoingResponse::unicast(
        String::from("null"),
        OutgoingResponseProperties::new(status, "c", None),
        &to,
    );
    assert_eq!(response.destination, Destination::Unicast(to));
}

#[test]
fn envelope_kind_reports_role_tag() {
    let text = "{\"type\":\"response\",\"status\":200,\"correlation_data\":\"c\",\"agent_label\":\"a\",\"account_label\":\"b\",\"audience\":\"c\"}";
    let props = IncomingEnvelopeProperties::parse(text).unwrap();
    assert_eq!(props.kind(), MessageKind::Response);
}

#[test]
fn authn_json_round_trip() {
    let authn = AuthnProperties { agent_id: sender() };
    let text = authn.to_json_string();
    assert_eq!(
        text,
        "{\"agent_label\":\"web\",\"account_label\":\"svc\",\"audience\":\"example.org\"}"
    );
    let parsed = AuthnProperties::parse(&text).unwrap();
    assert_eq!(parsed, authn);
}

#[test]
fn envelope_duplicate_payload_field() {
    let text = "{\"payload\":\"a\",\"payload\":\"b\",\"properties\":{\"type\":\"event\",\"agent_label\":\"a\",\"account_label\":\"b\",\"audience\":\"c\"}}";
    let err = IncomingEnvelope::parse(text).unwrap_err();
    assert_eq!(err, Error::DuplicateField(String::from("payload")));
}

#[test]
fn envelope_missing_properties_field() {
    let text = "{\"payload\":\"null\"}";
    let err = IncomingEnvelope::parse(text).unwrap_err();
    assert_eq!(err, Error::MissingField(String::from("properties")));
}

#[test]
fn envelope_ignores_unknown_top_level_fields() {
    let text = "{\"payload\":\"null\",\"extra\":\"ignored\",\"properties\":{\"type\":\"event\",\"agent_label\":\"a\",\"account_label\":\"b\",\"audience\":\"c\"}}";
    let envelope = IncomingEnvelope::parse(text).unwrap();
    assert_eq!(envelope.payload(), "null");
}
