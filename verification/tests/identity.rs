use svc_agent::addressing::SharedGroup;
use svc_agent::error::Error;
use svc_agent::ident::{AccountId, AgentId};

#[test]
fn account_id_canonical_string() {
    let account = AccountId::new("svc", "example.org");
    assert_eq!(account.to_string(), "svc.example.org");
    assert_eq!(account.label(), "svc");
    assert_eq!(account.audience(), "example.org");
}

#[test]
fn account_id_round_trip() {
    let account = AccountId::new("usr02", "example.org");
    let parsed = AccountId::parse(&account.to_string()).unwrap();
    assert_eq!(parsed, account);
}

#[test]
fn account_id_parse_splits_at_first_dot() {
    let parsed = AccountId::parse("svc.usr01.svc.example.org").unwrap();
    assert_eq!(parsed.label(), "svc");
    assert_eq!(parsed.audience(), "usr01.svc.example.org");
}

#[test]
fn account_id_parse_rejects_plain_label() {
    let err = AccountId::parse("nodots").unwrap_err();
    assert_eq!(err, Error::InvalidFormat(String::from("nodots")));
}

#[test]
fn agent_id_canonical_string() {
    let agent = AgentId::new("web", AccountId::new("svc", "usr01.svc.example.org"));
    assert_eq!(agent.to_string(), "web.svc.usr01.svc.example.org");
    assert_eq!(agent.label(), "web");
    assert_eq!(agent.account_id().label(), "svc");
}

#[test]
fn agent_id_round_trip() {
    let agent = AgentId::new("instance01", AccountId::new("app", "example.org"));
    let parsed = AgentId::parse(&agent.to_string()).unwrap();
    assert_eq!(parsed, agent);
}

#[test]
fn agent_id_parse_structure() {
    let parsed = AgentId::parse("web.svc.usr01.svc.example.org").unwrap();
    assert_eq!(parsed.label(), "web");
    assert_eq!(parsed.account_id().label(), "svc");
    assert_eq!(parsed.account_id().audience(), "usr01.svc.example.org");
}

#[test]
fn agent_id_parse_rejects_missing_structure() {
    let err = AgentId::parse("a.b").unwrap_err();
    assert_eq!(err, Error::InvalidFormat(String::from("a.b")));
    let err = AgentId::parse("plain").unwrap_err();
    assert_eq!(err, Error::InvalidFormat(String::from("plain")));
}

#[test]
fn shared_group_round_trip() {
    let group = SharedGroup::parse("loadbalancer").unwrap();
    assert_eq!(group.to_string(), "loadbalancer");
    let again = SharedGroup::parse(&group.to_string()).unwrap();
    assert_eq!(again, group);
}

#[test]
fn shared_group_rejects_empty_name() {
    let err = SharedGroup::parse("").unwrap_err();
    assert_eq!(err, Error::InvalidFormat(String::new()));
}
