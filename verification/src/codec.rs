//! Incoming wire codec: interpreting a parsed envelope object as typed,
//! role-tagged properties.
//!
//! The interpretation is a fold over the parsed members: the envelope
//! level pairs the payload text with the properties object, the
//! properties level reads the role tag and the role's fields, and the
//! flattened authentication fields are reconstructed into identities.
//! Duplicate, unknown and missing fields fail exactly as the
//! specification functions say.

use vstd::prelude::*;
use vstd::string::StringExecFns;

use crate::envelope::{
    IncomingEnvelope, IncomingEnvelopeProperties, IncomingEnvelopePropertiesV, IncomingEnvelopeV,
    incoming_kind, ser_envelope, ser_request_members,
};
use crate::error::{Error, MessageKind};
use crate::ident::{AccountId, AccountIdV, AgentId, AgentIdV};
use crate::json::{
    fields_view, lemma_flat_body_members, lemma_members_cons_str, lemma_members_last_str,
    lemma_top_members_cons_str, lemma_top_members_last_obj, member_str, parse_flat_text,
    parse_top_text, quoted, spec_parse_flat_body, spec_parse_flat_text, spec_parse_members,
    spec_parse_top_members, spec_parse_top_obj, spec_parse_top_text, spec_ws, top_fields_view,
    JsonField, Scalar, ScalarV, TopField, TopVal, TopValV,
};
use crate::message::{
    AuthnProperties, IncomingEvent, IncomingEventProperties, IncomingEventPropertiesV,
    IncomingMessage, IncomingRequest, IncomingRequestProperties, IncomingRequestPropertiesV,
    IncomingResponse, IncomingResponseProperties, IncomingResponsePropertiesV,
    OutgoingRequestPropertiesV, ResponseStatus,
};

verus! {

broadcast use vstd::string::group_string_axioms;

/// What a structured decode can fail with, at specification level.
pub enum ParseErrV {
    Invalid,
    Missing(Seq<char>),
    Dup(Seq<char>),
    Unknown(Seq<char>),
}

/// Whether an error value reports the given specification-level failure
/// on the given input text.
pub open spec fn error_matches(e: Error, ev: ParseErrV, input: Seq<char>) -> bool {
    match ev {
        ParseErrV::Invalid => e matches Error::InvalidFormat(t) && t@ == input,
        ParseErrV::Missing(k) => e matches Error::MissingField(t) && t@ == k,
        ParseErrV::Dup(k) => e matches Error::DuplicateField(t) && t@ == k,
        ParseErrV::Unknown(k) => e matches Error::UnknownField(t) && t@ == k,
    }
}

// ---------------------------------------------------------------------------
// Interpretation, as specification functions
// ---------------------------------------------------------------------------

/// Splits the envelope object into the payload text and the properties
/// members; fields other than those two are ignored.
pub open spec fn extract_top(
    fields: Seq<(Seq<char>, TopValV)>,
    payload: Option<Seq<char>>,
    props: Option<Seq<(Seq<char>, ScalarV)>>,
) -> Result<(Seq<char>, Seq<(Seq<char>, ScalarV)>), ParseErrV>
    decreases fields.len(),
{
    if fields.len() == 0 {
        match payload {
            None => Err(ParseErrV::Missing("payload"@)),
            Some(p) => match props {
                None => Err(ParseErrV::Missing("properties"@)),
                Some(pr) => Ok((p, pr)),
            },
        }
    } else {
        let (k, v) = fields[0];
        if k == "payload"@ {
            if payload is Some {
                Err(ParseErrV::Dup("payload"@))
            } else {
                match v {
                    TopValV::Scalar(ScalarV::S(x)) => extract_top(
                        fields.drop_first(),
                        Some(x),
                        props,
                    ),
                    _ => Err(ParseErrV::Invalid),
                }
            }
        } else if k == "properties"@ {
            if props is Some {
                Err(ParseErrV::Dup("properties"@))
            } else {
                match v {
                    TopValV::Obj(fs) => extract_top(fields.drop_first(), payload, Some(fs)),
                    _ => Err(ParseErrV::Invalid),
                }
            }
        } else {
            extract_top(fields.drop_first(), payload, props)
        }
    }
}

/// Takes the role tag out of the properties members, keeping the other
/// members in order.
pub open spec fn split_type(
    fields: Seq<(Seq<char>, ScalarV)>,
    ty: Option<Seq<char>>,
    rest: Seq<(Seq<char>, ScalarV)>,
) -> Result<(Seq<char>, Seq<(Seq<char>, ScalarV)>), ParseErrV>
    decreases fields.len(),
{
    if fields.len() == 0 {
        match ty {
            None => Err(ParseErrV::Missing("type"@)),
            Some(t) => Ok((t, rest)),
        }
    } else {
        let (k, v) = fields[0];
        if k == "type"@ {
            if ty is Some {
                Err(ParseErrV::Dup("type"@))
            } else {
                match v {
                    ScalarV::S(x) => split_type(fields.drop_first(), Some(x), rest),
                    _ => Err(ParseErrV::Invalid),
                }
            }
        } else {
            split_type(fields.drop_first(), ty, rest.push(fields[0]))
        }
    }
}

/// Reconstructs an agent identity from the three flattened
/// authentication fields; any other field is unknown.
pub open spec fn fold_authn(
    fields: Seq<(Seq<char>, ScalarV)>,
    agent_label: Option<Seq<char>>,
    account_label: Option<Seq<char>>,
    audience: Option<Seq<char>>,
) -> Result<AgentIdV, ParseErrV>
    decreases fields.len(),
{
    if fields.len() == 0 {
        match agent_label {
            None => Err(ParseErrV::Missing("agent_label"@)),
            Some(al) => match account_label {
                None => Err(ParseErrV::Missing("account_label"@)),
                Some(acl) => match audience {
                    None => Err(ParseErrV::Missing("audience"@)),
                    Some(aud) => Ok(
                        AgentIdV {
                            label: al,
                            account_id: AccountIdV { label: acl, audience: aud },
                        },
                    ),
                },
            },
        }
    } else {
        let (k, v) = fields[0];
        if k == "agent_label"@ {
            if agent_label is Some {
                Err(ParseErrV::Dup("agent_label"@))
            } else {
                match v {
                    ScalarV::S(x) => fold_authn(
                        fields.drop_first(),
                        Some(x),
                        account_label,
                        audience,
                    ),
                    _ => Err(ParseErrV::Invalid),
                }
            }
        } else if k == "account_label"@ {
            if account_label is Some {
                Err(ParseErrV::Dup("account_label"@))
            } else {
                match v {
                    ScalarV::S(x) => fold_authn(fields.drop_first(), agent_label, Some(x), audience),
                    _ => Err(ParseErrV::Invalid),
                }
            }
        } else if k == "audience"@ {
            if audience is Some {
                Err(ParseErrV::Dup("audience"@))
            } else {
                match v {
                    ScalarV::S(x) => fold_authn(
                        fields.drop_first(),
                        agent_label,
                        account_label,
                        Some(x),
                    ),
                    _ => Err(ParseErrV::Invalid),
                }
            }
        } else {
            Err(ParseErrV::Unknown(k))
        }
    }
}

/// Reads the members of a request properties object: the request fields
/// and the flattened authentication.
pub open spec fn fold_request(
    fields: Seq<(Seq<char>, ScalarV)>,
    method: Option<Seq<char>>,
    correlation_data: Option<Seq<char>>,
    response_topic: Option<Seq<char>>,
    agent_label: Option<Seq<char>>,
    account_label: Option<Seq<char>>,
    audience: Option<Seq<char>>,
) -> Result<IncomingRequestPropertiesV, ParseErrV>
    decreases fields.len(),
{
    if fields.len() == 0 {
        match method {
            None => Err(ParseErrV::Missing("method"@)),
            Some(m) => match correlation_data {
                None => Err(ParseErrV::Missing("correlation_data"@)),
                Some(cd) => match response_topic {
                    None => Err(ParseErrV::Missing("response_topic"@)),
                    Some(rt) => match agent_label {
                        None => Err(ParseErrV::Missing("agent_label"@)),
                        Some(al) => match account_label {
                            None => Err(ParseErrV::Missing("account_label"@)),
                            Some(acl) => match audience {
                                None => Err(ParseErrV::Missing("audience"@)),
                                Some(aud) => Ok(
                                    IncomingRequestPropertiesV {
                                        method: m,
                                        correlation_data: cd,
                                        response_topic: rt,
                                        agent_id: AgentIdV {
                                            label: al,
                                            account_id: AccountIdV { label: acl, audience: aud },
                                        },
                                    },
                                ),
                            },
                        },
                    },
                },
            },
        }
    } else {
        let (k, v) = fields[0];
        if k == "method"@ {
            if method is Some {
                Err(ParseErrV::Dup("method"@))
            } else {
                match v {
                    ScalarV::S(x) => fold_request(
                        fields.drop_first(),
                        Some(x),
                        correlation_data,
                        response_topic,
                        agent_label,
                        account_label,
                        audience,
                    ),
                    _ => Err(ParseErrV::Invalid),
                }
            }
        } else if k == "correlation_data"@ {
            if correlation_data is Some {
                Err(ParseErrV::Dup("correlation_data"@))
            } else {
                match v {
                    ScalarV::S(x) => fold_request(
                        fields.drop_first(),
                        method,
                        Some(x),
                        response_topic,
                        agent_label,
                        account_label,
                        audience,
                    ),
                    _ => Err(ParseErrV::Invalid),
                }
            }
        } else if k == "response_topic"@ {
            if response_topic is Some {
                Err(ParseErrV::Dup("response_topic"@))
            } else {
                match v {
                    ScalarV::S(x) => fold_request(
                        fields.drop_first(),
                        method,
                        correlation_data,
                        Some(x),
                        agent_label,
                        account_label,
                        audience,
                    ),
                    _ => Err(ParseErrV::Invalid),
                }
            }
        } else if k == "agent_label"@ {
            if agent_label is Some {
                Err(ParseErrV::Dup("agent_label"@))
            } else {
                match v {
                    ScalarV::S(x) => fold_request(
                        fields.drop_first(),
                        method,
                        correlation_data,
                        response_topic,
                        Some(x),
                        account_label,
                        audience,
                    ),
                    _ => Err(ParseErrV::Invalid),
                }
            }
        } else if k == "account_label"@ {
            if account_label is Some {
                Err(ParseErrV::Dup("account_label"@))
            } else {
                match v {
                    ScalarV::S(x) => fold_request(
                        fields.drop_first(),
                        method,
                        correlation_data,
                        response_topic,
                        agent_label,
                        Some(x),
                        audience,
                    ),
                    _ => Err(ParseErrV::Invalid),
                }
            }
        } else if k == "audience"@ {
            if audience is Some {
                Err(ParseErrV::Dup("audience"@))
            } else {
                match v {
                    ScalarV::S(x) => fold_request(
                        fields.drop_first(),
                        method,
                        correlation_data,
                        response_topic,
                        agent_label,
                        account_label,
                        Some(x),
                    ),
                    _ => Err(ParseErrV::Invalid),
                }
            }
        } else {
            Err(ParseErrV::Unknown(k))
        }
    }
}

/// Reads the members of a response properties object: the numeric
/// status, the correlation data and the flattened authentication.
pub open spec fn fold_response(
    fields: Seq<(Seq<char>, ScalarV)>,
    status: Option<int>,
    correlation_data: Option<Seq<char>>,
    agent_label: Option<Seq<char>>,
    account_label: Option<Seq<char>>,
    audience: Option<Seq<char>>,
) -> Result<IncomingResponsePropertiesV, ParseErrV>
    decreases fields.len(),
{
    if fields.len() == 0 {
        match status {
            None => Err(ParseErrV::Missing("status"@)),
            Some(st) => match correlation_data {
                None => Err(ParseErrV::Missing("correlation_data"@)),
                Some(cd) => match agent_label {
                    None => Err(ParseErrV::Missing("agent_label"@)),
                    Some(al) => match account_label {
                        None => Err(ParseErrV::Missing("account_label"@)),
                        Some(acl) => match audience {
                            None => Err(ParseErrV::Missing("audience"@)),
                            Some(aud) => Ok(
                                IncomingResponsePropertiesV {
                                    status: st,
                                    correlation_data: cd,
                                    agent_id: AgentIdV {
                                        label: al,
                                        account_id: AccountIdV { label: acl, audience: aud },
                                    },
                                },
                            ),
                        },
                    },
                },
            },
        }
    } else {
        let (k, v) = fields[0];
        if k == "status"@ {
            if status is Some {
                Err(ParseErrV::Dup("status"@))
            } else {
                match v {
                    ScalarV::N(n) => if 100 <= n <= 999 {
                        fold_response(
                            fields.drop_first(),
                            Some(n as int),
                            correlation_data,
                            agent_label,
                            account_label,
                            audience,
                        )
                    } else {
                        Err(ParseErrV::Invalid)
                    },
                    _ => Err(ParseErrV::Invalid),
                }
            }
        } else if k == "correlation_data"@ {
            if correlation_data is Some {
                Err(ParseErrV::Dup("correlation_data"@))
            } else {
                match v {
                    ScalarV::S(x) => fold_response(
                        fields.drop_first(),
                        status,
                        Some(x),
                        agent_label,
                        account_label,
                        audience,
                    ),
                    _ => Err(ParseErrV::Invalid),
                }
            }
        } else if k == "agent_label"@ {
            if agent_label is Some {
                Err(ParseErrV::Dup("agent_label"@))
            } else {
                match v {
                    ScalarV::S(x) => fold_response(
                        fields.drop_first(),
                        status,
                        correlation_data,
                        Some(x),
                        account_label,
                        audience,
                    ),
                    _ => Err(ParseErrV::Invalid),
                }
            }
        } else if k == "account_label"@ {
            if account_label is Some {
                Err(ParseErrV::Dup("account_label"@))
            } else {
                match v {
                    ScalarV::S(x) => fold_response(
                        fields.drop_first(),
                        status,
                        correlation_data,
                        agent_label,
                        Some(x),
                        audience,
                    ),
                    _ => Err(ParseErrV::Invalid),
                }
            }
        } else if k == "audience"@ {
            if audience is Some {
                Err(ParseErrV::Dup("audience"@))
            } else {
                match v {
                    ScalarV::S(x) => fold_response(
                        fields.drop_first(),
                        status,
                        correlation_data,
                        agent_label,
                        account_label,
                        Some(x),
                    ),
                    _ => Err(ParseErrV::Invalid),
                }
            }
        } else {
            Err(ParseErrV::Unknown(k))
        }
    }
}

/// Interprets the members of a properties object: the role tag picks the
/// role, the remaining members are read by the role's rules.
pub open spec fn interpret_props(fields: Seq<(Seq<char>, ScalarV)>) -> Result<
    IncomingEnvelopePropertiesV,
    ParseErrV,
> {
    match split_type(fields, None, Seq::empty()) {
        Err(e) => Err(e),
        Ok((ty, rest)) => if ty == "event"@ {
            match fold_authn(rest, None, None, None) {
                Err(e) => Err(e),
                Ok(agent_id) => Ok(
                    IncomingEnvelopePropertiesV::Event(IncomingEventPropertiesV { agent_id }),
                ),
            }
        } else if ty == "request"@ {
            match fold_request(rest, None, None, None, None, None, None) {
                Err(e) => Err(e),
                Ok(p) => Ok(IncomingEnvelopePropertiesV::Request(p)),
            }
        } else if ty == "response"@ {
            match fold_response(rest, None, None, None, None, None) {
                Err(e) => Err(e),
                Ok(p) => Ok(IncomingEnvelopePropertiesV::Response(p)),
            }
        } else {
            Err(ParseErrV::Invalid)
        },
    }
}

/// What a whole envelope text means: parse, split, interpret.
pub open spec fn spec_parse_envelope(s: Seq<char>) -> Result<IncomingEnvelopeV, ParseErrV> {
    match spec_parse_top_text(s) {
        None => Err(ParseErrV::Invalid),
        Some(fields) => match extract_top(fields, None, None) {
            Err(e) => Err(e),
            Ok((payload, pf)) => match interpret_props(pf) {
                Err(e) => Err(e),
                Ok(properties) => Ok(IncomingEnvelopeV { payload, properties }),
            },
        },
    }
}

/// What a whole properties-object text means.
pub open spec fn spec_parse_props(s: Seq<char>) -> Result<IncomingEnvelopePropertiesV, ParseErrV> {
    match spec_parse_flat_text(s) {
        None => Err(ParseErrV::Invalid),
        Some(fields) => interpret_props(fields),
    }
}

/// What a whole authentication-object text means.
pub open spec fn spec_parse_authn(s: Seq<char>) -> Result<AgentIdV, ParseErrV> {
    match spec_parse_flat_text(s) {
        None => Err(ParseErrV::Invalid),
        Some(fields) => fold_authn(fields, None, None, None),
    }
}

// ---------------------------------------------------------------------------
// The executable interpretation
// ---------------------------------------------------------------------------

/// Whether two texts have the same characters.
fn str_eq(a: &str, b: &str) -> (r: bool)
    ensures
        r == (a@ == b@),
{
    let sa: String = a.to_owned();
    let sb: String = b.to_owned();
    sa == sb
}

/// The view of an optional text.
pub open spec fn opt_str_view(o: Option<String>) -> Option<Seq<char>> {
    match o {
        Some(s) => Some(s@),
        None => None,
    }
}

/// The view of optional parsed members.
pub open spec fn opt_fields_view(o: Option<Vec<JsonField>>) -> Option<Seq<(Seq<char>, ScalarV)>> {
    match o {
        Some(v) => Some(fields_view(v@)),
        None => None,
    }
}

/// The view of an optional status.
pub open spec fn opt_status_view(o: Option<ResponseStatus>) -> Option<int> {
    match o {
        Some(s) => Some(s.code_spec() as int),
        None => None,
    }
}

fn extract_top_rec(
    fields: Vec<TopField>,
    payload: Option<String>,
    props: Option<Vec<JsonField>>,
    text: &str,
) -> (r: Result<(String, Vec<JsonField>), Error>)
    ensures
        match extract_top(top_fields_view(fields@), opt_str_view(payload), opt_fields_view(props)) {
            Ok((p, pf)) => r matches Ok((ps, pv)) && ps@ == p && fields_view(pv@) == pf,
            Err(ev) => r matches Err(e) && error_matches(e, ev, text@),
        },
    decreases fields@.len(),
{
    let ghost all = fields@;
    let mut fields = fields;
    if fields.len() == 0 {
        match payload {
            None => Err(Error::MissingField("payload".to_owned())),
            Some(p) => match props {
                None => Err(Error::MissingField("properties".to_owned())),
                Some(pr) => Ok((p, pr)),
            },
        }
    } else {
        let f = fields.remove(0);
        proof {
            assert(fields@ =~= all.drop_first());
            assert(top_fields_view(all).drop_first() =~= top_fields_view(all.drop_first()));
            assert(top_fields_view(all)[0] == (f.key@, f.value@));
        }
        if str_eq(f.key.as_str(), "payload") {
            if payload.is_some() {
                Err(Error::DuplicateField("payload".to_owned()))
            } else {
                match f.value {
                    TopVal::Scalar(Scalar::Str(x)) => extract_top_rec(fields, Some(x), props, text),
                    _ => Err(Error::InvalidFormat(text.to_owned())),
                }
            }
        } else if str_eq(f.key.as_str(), "properties") {
            if props.is_some() {
                Err(Error::DuplicateField("properties".to_owned()))
            } else {
                match f.value {
                    TopVal::Obj(fs) => extract_top_rec(fields, payload, Some(fs), text),
                    _ => Err(Error::InvalidFormat(text.to_owned())),
                }
            }
        } else {
            extract_top_rec(fields, payload, props, text)
        }
    }
}

fn split_type_rec(
    fields: Vec<JsonField>,
    ty: Option<String>,
    rest: Vec<JsonField>,
    text: &str,
) -> (r: Result<(String, Vec<JsonField>), Error>)
    ensures
        match split_type(fields_view(fields@), opt_str_view(ty), fields_view(rest@)) {
            Ok((t, fs)) => r matches Ok((ts, fv)) && ts@ == t && fields_view(fv@) == fs,
            Err(ev) => r matches Err(e) && error_matches(e, ev, text@),
        },
    decreases fields@.len(),
{
    let ghost all = fields@;
    let ghost rest0 = rest@;
    let mut fields = fields;
    let mut rest = rest;
    if fields.len() == 0 {
        match ty {
            None => Err(Error::MissingField("type".to_owned())),
            Some(t) => Ok((t, rest)),
        }
    } else {
        let f = fields.remove(0);
        proof {
            assert(fields@ =~= all.drop_first());
            assert(fields_view(all).drop_first() =~= fields_view(all.drop_first()));
            assert(fields_view(all)[0] == (f.key@, f.value@));
        }
        if str_eq(f.key.as_str(), "type") {
            if ty.is_some() {
                Err(Error::DuplicateField("type".to_owned()))
            } else {
                match f.value {
                    Scalar::Str(x) => split_type_rec(fields, Some(x), rest, text),
                    _ => Err(Error::InvalidFormat(text.to_owned())),
                }
            }
        } else {
            rest.push(f);
            proof {
                assert(fields_view(rest@) =~= fields_view(rest0).push(fields_view(all)[0]));
            }
            split_type_rec(fields, ty, rest, text)
        }
    }
}

fn fold_authn_rec(
    fields: Vec<JsonField>,
    agent_label: Option<String>,
    account_label: Option<String>,
    audience: Option<String>,
    text: &str,
) -> (r: Result<AuthnProperties, Error>)
    ensures
        match fold_authn(
            fields_view(fields@),
            opt_str_view(agent_label),
            opt_str_view(account_label),
            opt_str_view(audience),
        ) {
            Ok(v) => r matches Ok(a) && a@ == v,
            Err(ev) => r matches Err(e) && error_matches(e, ev, text@),
        },
    decreases fields@.len(),
{
    let ghost all = fields@;
    let mut fields = fields;
    if fields.len() == 0 {
        match agent_label {
            None => Err(Error::MissingField("agent_label".to_owned())),
            Some(al) => match account_label {
                None => Err(Error::MissingField("account_label".to_owned())),
                Some(acl) => match audience {
                    None => Err(Error::MissingField("audience".to_owned())),
                    Some(aud) => Ok(
                        AuthnProperties {
                            agent_id: AgentId {
                                label: al,
                                account_id: AccountId { label: acl, audience: aud },
                            },
                        },
                    ),
                },
            },
        }
    } else {
        let f = fields.remove(0);
        proof {
            assert(fields@ =~= all.drop_first());
            assert(fields_view(all).drop_first() =~= fields_view(all.drop_first()));
            assert(fields_view(all)[0] == (f.key@, f.value@));
        }
        if str_eq(f.key.as_str(), "agent_label") {
            if agent_label.is_some() {
                Err(Error::DuplicateField("agent_label".to_owned()))
            } else {
                match f.value {
                    Scalar::Str(x) => fold_authn_rec(fields, Some(x), account_label, audience, text),
                    _ => Err(Error::InvalidFormat(text.to_owned())),
                }
            }
        } else if str_eq(f.key.as_str(), "account_label") {
            if account_label.is_some() {
                Err(Error::DuplicateField("account_label".to_owned()))
            } else {
                match f.value {
                    Scalar::Str(x) => fold_authn_rec(fields, agent_label, Some(x), audience, text),
                    _ => Err(Error::InvalidFormat(text.to_owned())),
                }
            }
        } else if str_eq(f.key.as_str(), "audience") {
            if audience.is_some() {
                Err(Error::DuplicateField("audience".to_owned()))
            } else {
                match f.value {
                    Scalar::Str(x) => fold_authn_rec(
                        fields,
                        agent_label,
                        account_label,
                        Some(x),
                        text,
                    ),
                    _ => Err(Error::InvalidFormat(text.to_owned())),
                }
            }
        } else {
            Err(Error::UnknownField(f.key))
        }
    }
}

fn fold_request_rec(
    fields: Vec<JsonField>,
    method: Option<String>,
    correlation_data: Option<String>,
    response_topic: Option<String>,
    agent_label: Option<String>,
    account_label: Option<String>,
    audience: Option<String>,
    text: &str,
) -> (r: Result<IncomingRequestProperties, Error>)
    ensures
        match fold_request(
            fields_view(fields@),
            opt_str_view(method),
            opt_str_view(correlation_data),
            opt_str_view(response_topic),
            opt_str_view(agent_label),
            opt_str_view(account_label),
            opt_str_view(audience),
        ) {
            Ok(v) => r matches Ok(p) && p@ == v,
            Err(ev) => r matches Err(e) && error_matches(e, ev, text@),
        },
    decreases fields@.len(),
{
    let ghost all = fields@;
    let mut fields = fields;
    if fields.len() == 0 {
        match method {
            None => Err(Error::MissingField("method".to_owned())),
            Some(m) => match correlation_data {
                None => Err(Error::MissingField("correlation_data".to_owned())),
                Some(cd) => match response_topic {
                    None => Err(Error::MissingField("response_topic".to_owned())),
                    Some(rt) => match agent_label {
                        None => Err(Error::MissingField("agent_label".to_owned())),
                        Some(al) => match account_label {
                            None => Err(Error::MissingField("account_label".to_owned())),
                            Some(acl) => match audience {
                                None => Err(Error::MissingField("audience".to_owned())),
                                Some(aud) => Ok(
                                    IncomingRequestProperties {
                                        method: m,
                                        correlation_data: cd,
                                        response_topic: rt,
                                        authn: AuthnProperties {
                                            agent_id: AgentId {
                                                label: al,
                                                account_id: AccountId {
                                                    label: acl,
                                                    audience: aud,
                                                },
                                            },
                                        },
                                    },
                                ),
                            },
                        },
                    },
                },
            },
        }
    } else {
        let f = fields.remove(0);
        proof {
            assert(fields@ =~= all.drop_first());
            assert(fields_view(all).drop_first() =~= fields_view(all.drop_first()));
            assert(fields_view(all)[0] == (f.key@, f.value@));
        }
        if str_eq(f.key.as_str(), "method") {
            if method.is_some() {
                Err(Error::DuplicateField("method".to_owned()))
            } else {
                match f.value {
                    Scalar::Str(x) => fold_request_rec(
                        fields,
                        Some(x),
                        correlation_data,
                        response_topic,
                        agent_label,
                        account_label,
                        audience,
                        text,
                    ),
                    _ => Err(Error::InvalidFormat(text.to_owned())),
                }
            }
        } else if str_eq(f.key.as_str(), "correlation_data") {
            if correlation_data.is_some() {
                Err(Error::DuplicateField("correlation_data".to_owned()))
            } else {
                match f.value {
                    Scalar::Str(x) => fold_request_rec(
                        fields,
                        method,
                        Some(x),
                        response_topic,
                        agent_label,
                        account_label,
                        audience,
                        text,
                    ),
                    _ => Err(Error::InvalidFormat(text.to_owned())),
                }
            }
        } else if str_eq(f.key.as_str(), "response_topic") {
            if response_topic.is_some() {
                Err(Error::DuplicateField("response_topic".to_owned()))
            } else {
                match f.value {
                    Scalar::Str(x) => fold_request_rec(
                        fields,
                        method,
                        correlation_data,
                        Some(x),
                        agent_label,
                        account_label,
                        audience,
                        text,
                    ),
                    _ => Err(Error::InvalidFormat(text.to_owned())),
                }
            }
        } else if str_eq(f.key.as_str(), "agent_label") {
            if agent_label.is_some() {
                Err(Error::DuplicateField("agent_label".to_owned()))
            } else {
                match f.value {
                    Scalar::Str(x) => fold_request_rec(
                        fields,
                        method,
                        correlation_data,
                        response_topic,
                        Some(x),
                        account_label,
                        audience,
                        text,
                    ),
                    _ => Err(Error::InvalidFormat(text.to_owned())),
                }
            }
        } else if str_eq(f.key.as_str(), "account_label") {
            if account_label.is_some() {
                Err(Error::DuplicateField("account_label".to_owned()))
            } else {
                match f.value {
                    Scalar::Str(x) => fold_request_rec(
                        fields,
                        method,
                        correlation_data,
                        response_topic,
                        agent_label,
                        Some(x),
                        audience,
                        text,
                    ),
                    _ => Err(Error::InvalidFormat(text.to_owned())),
                }
            }
        } else if str_eq(f.key.as_str(), "audience") {
            if audience.is_some() {
                Err(Error::DuplicateField("audience".to_owned()))
            } else {
                match f.value {
                    Scalar::Str(x) => fold_request_rec(
                        fields,
                        method,
                        correlation_data,
                        response_topic,
                        agent_label,
                        account_label,
                        Some(x),
                        text,
                    ),
                    _ => Err(Error::InvalidFormat(text.to_owned())),
                }
            }
        } else {
            Err(Error::UnknownField(f.key))
        }
    }
}

fn fold_response_rec(
    fields: Vec<JsonField>,
    status: Option<ResponseStatus>,
    correlation_data: Option<String>,
    agent_label: Option<String>,
    account_label: Option<String>,
    audience: Option<String>,
    text: &str,
) -> (r: Result<IncomingResponseProperties, Error>)
    ensures
        match fold_response(
            fields_view(fields@),
            opt_status_view(status),
            opt_str_view(correlation_data),
            opt_str_view(agent_label),
            opt_str_view(account_label),
            opt_str_view(audience),
        ) {
            Ok(v) => r matches Ok(p) && p@ == v,
            Err(ev) => r matches Err(e) && error_matches(e, ev, text@),
        },
    decreases fields@.len(),
{
    let ghost all = fields@;
    let mut fields = fields;
    if fields.len() == 0 {
        match status {
            None => Err(Error::MissingField("status".to_owned())),
            Some(st) => match correlation_data {
                None => Err(Error::MissingField("correlation_data".to_owned())),
                Some(cd) => match agent_label {
                    None => Err(Error::MissingField("agent_label".to_owned())),
                    Some(al) => match account_label {
                        None => Err(Error::MissingField("account_label".to_owned())),
                        Some(acl) => match audience {
                            None => Err(Error::MissingField("audience".to_owned())),
                            Some(aud) => Ok(
                                IncomingResponseProperties {
                                    status: st,
                                    correlation_data: cd,
                                    authn: AuthnProperties {
                                        agent_id: AgentId {
                                            label: al,
                                            account_id: AccountId { label: acl, audience: aud },
                                        },
                                    },
                                },
                            ),
                        },
                    },
                },
            },
        }
    } else {
        let f = fields.remove(0);
        proof {
            assert(fields@ =~= all.drop_first());
            assert(fields_view(all).drop_first() =~= fields_view(all.drop_first()));
            assert(fields_view(all)[0] == (f.key@, f.value@));
        }
        if str_eq(f.key.as_str(), "status") {
            if status.is_some() {
                Err(Error::DuplicateField("status".to_owned()))
            } else {
                match f.value {
                    Scalar::Num(n) => if 100 <= n && n <= 999 {
                        match ResponseStatus::from_u16(n as u16) {
                            Some(st) => fold_response_rec(
                                fields,
                                Some(st),
                                correlation_data,
                                agent_label,
                                account_label,
                                audience,
                                text,
                            ),
                            None => vstd::pervasive::unreached(),
                        }
                    } else {
                        Err(Error::InvalidFormat(text.to_owned()))
                    },
                    _ => Err(Error::InvalidFormat(text.to_owned())),
                }
            }
        } else if str_eq(f.key.as_str(), "correlation_data") {
            if correlation_data.is_some() {
                Err(Error::DuplicateField("correlation_data".to_owned()))
            } else {
                match f.value {
                    Scalar::Str(x) => fold_response_rec(
                        fields,
                        status,
                        Some(x),
                        agent_label,
                        account_label,
                        audience,
                        text,
                    ),
                    _ => Err(Error::InvalidFormat(text.to_owned())),
                }
            }
        } else if str_eq(f.key.as_str(), "agent_label") {
            if agent_label.is_some() {
                Err(Error::DuplicateField("agent_label".to_owned()))
            } else {
                match f.value {
                    Scalar::Str(x) => fold_response_rec(
                        fields,
                        status,
                        correlation_data,
                        Some(x),
                        account_label,
                        audience,
                        text,
                    ),
                    _ => Err(Error::InvalidFormat(text.to_owned())),
                }
            }
        } else if str_eq(f.key.as_str(), "account_label") {
            if account_label.is_some() {
                Err(Error::DuplicateField("account_label".to_owned()))
            } else {
                match f.value {
                    Scalar::Str(x) => fold_response_rec(
                        fields,
                        status,
                        correlation_data,
                        agent_label,
                        Some(x),
                        audience,
                        text,
                    ),
                    _ => Err(Error::InvalidFormat(text.to_owned())),
                }
            }
        } else if str_eq(f.key.as_str(), "audience") {
            if audience.is_some() {
                Err(Error::DuplicateField("audience".to_owned()))
            } else {
                match f.value {
                    Scalar::Str(x) => fold_response_rec(
                        fields,
                        status,
                        correlation_data,
                        agent_label,
                        account_label,
                        Some(x),
                        text,
                    ),
                    _ => Err(Error::InvalidFormat(text.to_owned())),
                }
            }
        } else {
            Err(Error::UnknownField(f.key))
        }
    }
}

fn interpret_props_exec(fields: Vec<JsonField>, text: &str) -> (r: Result<
    IncomingEnvelopeProperties,
    Error,
>)
    ensures
        match interpret_props(fields_view(fields@)) {
            Ok(v) => r matches Ok(p) && p@ == v,
            Err(ev) => r matches Err(e) && error_matches(e, ev, text@),
        },
{
    let empty_rest: Vec<JsonField> = Vec::new();
    proof {
        assert(fields_view(empty_rest@) =~= Seq::<(Seq<char>, ScalarV)>::empty());
    }
    match split_type_rec(fields, None, empty_rest, text) {
        Err(e) => Err(e),
        Ok((ty, rest)) => {
            if str_eq(ty.as_str(), "event") {
                match fold_authn_rec(rest, None, None, None, text) {
                    Err(e) => Err(e),
                    Ok(authn) => Ok(
                        IncomingEnvelopeProperties::Event(IncomingEventProperties { authn }),
                    ),
                }
            } else if str_eq(ty.as_str(), "request") {
                match fold_request_rec(rest, None, None, None, None, None, None, text) {
                    Err(e) => Err(e),
                    Ok(p) => Ok(IncomingEnvelopeProperties::Request(p)),
                }
            } else if str_eq(ty.as_str(), "response") {
                match fold_response_rec(rest, None, None, None, None, None, text) {
                    Err(e) => Err(e),
                    Ok(p) => Ok(IncomingEnvelopeProperties::Response(p)),
                }
            } else {
                Err(Error::InvalidFormat(text.to_owned()))
            }
        },
    }
}

impl IncomingEnvelope {
    /// Deserializes a wire text into an envelope: generic JSON structure
    /// first, then role-tagged properties; malformed text is
    /// `InvalidFormat`, structured faults are the field errors the
    /// specification function names.
    pub fn parse(text: &str) -> (r: Result<IncomingEnvelope, Error>)
        ensures
            match spec_parse_envelope(text@) {
                Ok(v) => r matches Ok(env) && env@ == v,
                Err(ev) => r matches Err(e) && error_matches(e, ev, text@),
            },
    {
        match parse_top_text(text) {
            None => Err(Error::InvalidFormat(text.to_owned())),
            Some(fields) => match extract_top_rec(fields, None, None, text) {
                Err(e) => Err(e),
                Ok((payload, pf)) => match interpret_props_exec(pf, text) {
                    Err(e) => Err(e),
                    Ok(properties) => Ok(IncomingEnvelope { payload, properties }),
                },
            },
        }
    }
}

impl IncomingEnvelopeProperties {
    /// Deserializes a properties object alone, role tag included.
    pub fn parse(text: &str) -> (r: Result<IncomingEnvelopeProperties, Error>)
        ensures
            match spec_parse_props(text@) {
                Ok(v) => r matches Ok(p) && p@ == v,
                Err(ev) => r matches Err(e) && error_matches(e, ev, text@),
            },
    {
        match parse_flat_text(text) {
            None => Err(Error::InvalidFormat(text.to_owned())),
            Some(fields) => interpret_props_exec(fields, text),
        }
    }
}

impl AuthnProperties {
    /// Deserializes the three flattened authentication fields from a JSON
    /// object of their own, failing on any missing, duplicate or unknown
    /// field.
    pub fn parse(text: &str) -> (r: Result<AuthnProperties, Error>)
        ensures
            match spec_parse_authn(text@) {
                Ok(v) => r matches Ok(a) && a@ == v,
                Err(ev) => r matches Err(e) && error_matches(e, ev, text@),
            },
    {
        match parse_flat_text(text) {
            None => Err(Error::InvalidFormat(text.to_owned())),
            Some(fields) => fold_authn_rec(fields, None, None, None, text),
        }
    }
}

// ---------------------------------------------------------------------------
// Round trip of the envelope codec
// ---------------------------------------------------------------------------

/// The parsed members of a serialized request properties object carrying
/// authentication.
pub open spec fn request_fields(p: OutgoingRequestPropertiesV, a: AgentIdV) -> Seq<
    (Seq<char>, ScalarV),
> {
    seq![
        ("type"@, ScalarV::S("request"@)),
        ("method"@, ScalarV::S(p.method)),
        ("correlation_data"@, ScalarV::S(p.correlation_data)),
        ("response_topic"@, ScalarV::S(p.response_topic)),
        ("agent_label"@, ScalarV::S(a.label)),
        ("account_label"@, ScalarV::S(a.account_id.label)),
        ("audience"@, ScalarV::S(a.account_id.audience)),
    ]
}

/// Parsing the emitted members of a request properties object gives back
/// its fields, whatever follows.
#[verifier::rlimit(100)]
proof fn lemma_rt_request_members(p: OutgoingRequestPropertiesV, a: AgentIdV, rest: Seq<char>)
    requires
        p.authn == Some(a),
    ensures
        spec_parse_members(ser_request_members(p) + rest) == Some((request_fields(p, a), rest)),
{
    let t6 = member_str("audience"@, a.account_id.audience) + seq!['}'] + rest;
    lemma_members_last_str("audience"@, a.account_id.audience, rest);
    let t5 = member_str("account_label"@, a.account_id.label) + seq![','] + t6;
    lemma_members_cons_str("account_label"@, a.account_id.label, t6);
    let t4 = member_str("agent_label"@, a.label) + seq![','] + t5;
    lemma_members_cons_str("agent_label"@, a.label, t5);
    let t3 = member_str("response_topic"@, p.response_topic) + seq![','] + t4;
    lemma_members_cons_str("response_topic"@, p.response_topic, t4);
    let t2 = member_str("correlation_data"@, p.correlation_data) + seq![','] + t3;
    lemma_members_cons_str("correlation_data"@, p.correlation_data, t3);
    let t1 = member_str("method"@, p.method) + seq![','] + t2;
    lemma_members_cons_str("method"@, p.method, t2);
    let t0 = member_str("type"@, "request"@) + seq![','] + t1;
    lemma_members_cons_str("type"@, "request"@, t1);
    assert(ser_request_members(p) + rest =~= t0);
    assert(seq![("type"@, ScalarV::S("request"@))] + (seq![("method"@, ScalarV::S(p.method))] + (
    seq![("correlation_data"@, ScalarV::S(p.correlation_data))] + (seq![
        ("response_topic"@, ScalarV::S(p.response_topic)),
    ] + (seq![("agent_label"@, ScalarV::S(a.label))] + (seq![
        ("account_label"@, ScalarV::S(a.account_id.label)),
    ] + seq![("audience"@, ScalarV::S(a.account_id.audience))]))))) =~= request_fields(p, a));
}

/// The lengths of the field names and role tags, for telling them apart.
proof fn lemma_key_lens()
    ensures
        "type"@.len() == 4,
        "method"@.len() == 6,
        "correlation_data"@.len() == 16,
        "response_topic"@.len() == 14,
        "agent_label"@.len() == 11,
        "account_label"@.len() == 13,
        "audience"@.len() == 8,
        "payload"@.len() == 7,
        "properties"@.len() == 10,
        "event"@.len() == 5,
        "request"@.len() == 7,
{
    reveal_strlit("type");
    reveal_strlit("method");
    reveal_strlit("correlation_data");
    reveal_strlit("response_topic");
    reveal_strlit("agent_label");
    reveal_strlit("account_label");
    reveal_strlit("audience");
    reveal_strlit("payload");
    reveal_strlit("properties");
    reveal_strlit("event");
    reveal_strlit("request");
}

/// Skipping members without the role tag accumulates them in order.
proof fn lemma_split_type_no_type(
    fields: Seq<(Seq<char>, ScalarV)>,
    ty: Seq<char>,
    rest: Seq<(Seq<char>, ScalarV)>,
)
    requires
        forall|i: int| 0 <= i < fields.len() ==> (#[trigger] fields[i]).0 != "type"@,
    ensures
        split_type(fields, Some(ty), rest) == Ok::<_, ParseErrV>((ty, rest + fields)),
    decreases fields.len(),
{
    if fields.len() == 0 {
        assert(rest + fields =~= rest);
    } else {
        lemma_split_type_no_type(fields.drop_first(), ty, rest.push(fields[0]));
        assert(rest.push(fields[0]) + fields.drop_first() =~= rest + fields);
    }
}

proof fn lemma_fold_request_method(
    fields: Seq<(Seq<char>, ScalarV)>,
    x: Seq<char>,
    cd: Option<Seq<char>>,
    rt: Option<Seq<char>>,
    al: Option<Seq<char>>,
    acl: Option<Seq<char>>,
    aud: Option<Seq<char>>,
)
    requires
        fields.len() > 0,
        fields[0] == ("method"@, ScalarV::S(x)),
    ensures
        fold_request(fields, None, cd, rt, al, acl, aud) == fold_request(
            fields.drop_first(),
            Some(x),
            cd,
            rt,
            al,
            acl,
            aud,
        ),
{
}

proof fn lemma_fold_request_correlation(
    fields: Seq<(Seq<char>, ScalarV)>,
    x: Seq<char>,
    m: Seq<char>,
    rt: Option<Seq<char>>,
    al: Option<Seq<char>>,
    acl: Option<Seq<char>>,
    aud: Option<Seq<char>>,
)
    requires
        fields.len() > 0,
        fields[0] == ("correlation_data"@, ScalarV::S(x)),
    ensures
        fold_request(fields, Some(m), None, rt, al, acl, aud) == fold_request(
            fields.drop_first(),
            Some(m),
            Some(x),
            rt,
            al,
            acl,
            aud,
        ),
{
    lemma_key_lens();
}

proof fn lemma_fold_request_response_topic(
    fields: Seq<(Seq<char>, ScalarV)>,
    x: Seq<char>,
    m: Seq<char>,
    cd: Seq<char>,
    al: Option<Seq<char>>,
    acl: Option<Seq<char>>,
    aud: Option<Seq<char>>,
)
    requires
        fields.len() > 0,
        fields[0] == ("response_topic"@, ScalarV::S(x)),
    ensures
        fold_request(fields, Some(m), Some(cd), None, al, acl, aud) == fold_request(
            fields.drop_first(),
            Some(m),
            Some(cd),
            Some(x),
            al,
            acl,
            aud,
        ),
{
    lemma_key_lens();
}

proof fn lemma_fold_request_agent_label(
    fields: Seq<(Seq<char>, ScalarV)>,
    x: Seq<char>,
    m: Seq<char>,
    cd: Seq<char>,
    rt: Seq<char>,
    acl: Option<Seq<char>>,
    aud: Option<Seq<char>>,
)
    requires
        fields.len() > 0,
        fields[0] == ("agent_label"@, ScalarV::S(x)),
    ensures
        fold_request(fields, Some(m), Some(cd), Some(rt), None, acl, aud) == fold_request(
            fields.drop_first(),
            Some(m),
            Some(cd),
            Some(rt),
            Some(x),
            acl,
            aud,
        ),
{
    lemma_key_lens();
}

proof fn lemma_fold_request_account_label(
    fields: Seq<(Seq<char>, ScalarV)>,
    x: Seq<char>,
    m: Seq<char>,
    cd: Seq<char>,
    rt: Seq<char>,
    al: Seq<char>,
    aud: Option<Seq<char>>,
)
    requires
        fields.len() > 0,
        fields[0] == ("account_label"@, ScalarV::S(x)),
    ensures
        fold_request(fields, Some(m), Some(cd), Some(rt), Some(al), None, aud) == fold_request(
            fields.drop_first(),
            Some(m),
            Some(cd),
            Some(rt),
            Some(al),
            Some(x),
            aud,
        ),
{
    lemma_key_lens();
}

proof fn lemma_fold_request_audience(
    fields: Seq<(Seq<char>, ScalarV)>,
    x: Seq<char>,
    m: Seq<char>,
    cd: Seq<char>,
    rt: Seq<char>,
    al: Seq<char>,
    acl: Seq<char>,
)
    requires
        fields.len() > 0,
        fields[0] == ("audience"@, ScalarV::S(x)),
    ensures
        fold_request(fields, Some(m), Some(cd), Some(rt), Some(al), Some(acl), None)
            == fold_request(
            fields.drop_first(),
            Some(m),
            Some(cd),
            Some(rt),
            Some(al),
            Some(acl),
            Some(x),
        ),
{
    lemma_key_lens();
}

/// Interpreting the fields of a serialized request properties object
/// gives back the request properties.
proof fn lemma_interpret_request_fields(p: OutgoingRequestPropertiesV, a: AgentIdV)
    requires
        p.authn == Some(a),
    ensures
        interpret_props(request_fields(p, a)) == Ok::<_, ParseErrV>(
            IncomingEnvelopePropertiesV::Request(
                IncomingRequestPropertiesV {
                    method: p.method,
                    correlation_data: p.correlation_data,
                    response_topic: p.response_topic,
                    agent_id: a,
                },
            ),
        ),
{
    lemma_key_lens();
    let fs = request_fields(p, a);
    let e0 = Seq::<(Seq<char>, ScalarV)>::empty();
    let g = fs.drop_first();
    assert(fs[0] == ("type"@, ScalarV::S("request"@)));
    assert(split_type(fs, None, e0) == split_type(g, Some("request"@), e0));
    assert(forall|i: int| 0 <= i < g.len() ==> (#[trigger] g[i]).0 != "type"@) by {
        assert(g.len() == 6);
        assert(g[0].0 == "method"@);
        assert(g[1].0 == "correlation_data"@);
        assert(g[2].0 == "response_topic"@);
        assert(g[3].0 == "agent_label"@);
        assert(g[4].0 == "account_label"@);
        assert(g[5].0 == "audience"@);
    }
    lemma_split_type_no_type(g, "request"@, e0);
    assert(e0 + g =~= g);
    assert(split_type(fs, None, e0) == Ok::<_, ParseErrV>(("request"@, g)));
    assert(!("request"@ == "event"@));
    let g1 = g.drop_first();
    let g2 = g1.drop_first();
    let g3 = g2.drop_first();
    let g4 = g3.drop_first();
    let g5 = g4.drop_first();
    lemma_fold_request_method(g, p.method, None, None, None, None, None);
    assert(g1[0] == ("correlation_data"@, ScalarV::S(p.correlation_data)));
    lemma_fold_request_correlation(g1, p.correlation_data, p.method, None, None, None, None);
    assert(g2[0] == ("response_topic"@, ScalarV::S(p.response_topic)));
    lemma_fold_request_response_topic(
        g2,
        p.response_topic,
        p.method,
        p.correlation_data,
        None,
        None,
        None,
    );
    assert(g3[0] == ("agent_label"@, ScalarV::S(a.label)));
    lemma_fold_request_agent_label(
        g3,
        a.label,
        p.method,
        p.correlation_data,
        p.response_topic,
        None,
        None,
    );
    assert(g4[0] == ("account_label"@, ScalarV::S(a.account_id.label)));
    lemma_fold_request_account_label(
        g4,
        a.account_id.label,
        p.method,
        p.correlation_data,
        p.response_topic,
        a.label,
        None,
    );
    assert(g5[0] == ("audience"@, ScalarV::S(a.account_id.audience)));
    lemma_fold_request_audience(
        g5,
        a.account_id.audience,
        p.method,
        p.correlation_data,
        p.response_topic,
        a.label,
        a.account_id.label,
    );
    assert(g5.drop_first().len() == 0);
}

/// Evaluating the envelope split on the two serialized fields.
proof fn lemma_extract_top_pair(payload: Seq<char>, pf: Seq<(Seq<char>, ScalarV)>)
    ensures
        extract_top(
            seq![
                ("payload"@, TopValV::Scalar(ScalarV::S(payload))),
                ("properties"@, TopValV::Obj(pf)),
            ],
            None,
            None,
        ) == Ok::<_, ParseErrV>((payload, pf)),
{
    lemma_key_lens();
    let tf = seq![
        ("payload"@, TopValV::Scalar(ScalarV::S(payload))),
        ("properties"@, TopValV::Obj(pf)),
    ];
    let tf1 = tf.drop_first();
    assert(tf1[0] == ("properties"@, TopValV::Obj(pf)));
    assert(extract_top(tf, None, None) == extract_top(tf1, Some(payload), None));
    assert(tf1[0].0 != "payload"@);
    assert(extract_top(tf1, Some(payload), None) == extract_top(
        tf1.drop_first(),
        Some(payload),
        Some(pf),
    ));
    assert(tf1.drop_first().len() == 0);
}

/// Round trip of the envelope codec for the request role: serializing an
/// outgoing request envelope that carries authentication and parsing the
/// text back gives exactly the incoming envelope with the same payload
/// and the same properties. (An outgoing event or response serializes no
/// authentication fields, which incoming properties demand — the
/// surrounding system's broker injects them — so those roles have no such
/// round trip.)
#[verifier::rlimit(50)]
pub proof fn lemma_envelope_round_trip_request(
    payload: Seq<char>,
    p: OutgoingRequestPropertiesV,
    a: AgentIdV,
)
    requires
        p.authn == Some(a),
    ensures
        spec_parse_envelope(ser_envelope(payload, ser_request_members(p))) == Ok::<
            _,
            ParseErrV,
        >(
            IncomingEnvelopeV {
                payload,
                properties: IncomingEnvelopePropertiesV::Request(
                    IncomingRequestPropertiesV {
                        method: p.method,
                        correlation_data: p.correlation_data,
                        response_topic: p.response_topic,
                        agent_id: a,
                    },
                ),
            },
        ),
{
    let m = ser_request_members(p);
    let s = ser_envelope(payload, m);
    assert(s[0] == '{');
    assert(spec_ws(s) == s);
    let body = s.drop_first();
    let t = m + seq!['}'];
    let t2 = quoted("properties"@) + seq![':'] + seq!['{'] + t;
    assert(body =~= member_str("payload"@, payload) + seq![','] + t2);
    lemma_rt_request_members(p, a, seq!['}']);
    assert(m[0] == '"');
    assert(t[0] == '"');
    lemma_flat_body_members(t);
    assert(t =~= ser_request_members(p) + seq!['}']);
    assert(seq!['}'] + Seq::<char>::empty() =~= seq!['}']);
    assert(spec_parse_flat_body(t) == Some(
        (request_fields(p, a), seq!['}'] + Seq::<char>::empty()),
    ));
    lemma_top_members_last_obj("properties"@, t, request_fields(p, a), Seq::empty());
    assert(spec_parse_top_members(t2) == Some(
        (seq![("properties"@, TopValV::Obj(request_fields(p, a)))], Seq::<char>::empty()),
    ));
    lemma_top_members_cons_str("payload"@, payload, t2);
    let tf = seq![
        ("payload"@, TopValV::Scalar(ScalarV::S(payload))),
        ("properties"@, TopValV::Obj(request_fields(p, a))),
    ];
    assert(seq![("payload"@, TopValV::Scalar(ScalarV::S(payload)))] + seq![
        ("properties"@, TopValV::Obj(request_fields(p, a))),
    ] =~= tf);
    assert(spec_parse_top_members(body) == Some((tf, Seq::<char>::empty())));
    assert(body[0] == '"');
    assert(spec_ws(body) == body);
    assert(spec_parse_top_obj(s) == Some((tf, Seq::<char>::empty())));
    assert(spec_ws(Seq::<char>::empty()).len() == 0);
    assert(spec_parse_top_text(s) == Some(tf));
    lemma_extract_top_pair(payload, request_fields(p, a));
    lemma_interpret_request_fields(p, a);
}

// ---------------------------------------------------------------------------
// Role conversions
// ---------------------------------------------------------------------------

/// Converts an envelope into a received event; an envelope tagged with
/// another role fails with `RoleMismatch` naming both roles.
pub fn into_event(envelope: IncomingEnvelope) -> (r: Result<IncomingEvent<String>, Error>)
    ensures
        match envelope@.properties {
            IncomingEnvelopePropertiesV::Event(p) => r matches Ok(m) && m.payload
                == envelope.payload && m.properties@ == p,
            _ => r matches Err(e) && (e matches Error::RoleMismatch { expected, found } && expected
                == MessageKind::Event && found == incoming_kind(envelope@.properties)),
        },
{
    match envelope.properties {
        IncomingEnvelopeProperties::Event(props) => Ok(
            IncomingMessage::new(envelope.payload, props),
        ),
        other => Err(Error::RoleMismatch { expected: MessageKind::Event, found: other.kind() }),
    }
}

/// Converts an envelope into a received request; an envelope tagged with
/// another role fails with `RoleMismatch` naming both roles.
pub fn into_request(envelope: IncomingEnvelope) -> (r: Result<IncomingRequest<String>, Error>)
    ensures
        match envelope@.properties {
            IncomingEnvelopePropertiesV::Request(p) => r matches Ok(m) && m.payload
                == envelope.payload && m.properties@ == p,
            _ => r matches Err(e) && (e matches Error::RoleMismatch { expected, found } && expected
                == MessageKind::Request && found == incoming_kind(envelope@.properties)),
        },
{
    match envelope.properties {
        IncomingEnvelopeProperties::Request(props) => Ok(
            IncomingMessage::new(envelope.payload, props),
        ),
        other => Err(Error::RoleMismatch { expected: MessageKind::Request, found: other.kind() }),
    }
}

/// Converts an envelope into a received response; an envelope tagged with
/// another role fails with `RoleMismatch` naming both roles.
pub fn into_response(envelope: IncomingEnvelope) -> (r: Result<IncomingResponse<String>, Error>)
    ensures
        match envelope@.properties {
            IncomingEnvelopePropertiesV::Response(p) => r matches Ok(m) && m.payload
                == envelope.payload && m.properties@ == p,
            _ => r matches Err(e) && (e matches Error::RoleMismatch { expected, found } && expected
                == MessageKind::Response && found == incoming_kind(envelope@.properties)),
        },
{
    match envelope.properties {
        IncomingEnvelopeProperties::Response(props) => Ok(
            IncomingMessage::new(envelope.payload, props),
        ),
        other => Err(Error::RoleMismatch { expected: MessageKind::Response, found: other.kind() }),
    }
}

} // verus!
