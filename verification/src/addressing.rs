//! Addressing model: outgoing intent (`Destination`), incoming intent
//! (`Source`), shared subscription groups, and the per-role subscription
//! marker types.

use vstd::prelude::*;
use vstd::string::StrSliceExecFns;

use crate::error::Error;
use crate::ident::{AccountId, AccountIdV, AgentId, AgentIdV};

verus! {

/// Mathematical view of an outgoing addressing intent.
pub enum DestinationV {
    Broadcast(Seq<char>),
    Multicast(AccountIdV),
    Unicast(AgentIdV),
}

/// Mathematical view of an incoming addressing intent.
pub enum SourceV {
    Broadcast(AgentIdV, Seq<char>),
    Multicast,
    Unicast(Option<AgentIdV>),
}

/// Outgoing addressing intent: fire to anyone listening on an app-scoped
/// URI, to any agent of an account, or to exactly one agent.
#[derive(Debug, PartialEq, Eq)]
pub enum Destination {
    Broadcast(String),
    Multicast(AccountId),
    Unicast(AgentId),
}

/// Incoming addressing intent, used at subscribe time; the dual of
/// `Destination`. `Unicast(None)` means "from anyone".
#[derive(Debug, PartialEq, Eq)]
pub enum Source {
    Broadcast(AgentId, String),
    Multicast,
    Unicast(Option<AgentId>),
}

impl View for Destination {
    type V = DestinationV;

    open spec fn view(&self) -> DestinationV {
        match self {
            Destination::Broadcast(uri) => DestinationV::Broadcast(uri@),
            Destination::Multicast(a) => DestinationV::Multicast(a@),
            Destination::Unicast(g) => DestinationV::Unicast(g@),
        }
    }
}

impl View for Source {
    type V = SourceV;

    open spec fn view(&self) -> SourceV {
        match self {
            Source::Broadcast(g, uri) => SourceV::Broadcast(g@, uri@),
            Source::Multicast => SourceV::Multicast,
            Source::Unicast(og) => match og {
                Some(g) => SourceV::Unicast(Some(g@)),
                None => SourceV::Unicast(None),
            },
        }
    }
}

impl Clone for Destination {
    fn clone(&self) -> (r: Self)
        ensures
            r == *self,
    {
        match self {
            Destination::Broadcast(uri) => Destination::Broadcast(uri.clone()),
            Destination::Multicast(a) => Destination::Multicast(a.clone()),
            Destination::Unicast(g) => Destination::Unicast(g.clone()),
        }
    }
}

impl Clone for Source {
    fn clone(&self) -> (r: Self)
        ensures
            r == *self,
    {
        match self {
            Source::Broadcast(g, uri) => Source::Broadcast(g.clone(), uri.clone()),
            Source::Multicast => Source::Multicast,
            Source::Unicast(og) => match og {
                Some(g) => Source::Unicast(Some(g.clone())),
                None => Source::Unicast(None),
            },
        }
    }
}

/// A group name used to build shared (load-balanced) subscriptions as
/// `$share/<group>/<topic>`. Parsing and formatting are the identity on
/// the wrapped name; parsing rejects only the empty name.
#[derive(Debug, PartialEq, Eq)]
pub struct SharedGroup {
    pub name: String,
}

impl View for SharedGroup {
    type V = Seq<char>;

    open spec fn view(&self) -> Seq<char> {
        self.name@
    }
}

impl Clone for SharedGroup {
    fn clone(&self) -> (r: Self)
        ensures
            r == *self,
    {
        SharedGroup { name: self.name.clone() }
    }
}

/// Structural parse of a group name: the identity on every non-empty
/// string, nothing on the empty one.
pub open spec fn shared_group_parse(s: Seq<char>) -> Option<Seq<char>> {
    if s.len() > 0 {
        Some(s)
    } else {
        None
    }
}

impl SharedGroup {
    /// The group's string form: the wrapped name itself.
    pub fn to_string(&self) -> (r: String)
        ensures
            r@ == self@,
    {
        self.name.clone()
    }

    /// Parses a group name: the identity on every non-empty string;
    /// the empty string is `InvalidFormat`.
    pub fn parse(s: &str) -> (r: Result<Self, Error>)
        ensures
            match shared_group_parse(s@) {
                Some(v) => r matches Ok(g) && g@ == v,
                None => r matches Err(e) && (e matches Error::InvalidFormat(t) && t@ == s@),
            },
    {
        if s.unicode_len() == 0 {
            Err(Error::InvalidFormat(s.to_owned()))
        } else {
            Ok(SharedGroup { name: s.to_owned() })
        }
    }
}

/// Round trip of the group codec: parsing the string form of any
/// non-empty group gives back the group.
pub proof fn lemma_shared_group_round_trip(name: Seq<char>)
    requires
        name.len() > 0,
    ensures
        shared_group_parse(name) == Some(name),
{
}

/// A subscription to events broadcast on an app-scoped URI.
pub struct EventSubscription {
    pub source: Source,
}

/// A subscription to requests addressed to this agent or its account.
pub struct RequestSubscription {
    pub source: Source,
}

/// A subscription to responses addressed to this agent.
pub struct ResponseSubscription {
    pub source: Source,
}

impl EventSubscription {
    /// Makes an event subscription from an incoming intent.
    pub fn new(source: Source) -> (r: Self)
        ensures
            r.source == source,
    {
        EventSubscription { source }
    }
}

impl RequestSubscription {
    /// Makes a request subscription from an incoming intent.
    pub fn new(source: Source) -> (r: Self)
        ensures
            r.source == source,
    {
        RequestSubscription { source }
    }
}

impl ResponseSubscription {
    /// Makes a response subscription from an incoming intent.
    pub fn new(source: Source) -> (r: Self)
        ensures
            r.source == source,
    {
        ResponseSubscription { source }
    }
}

} // verus!
