//! Identity model: account identities, agent identities, and the capability
//! traits that expose them.
//!
//! An `AccountId` is a tenant identity `label.audience`; an `AgentId` is a
//! running instance `label.account_id` inside an account. Both have a
//! canonical string form and a structural parser: parsing splits at the
//! first delimiter and performs no character-set validation.

use vstd::prelude::*;
use vstd::string::StrSliceExecFns;
use vstd::string::StringExecFns;

use crate::error::Error;

verus! {

/// Mathematical view of an account identity.
pub struct AccountIdV {
    pub label: Seq<char>,
    pub audience: Seq<char>,
}

/// Mathematical view of an agent identity.
pub struct AgentIdV {
    pub label: Seq<char>,
    pub account_id: AccountIdV,
}

/// A tenant identity scoped to an audience (deployment namespace).
/// Canonical string form `label.audience`.
#[derive(Debug, PartialEq, Eq, Hash)]
pub struct AccountId {
    pub label: String,
    pub audience: String,
}

/// An instance identity inside an account.
/// Canonical string form `label.account_label.audience`.
#[derive(Debug, PartialEq, Eq, Hash)]
pub struct AgentId {
    pub label: String,
    pub account_id: AccountId,
}

impl View for AccountId {
    type V = AccountIdV;

    open spec fn view(&self) -> AccountIdV {
        AccountIdV { label: self.label@, audience: self.audience@ }
    }
}

impl View for AgentId {
    type V = AgentIdV;

    open spec fn view(&self) -> AgentIdV {
        AgentIdV { label: self.label@, account_id: self.account_id@ }
    }
}

impl Clone for AccountId {
    fn clone(&self) -> (r: Self)
        ensures
            r == *self,
    {
        AccountId { label: self.label.clone(), audience: self.audience.clone() }
    }
}

impl Clone for AgentId {
    fn clone(&self) -> (r: Self)
        ensures
            r == *self,
    {
        AgentId { label: self.label.clone(), account_id: self.account_id.clone() }
    }
}

/// The canonical string form of an account identity: `label.audience`.
pub open spec fn account_id_string(a: AccountIdV) -> Seq<char> {
    a.label + "."@ + a.audience
}

/// The canonical string form of an agent identity: `label.account_id`.
pub open spec fn agent_id_string(g: AgentIdV) -> Seq<char> {
    g.label + "."@ + account_id_string(g.account_id)
}

/// Index of the first `.` in `s`, or `-1` when there is none.
pub open spec fn first_dot(s: Seq<char>) -> int
    decreases s.len(),
{
    if s.len() == 0 {
        -1
    } else if s[0] == '.' {
        0
    } else {
        let r = first_dot(s.drop_first());
        if r < 0 {
            -1
        } else {
            r + 1
        }
    }
}

/// Structural parse of an account identity: split at the first `.`.
pub open spec fn account_id_parse(s: Seq<char>) -> Option<AccountIdV> {
    let i = first_dot(s);
    if i < 0 {
        None
    } else {
        Some(AccountIdV { label: s.take(i), audience: s.skip(i + 1) })
    }
}

/// Structural parse of an agent identity: split at the first `.`, the rest
/// parses as an account identity.
pub open spec fn agent_id_parse(s: Seq<char>) -> Option<AgentIdV> {
    let i = first_dot(s);
    if i < 0 {
        None
    } else {
        match account_id_parse(s.skip(i + 1)) {
            None => None,
            Some(a) => Some(AgentIdV { label: s.take(i), account_id: a }),
        }
    }
}

proof fn lemma_first_dot_none(s: Seq<char>)
    requires
        forall|j: int| 0 <= j < s.len() ==> s[j] != '.',
    ensures
        first_dot(s) == -1,
    decreases s.len(),
{
    if s.len() > 0 {
        lemma_first_dot_none(s.drop_first());
    }
}

proof fn lemma_first_dot_at(s: Seq<char>, i: int)
    requires
        0 <= i < s.len(),
        s[i] == '.',
        forall|j: int| 0 <= j < i ==> s[j] != '.',
    ensures
        first_dot(s) == i,
    decreases i,
{
    if i == 0 {
    } else {
        lemma_first_dot_at(s.drop_first(), i - 1);
    }
}

/// Finds the first `.` of `s`, the executable counterpart of `first_dot`.
fn find_first_dot(s: &str) -> (r: Option<usize>)
    ensures
        match r {
            Some(i) => first_dot(s@) == i as int && (i as int) < s@.len(),
            None => first_dot(s@) == -1,
        },
{
    let n = s.unicode_len();
    let mut i: usize = 0;
    while i < n
        invariant
            0 <= i <= n,
            n == s@.len(),
            forall|j: int| 0 <= j < i ==> s@[j] != '.',
        decreases n - i,
    {
        if s.get_char(i) == '.' {
            proof {
                lemma_first_dot_at(s@, i as int);
            }
            return Some(i);
        }
        i = i + 1;
    }
    proof {
        lemma_first_dot_none(s@);
    }
    None
}

impl AccountId {
    /// Makes an account identity from its label and audience.
    pub fn new(label: &str, audience: &str) -> (r: Self)
        ensures
            r@.label == label@,
            r@.audience == audience@,
    {
        AccountId { label: label.to_owned(), audience: audience.to_owned() }
    }

    /// The label part of the identity.
    pub fn label(&self) -> (r: &str)
        ensures
            r@ == self@.label,
    {
        self.label.as_str()
    }

    /// The audience part of the identity.
    pub fn audience(&self) -> (r: &str)
        ensures
            r@ == self@.audience,
    {
        self.audience.as_str()
    }

    /// The canonical string form `label.audience`.
    pub fn to_string(&self) -> (r: String)
        ensures
            r@ == account_id_string(self@),
    {
        let mut s = self.label.clone();
        s.append(".");
        s.append(self.audience.as_str());
        s
    }

    /// Parses the canonical string form, splitting at the first `.`.
    /// Returns `InvalidFormat` carrying the text when no `.` occurs.
    pub fn parse(s: &str) -> (r: Result<Self, Error>)
        ensures
            match account_id_parse(s@) {
                Some(v) => r matches Ok(a) && a@ == v,
                None => r matches Err(e) && (e matches Error::InvalidFormat(t) && t@ == s@),
            },
    {
        let n = s.unicode_len();
        match find_first_dot(s) {
            Some(i) => {
                let label = s.substring_char(0, i).to_owned();
                let audience = s.substring_char(i + 1, n).to_owned();
                Ok(AccountId { label, audience })
            },
            None => Err(Error::InvalidFormat(s.to_owned())),
        }
    }
}

impl AgentId {
    /// Makes an agent identity from its label and owning account.
    pub fn new(label: &str, account_id: AccountId) -> (r: Self)
        ensures
            r@.label == label@,
            r@.account_id == account_id@,
    {
        AgentId { label: label.to_owned(), account_id }
    }

    /// The label part of the identity.
    pub fn label(&self) -> (r: &str)
        ensures
            r@ == self@.label,
    {
        self.label.as_str()
    }

    /// The account the agent belongs to.
    pub fn account_id(&self) -> (r: &AccountId)
        ensures
            *r == self.account_id,
    {
        &self.account_id
    }

    /// The canonical string form `label.account_label.audience`.
    pub fn to_string(&self) -> (r: String)
        ensures
            r@ == agent_id_string(self@),
    {
        let mut s = self.label.clone();
        s.append(".");
        let rest = self.account_id.to_string();
        s.append(rest.as_str());
        s
    }

    /// Parses the canonical string form, splitting at the first `.` and
    /// parsing the rest as an account identity. Returns `InvalidFormat`
    /// carrying the text when the structure is not there.
    pub fn parse(s: &str) -> (r: Result<Self, Error>)
        ensures
            match agent_id_parse(s@) {
                Some(v) => r matches Ok(g) && g@ == v,
                None => r matches Err(e) && (e matches Error::InvalidFormat(t) && t@ == s@),
            },
    {
        let n = s.unicode_len();
        match find_first_dot(s) {
            Some(i) => {
                let rest = s.substring_char(i + 1, n);
                match AccountId::parse(rest) {
                    Ok(account_id) => {
                        let label = s.substring_char(0, i).to_owned();
                        Ok(AgentId { label, account_id })
                    },
                    Err(_) => Err(Error::InvalidFormat(s.to_owned())),
                }
            },
            None => Err(Error::InvalidFormat(s.to_owned())),
        }
    }
}

/// Capability of exposing an account identity.
pub trait Authenticable {
    /// The exposed account identity, as a specification value.
    spec fn account_id_spec(&self) -> AccountId;

    /// The account identity this value authenticates as.
    fn account_id(&self) -> (r: &AccountId)
        ensures
            *r == self.account_id_spec(),
    ;
}

/// Capability of exposing an agent identity; implies `Authenticable`.
pub trait Addressable: Authenticable {
    /// The exposed agent identity, as a specification value.
    spec fn agent_id_spec(&self) -> AgentId;

    /// The agent identity this value is addressed as.
    fn agent_id(&self) -> (r: &AgentId)
        ensures
            *r == self.agent_id_spec(),
            self.agent_id_spec().account_id == self.account_id_spec(),
    ;
}

impl Authenticable for AgentId {
    open spec fn account_id_spec(&self) -> AccountId {
        self.account_id
    }

    fn account_id(&self) -> (r: &AccountId) {
        &self.account_id
    }
}

impl Addressable for AgentId {
    open spec fn agent_id_spec(&self) -> AgentId {
        *self
    }

    fn agent_id(&self) -> (r: &AgentId) {
        self
    }
}

/// Round trip of the account identity codec: parsing the canonical string
/// form gives back the identity, for every identity whose label holds no
/// delimiter (the audience may hold delimiters; splitting is at the first).
pub proof fn lemma_account_id_round_trip(a: AccountIdV)
    requires
        !a.label.contains('.'),
    ensures
        account_id_parse(account_id_string(a)) == Some(a),
{
    reveal_strlit(".");
    let s = account_id_string(a);
    assert forall|j: int| 0 <= j < a.label.len() implies s[j] != '.' by {
        assert(s[j] == a.label[j]);
        assert(!(exists|k: int| 0 <= k < a.label.len() && a.label[k] == '.'));
    }
    assert(s[a.label.len() as int] == '.');
    lemma_first_dot_at(s, a.label.len() as int);
    assert(s.take(a.label.len() as int) =~= a.label);
    assert(s.skip(a.label.len() as int + 1) =~= a.audience);
}

/// Round trip of the agent identity codec: parsing the canonical string
/// form gives back the identity, for every identity whose agent and account
/// labels hold no delimiter.
pub proof fn lemma_agent_id_round_trip(g: AgentIdV)
    requires
        !g.label.contains('.'),
        !g.account_id.label.contains('.'),
    ensures
        agent_id_parse(agent_id_string(g)) == Some(g),
{
    reveal_strlit(".");
    let s = agent_id_string(g);
    assert forall|j: int| 0 <= j < g.label.len() implies s[j] != '.' by {
        assert(s[j] == g.label[j]);
        assert(!(exists|k: int| 0 <= k < g.label.len() && g.label[k] == '.'));
    }
    assert(s[g.label.len() as int] == '.');
    lemma_first_dot_at(s, g.label.len() as int);
    assert(s.take(g.label.len() as int) =~= g.label);
    assert(s.skip(g.label.len() as int + 1) =~= account_id_string(g.account_id));
    lemma_account_id_round_trip(g.account_id);
}

} // verus!
