//! The open agent tabs of the pager, held in an `indexmap::IndexMap` keyed by
//! agent id, in the order the tabs were opened.

use indexmap::IndexMap;
use vstd::prelude::*;

verus! {

/// Identifier of an agent (task tab).
pub type AgentId = u64;

#[verifier::external_type_specification]
#[verifier::external_body]
#[verifier::reject_recursive_types(K)]
#[verifier::reject_recursive_types(V)]
#[verifier::reject_recursive_types(S)]
pub struct ExIndexMap<K, V, S>(IndexMap<K, V, S>);

/// One open agent tab as the tab logic sees it.
pub struct AgentView {
    /// Session title derived from the conversation (empty until known).
    pub title: String,
    /// Label that overrides the title (e.g. the soul a handoff opened).
    pub display_name: Option<String>,
    /// The Arch soul (`developer`, `qa`, ...) this agent runs as.
    pub arch_soul: Option<String>,
    /// The tab this one is related to by a handoff.
    pub arch_related_to: Option<AgentId>,
    /// The user prompts sent in this session, oldest first.
    pub user_prompts: Vec<String>,
}

/// The text of an optional string.
pub open spec fn opt_text(o: Option<String>) -> Option<Seq<char>> {
    match o {
        Some(s) => Some(s@),
        None => None,
    }
}

/// An agent tab as plain values: title, display name, soul, related tab, and
/// user prompts.
pub type AgentState = (Seq<char>, Option<Seq<char>>, Option<Seq<char>>, Option<AgentId>, Seq<Seq<char>>);

impl View for AgentView {
    type V = AgentState;

    open spec fn view(&self) -> AgentState {
        (
            self.title@,
            opt_text(self.display_name),
            opt_text(self.arch_soul),
            self.arch_related_to,
            self.user_prompts@.map_values(|p: String| p@),
        )
    }
}

/// The entries of an agent map, in map order.
pub uninterp spec fn agent_entries(m: IndexMap<AgentId, AgentView>) -> Seq<(AgentId, AgentView)>;

/// `id` is a key of the entries.
pub open spec fn has_agent(e: Seq<(AgentId, AgentView)>, id: AgentId) -> bool {
    exists|i: int| 0 <= i < e.len() && #[trigger] e[i].0 == id
}

/// Where `id` stands in the entries (meaningful when it is a key).
pub open spec fn agent_index(e: Seq<(AgentId, AgentView)>, id: AgentId) -> int {
    choose|i: int| 0 <= i < e.len() && #[trigger] e[i].0 == id
}

/// The agent stored under `id` (meaningful when it is a key).
pub open spec fn agent_of(e: Seq<(AgentId, AgentView)>, id: AgentId) -> AgentView {
    e[agent_index(e, id)].1
}

/// The ids of the entries, in map order.
pub open spec fn agent_ids(e: Seq<(AgentId, AgentView)>) -> Seq<AgentId> {
    e.map_values(|p: (AgentId, AgentView)| p.0)
}

/// No id occurs twice.
pub open spec fn ids_unique(e: Seq<(AgentId, AgentView)>) -> bool {
    forall|i: int, j: int| 0 <= i < e.len() && 0 <= j < e.len() && i != j ==> #[trigger] e[i].0 != #[trigger] e[j].0
}

/// Distinct ids make `agent_index` the position of the id.
pub proof fn lemma_agent_index_unique(e: Seq<(AgentId, AgentView)>, i: int)
    requires
        ids_unique(e),
        0 <= i < e.len(),
    ensures
        has_agent(e, e[i].0),
        agent_index(e, e[i].0) == i,
{
    assert(has_agent(e, e[i].0));
}

/// The ids of the entries are distinct when the copied-out keys are.
pub proof fn lemma_ids_unique_from_keys(e: Seq<(AgentId, AgentView)>, keys: Seq<AgentId>)
    requires
        keys == agent_ids(e),
        forall|i: int, j: int| 0 <= i < keys.len() && 0 <= j < keys.len() && i != j ==> #[trigger] keys[i] != #[trigger] keys[j],
    ensures
        ids_unique(e),
{
    assert forall|i: int, j: int| 0 <= i < e.len() && 0 <= j < e.len() && i != j implies #[trigger] e[i].0 != #[trigger] e[j].0 by {
        assert(keys[i] == e[i].0 && keys[j] == e[j].0);
    }
}

/// `IndexMap::new`: an empty map.
#[verifier::external_body]
pub(crate) fn agents_new() -> (m: IndexMap<AgentId, AgentView>)
    ensures
        agent_entries(m) == Seq::<(AgentId, AgentView)>::empty(),
{
    IndexMap::new()
}

/// `IndexMap::len`: the number of entries.
#[verifier::external_body]
pub(crate) fn agents_len(m: &IndexMap<AgentId, AgentView>) -> (n: usize)
    ensures
        n == agent_entries(*m).len(),
{
    m.len()
}

/// `IndexMap::get`: the value stored under `id`, if any (keys are distinct,
/// so it is the one entry with that key).
#[verifier::external_body]
pub(crate) fn agents_get<'a>(m: &'a IndexMap<AgentId, AgentView>, id: AgentId) -> (r: Option<&'a AgentView>)
    ensures
        r is Some <==> has_agent(agent_entries(*m), id),
        r matches Some(v) ==> agent_of(agent_entries(*m), id) == *v,
{
    m.get(&id)
}

/// `IndexMap::insert`: an existing key keeps its place and gets the new value;
/// a new key is appended last.
#[verifier::external_body]
pub(crate) fn agents_insert(m: &mut IndexMap<AgentId, AgentView>, id: AgentId, v: AgentView)
    ensures
        has_agent(agent_entries(*old(m)), id) ==> exists|i: int|
            0 <= i < agent_entries(*old(m)).len() && #[trigger] agent_entries(*old(m))[i].0 == id
                && agent_entries(*final(m)) == agent_entries(*old(m)).update(i, (id, v)),
        !has_agent(agent_entries(*old(m)), id) ==> agent_entries(*final(m)) == agent_entries(
            *old(m),
        ).push((id, v)),
{
    m.insert(id, v);
}

/// `IndexMap::keys`, copied out: the ids in map order. Keys of an `IndexMap`
/// are distinct, so no id occurs twice.
#[verifier::external_body]
pub(crate) fn agents_keys(m: &IndexMap<AgentId, AgentView>) -> (r: Vec<AgentId>)
    ensures
        r@ == agent_ids(agent_entries(*m)),
        forall|i: int, j: int| 0 <= i < r@.len() && 0 <= j < r@.len() && i != j ==> #[trigger] r@[i] != #[trigger] r@[j],
{
    m.keys().copied().collect()
}

pub fn clone_string_opt(s: &Option<String>) -> (r: Option<String>)
    ensures
        opt_text(r) == opt_text(*s),
{
    match s {
        Some(x) => Some(x.clone()),
        None => None,
    }
}

pub fn clone_strings(v: &Vec<String>) -> (r: Vec<String>)
    ensures
        r@ == v@,
{
    let mut out: Vec<String> = Vec::new();
    let mut i: usize = 0;
    while i < v.len()
        invariant
            i <= v.len(),
            out@ == v@.take(i as int),
        decreases v.len() - i,
    {
        out.push(v[i].clone());
        i += 1;
        assert(out@ =~= v@.take(i as int));
    }
    assert(v@.take(v.len() as int) =~= v@);
    out
}

impl AgentView {
    /// A fresh tab with no title, label, soul, relation or prompts.
    pub fn new() -> (r: AgentView)
        ensures
            r.is_fresh(),
    {
        AgentView {
            title: String::new(),
            display_name: None,
            arch_soul: None,
            arch_related_to: None,
            user_prompts: Vec::new(),
        }
    }

    /// No title, label, soul, relation or prompts yet.
    pub open spec fn is_fresh(self) -> bool {
        &&& self.title@.len() == 0
        &&& self.display_name is None
        &&& self.arch_soul is None
        &&& self.arch_related_to is None
        &&& self.user_prompts@.len() == 0
    }

    /// A field-by-field copy.
    pub fn duplicate(&self) -> (r: AgentView)
        ensures
            r@ == self@,
    {
        AgentView {
            title: self.title.clone(),
            display_name: clone_string_opt(&self.display_name),
            arch_soul: clone_string_opt(&self.arch_soul),
            arch_related_to: self.arch_related_to,
            user_prompts: clone_strings(&self.user_prompts),
        }
    }
}

} // verus!
