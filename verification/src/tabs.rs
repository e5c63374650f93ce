//! Arch multi-task tabs, split view, and agent handoffs.
//!
//! A thin layer on top of the multi-agent map of the app:
//! - a new session creates a parallel agent tab;
//! - tab cycling switches the active view among open agents;
//! - split keeps a secondary agent visible beside the active one;
//! - handoff opens a related tab with a target soul (`developer` / `qa`).

use indexmap::IndexMap;
use vstd::prelude::*;

use crate::agents::{
    agent_entries, agent_index, lemma_agent_index_unique, lemma_ids_unique_from_keys, agent_of, agents_get, agents_insert, agents_keys,
    agents_len, agents_new, has_agent, ids_unique, opt_text, AgentId, AgentState, AgentView,
};
use crate::actions::{Action, ReasoningEffort};
use agent_client_protocol::ModelId;
use crate::text::{
    ascii_lower, ascii_lowercase, chars_of, eq_str, lemma_ascii_lower_idempotent, lemma_trim_idempotent,
    lemma_trim_lower_commute, string_from_chars, trim, trim_chars, TrimSet,
};

verus! {

/// What the main pane shows.
#[derive(Debug, Clone, Copy, PartialEq, Eq, Structural)]
pub enum ActiveView {
    /// The welcome screen: no agent focused.
    Welcome,
    /// An agent tab.
    Agent(AgentId),
}

/// Work the app asks the runtime to do.
#[derive(Debug)]
pub enum Effect {
    /// Open a backend session for a new agent tab, optionally with an agent profile.
    CreateSession { agent_id: AgentId, agent_profile: Option<String> },
    /// Send a prompt to an agent's session once it is ready.
    SendPrompt { agent_id: AgentId, prompt: String },
    /// Switch an agent's session to another model.
    SwitchModel { agent_id: AgentId, model_id: ModelId, effort: Option<ReasoningEffort> },
}

/// The part of the app state that task tabs act on.
pub struct AppView {
    /// Open agents, in tab order.
    pub agents: IndexMap<AgentId, AgentView>,
    /// What the main pane shows.
    pub active_view: ActiveView,
    /// The agent shown beside the active one in split view.
    pub split_secondary: Option<AgentId>,
    /// The last toast shown to the user.
    pub toast: Option<String>,
    /// The id the next new agent gets.
    pub next_agent_id: AgentId,
}

impl AppView {
    pub open spec fn entries(self) -> Seq<(AgentId, AgentView)> {
        agent_entries(self.agents)
    }

    /// Agent ids are unique and below the next id to hand out.
    pub open spec fn wf(self) -> bool {
        &&& ids_unique(self.entries())
        &&& forall|i: int| 0 <= i < self.entries().len() ==> #[trigger] self.entries()[i].0 < self.next_agent_id
        &&& (self.active_view matches ActiveView::Agent(id) ==> id < self.next_agent_id)
        &&& (self.split_secondary matches Some(id) ==> id < self.next_agent_id)
    }

    pub open spec fn toast_text(self) -> Option<Seq<char>> {
        opt_text(self.toast)
    }

    /// An app with no agent tabs, on the welcome screen.
    pub fn new() -> (r: AppView)
        ensures
            r.wf(),
            r.entries().len() == 0,
            r.active_view == ActiveView::Welcome,
            r.split_secondary is None,
            r.toast is None,
            r.next_agent_id == 1,
    {
        AppView {
            agents: agents_new(),
            active_view: ActiveView::Welcome,
            split_secondary: None,
            toast: None,
            next_agent_id: 1,
        }
    }

    /// Shows a toast to the user.
    pub fn show_toast(&mut self, msg: &str)
        ensures
            final(self).toast_text() == Some(msg@),
            final(self).agents == old(self).agents,
            final(self).active_view == old(self).active_view,
            final(self).split_secondary == old(self).split_secondary,
            final(self).next_agent_id == old(self).next_agent_id,
    {
        self.toast = Some(String::from_str(msg));
    }
}

/// The entries as plain values.
pub open spec fn entry_states(e: Seq<(AgentId, AgentView)>) -> Seq<(AgentId, AgentState)> {
    e.map_values(|p: (AgentId, AgentView)| (p.0, p.1@))
}

/// Focus an open agent tab; an id that is not open leaves the view as it is.
pub fn switch_to_agent(app: &mut AppView, id: AgentId)
    ensures
        old(app).wf() ==> final(app).wf(),
        final(app).active_view == if has_agent(old(app).entries(), id) {
            ActiveView::Agent(id)
        } else {
            old(app).active_view
        },
        final(app).agents == old(app).agents,
        final(app).split_secondary == old(app).split_secondary,
        final(app).toast == old(app).toast,
        final(app).next_agent_id == old(app).next_agent_id,
{
    if agents_get(&app.agents, id).is_some() {
        proof {
            let e = app.entries();
            let i = choose|i: int| 0 <= i < e.len() && #[trigger] e[i].0 == id;
            assert(app.wf() ==> e[i].0 < app.next_agent_id);
        }
        app.active_view = ActiveView::Agent(id);
    }
}

/// Open a new parallel agent tab and focus it. Gives the new id and the
/// effect that creates its session.
pub fn new_session_tab(app: &mut AppView) -> (r: (AgentId, Vec<Effect>))
    requires
        old(app).wf(),
        old(app).next_agent_id < u64::MAX,
    ensures
        final(app).wf(),
        opened_session(*old(app), *final(app), r.0, r.1@),
{
    let id = app.next_agent_id;
    let ghost old_e = app.entries();
    proof {
        if has_agent(old_e, id) {
            let i = choose|i: int| 0 <= i < old_e.len() && #[trigger] old_e[i].0 == id;
            assert(old_e[i].0 < app.next_agent_id);
        }
    }
    agents_insert(&mut app.agents, id, AgentView::new());
    app.next_agent_id = id + 1;
    app.active_view = ActiveView::Agent(id);
    proof {
        let e = app.entries();
        assert(e.take(old_e.len() as int) =~= old_e);
        assert forall|i: int, j: int| 0 <= i < e.len() && 0 <= j < e.len() && i != j implies #[trigger] e[i].0
            != #[trigger] e[j].0 by {
            if i < old_e.len() && j < old_e.len() {
                assert(e[i] == old_e[i] && e[j] == old_e[j]);
            } else if i < old_e.len() {
                assert(e[i] == old_e[i]);
                assert(old_e[i].0 < id);
            } else {
                assert(e[j] == old_e[j]);
                assert(old_e[j].0 < id);
            }
        }
        assert forall|i: int| 0 <= i < e.len() implies #[trigger] e[i].0 < app.next_agent_id by {
            if i < old_e.len() {
                assert(e[i] == old_e[i]);
            }
        }
    }
    let mut effects: Vec<Effect> = Vec::new();
    effects.push(Effect::CreateSession { agent_id: id, agent_profile: None });
    (id, effects)
}

/// Where tab cycling by `delta` lands from the view `v`, with at least two tabs
/// open: the next tab `delta` steps away, wrapping around; the first tab when
/// no agent is focused; no change when the focused agent is not open.
pub open spec fn cycled_view(e: Seq<(AgentId, AgentView)>, v: ActiveView, delta: int) -> ActiveView {
    match v {
        ActiveView::Agent(cur) => if has_agent(e, cur) {
            ActiveView::Agent(e[(agent_index(e, cur) + delta) % (e.len() as int)].0)
        } else {
            v
        },
        ActiveView::Welcome => ActiveView::Agent(e[0].0),
    }
}

fn position_of(ids: &Vec<AgentId>, id: AgentId) -> (r: Option<usize>)
    ensures
        r matches Some(p) ==> p < ids@.len() && ids@[p as int] == id,
        r is None ==> forall|k: int| 0 <= k < ids@.len() ==> ids@[k] != id,
{
    let mut i: usize = 0;
    while i < ids.len()
        invariant
            i <= ids.len(),
            forall|k: int| 0 <= k < i ==> ids@[k] != id,
        decreases ids.len() - i,
    {
        if ids[i] == id {
            return Some(i);
        }
        i += 1;
    }
    None
}

/// `(pos + delta)` wrapped into `0..len`.
fn wrap_index(pos: usize, delta: isize, len: usize) -> (r: usize)
    requires
        pos < len,
    ensures
        r < len,
        r as int == (pos + delta) % (len as int),
{
    let l = len as u128;
    if delta >= 0 {
        let off = (delta as u128) % l;
        let r = ((pos as u128 + off) % l) as usize;
        proof {
            vstd::arithmetic::div_mod::lemma_add_mod_noop_right(pos as int, delta as int, len as int);
        }
        r
    } else {
        let a: u128 = ((-(delta + 1)) as u128) + 1;
        let ra = a % l;
        proof {
            vstd::arithmetic::div_mod::lemma_sub_mod_noop_right(pos as int, a as int, len as int);
            assert(pos + delta == pos - a);
        }
        if pos as u128 >= ra {
            let r = (pos as u128 - ra) as usize;
            proof {
                vstd::arithmetic::div_mod::lemma_small_mod((pos - ra) as nat, len as nat);
            }
            r
        } else {
            let r = (pos as u128 + l - ra) as usize;
            proof {
                vstd::arithmetic::div_mod::lemma_mod_add_multiples_vanish(pos - ra, len as int);
                vstd::arithmetic::div_mod::lemma_small_mod((len + pos - ra) as nat, len as nat);
            }
            r
        }
    }
}

/// Cycle focus by `delta` tabs (wrapping). With fewer than two tabs open it
/// only tells the user so.
pub fn cycle_agent_tab(app: &mut AppView, delta: isize) -> (r: Vec<Effect>)
    ensures
        old(app).wf() ==> final(app).wf(),
        cycled(*old(app), *final(app), delta as int, r@),
{
    if agents_len(&app.agents) < 2 {
        app.show_toast("Only one task tab open — Ctrl+T for a new one");
        return Vec::new();
    }
    let ghost e = app.entries();
    let ids = agents_keys(&app.agents);
    proof {
        lemma_ids_unique_from_keys(e, ids@);
    }
    let current = match app.active_view {
        ActiveView::Agent(id) => id,
        ActiveView::Welcome => {
            // Prefer the first agent if not already on one.
            let first = ids[0];
            proof {
                assert(ids@[0] == e[0].0);
                assert(has_agent(e, first));
            }
            switch_to_agent(app, first);
            return Vec::new();
        },
    };
    let pos = match position_of(&ids, current) {
        Some(p) => p,
        None => {
            proof {
                assert forall|i: int| 0 <= i < e.len() implies #[trigger] e[i].0 != current by {
                    assert(ids@[i] == e[i].0);
                }
            }
            return Vec::new();
        },
    };
    proof {
        assert(ids@[pos as int] == e[pos as int].0);
        lemma_agent_index_unique(e, pos as int);
    }
    let next = wrap_index(pos, delta, ids.len());
    let target = ids[next];
    proof {
        assert(ids@[next as int] == e[next as int].0);
        assert(has_agent(e, target));
    }
    if target != current {
        switch_to_agent(app, target);
    }
    Vec::new()
}

/// Cycle focus to the next open agent tab (wraps).
pub fn dispatch_next_agent_tab(app: &mut AppView) -> (r: Vec<Effect>)
    ensures
        old(app).wf() ==> final(app).wf(),
        cycled(*old(app), *final(app), 1, r@),
{
    cycle_agent_tab(app, 1)
}

/// Cycle focus to the previous open agent tab (wraps).
pub fn dispatch_prev_agent_tab(app: &mut AppView) -> (r: Vec<Effect>)
    ensures
        old(app).wf() ==> final(app).wf(),
        cycled(*old(app), *final(app), -1, r@),
{
    cycle_agent_tab(app, -1)
}

/// The agent that split view pairs with the active tab at `pos`: the previous
/// tab, or the next one when the active tab is the first.
pub open spec fn split_peer(e: Seq<(AgentId, AgentView)>, active: AgentId) -> AgentId {
    let p = agent_index(e, active);
    if p > 0 {
        e[p - 1].0
    } else {
        e[1].0
    }
}

/// Toggle split view: the active agent and another open agent side by side.
pub fn dispatch_toggle_split(app: &mut AppView) -> (r: Vec<Effect>)
    ensures
        old(app).wf() ==> final(app).wf(),
        toggled_split(*old(app), *final(app), r@),
{
    if app.split_secondary.is_some() {
        app.split_secondary = None;
        app.show_toast("Split view off");
        return Vec::new();
    }
    if agents_len(&app.agents) < 2 {
        app.show_toast("Need two task tabs to split — Ctrl+T to open another");
        return Vec::new();
    }
    let active = match app.active_view {
        ActiveView::Agent(id) => id,
        ActiveView::Welcome => {
            app.show_toast("Open a task first");
            return Vec::new();
        },
    };
    // Prefer previous tab in order; else next.
    let ghost e = app.entries();
    let ids = agents_keys(&app.agents);
    proof {
        lemma_ids_unique_from_keys(e, ids@);
    }
    let pos = match position_of(&ids, active) {
        Some(p) => p,
        None => {
            proof {
                assert forall|i: int| 0 <= i < e.len() implies #[trigger] e[i].0 != active by {
                    assert(ids@[i] == e[i].0);
                }
            }
            return Vec::new();
        },
    };
    proof {
        assert(ids@[pos as int] == e[pos as int].0);
        lemma_agent_index_unique(e, pos as int);
    }
    let peer = if pos > 0 {
        ids[pos - 1]
    } else {
        ids[1]
    };
    proof {
        if pos > 0 {
            assert(ids@[pos - 1] == e[pos - 1].0);
        } else {
            assert(ids@[1] == e[1].0);
        }
    }
    if peer == active {
        // Distinct ids make this unreachable; kept as the guard it is.
        app.show_toast("Need two task tabs to split");
        return Vec::new();
    }
    app.split_secondary = Some(peer);
    app.show_toast("Split view on (Ctrl+Shift+S to exit)");
    Vec::new()
}

/// A soul name as typed, normalized: trimmed and ASCII-lowercased.
pub open spec fn normalized_soul(raw: Seq<char>) -> Seq<char> {
    ascii_lower(trim(raw, TrimSet::Whitespace))
}

/// How a soul is labelled on its tab.
pub open spec fn soul_label(soul: Seq<char>) -> Seq<char> {
    if soul == "developer"@ {
        "Developer"@
    } else if soul == "qa"@ {
        "QA"@
    } else {
        soul
    }
}

/// The title a tab shows: its display name, else its session title, else
/// `New session`.
pub open spec fn entry_title_of(a: AgentState) -> Seq<char> {
    match a.1 {
        Some(d) => d,
        None => if a.0.len() > 0 {
            a.0
        } else {
            "New session"@
        },
    }
}

/// The latest user prompt of a session, if any.
pub open spec fn last_prompt_of(a: AgentState) -> Option<Seq<char>> {
    if a.4.len() > 0 {
        Some(a.4.last())
    } else {
        None
    }
}

/// The brief a handoff falls back to when none is given.
pub open spec fn derived_summary(e: Seq<(AgentId, AgentView)>, source: AgentId) -> Seq<char> {
    if !has_agent(e, source) {
        "Review the related task context and continue."@
    } else {
        let a = agent_of(e, source)@;
        match last_prompt_of(a) {
            Some(line) => "Latest user request:\n"@ + line,
            None => "Session “"@ + entry_title_of(a)
                + "” has no user prompts yet — coordinate with the source agent."@,
        }
    }
}

/// The first prompt of a handoff tab.
pub open spec fn handoff_seed(label: Seq<char>, title: Seq<char>, target: Seq<char>, summary: Seq<char>) -> Seq<char> {
    "[Arch handoff] From **"@ + label + "** tab “"@ + title + "” → **"@ + target
        + "**.\n\n## Brief\n"@ + summary + "\n\nProceed as the "@ + target
        + " agent. Keep changes minimal and report clearly."@
}

pub fn normalize_soul(raw: &str) -> (r: String)
    ensures
        r@ == normalized_soul(raw@),
{
    string_from_chars(&ascii_lowercase(&trim_chars(&chars_of(raw), TrimSet::Whitespace)))
}

pub fn soul_display_name(soul: &str) -> (r: String)
    ensures
        r@ == soul_label(soul@),
{
    let cs = chars_of(soul);
    if eq_str(&cs, "developer") {
        String::from_str("Developer")
    } else if eq_str(&cs, "qa") {
        String::from_str("QA")
    } else {
        String::from_str(soul)
    }
}

/// The title a tab shows.
pub fn entry_title(agent: &AgentView) -> (r: String)
    ensures
        r@ == entry_title_of(agent@),
{
    match &agent.display_name {
        Some(d) => d.clone(),
        None => if chars_of(agent.title.as_str()).len() > 0 {
            agent.title.clone()
        } else {
            String::from_str("New session")
        },
    }
}

/// The latest user prompt of a session, if any.
pub fn last_user_prompt_line(agent: &AgentView) -> (r: Option<String>)
    ensures
        opt_text(r) == last_prompt_of(agent@),
{
    let n = agent.user_prompts.len();
    if n > 0 {
        Some(agent.user_prompts[n - 1].clone())
    } else {
        None
    }
}

fn concat(a: &str, b: &str) -> (r: String)
    ensures
        r@ == a@ + b@,
{
    let mut s = String::from_str(a);
    s.append(b);
    s
}

/// The brief for a handoff when the user gave none.
pub fn derive_handoff_summary(app: &AppView, source_id: AgentId) -> (r: String)
    ensures
        r@ == derived_summary(app.entries(), source_id),
{
    let agent = match agents_get(&app.agents, source_id) {
        Some(a) => a,
        None => return String::from_str("Review the related task context and continue."),
    };
    if let Some(line) = last_user_prompt_line(agent) {
        return concat("Latest user request:\n", line.as_str());
    }
    let title = entry_title(agent);
    let s = concat("Session “", title.as_str());
    concat(s.as_str(), "” has no user prompts yet — coordinate with the source agent.")
}

/// A session state related to the tab `id`.
pub open spec fn related_to(a: AgentState, id: AgentId) -> AgentState {
    (a.0, a.1, a.2, Some(id), a.4)
}

/// The tabs after a handoff from `source` opened `new_id` as `soul`: the
/// source tab points at the new one, and the new tab (labelled by the soul,
/// running as it, pointing back at the source) comes last.
pub open spec fn handoff_states(
    st: Seq<(AgentId, AgentState)>,
    source: AgentId,
    new_id: AgentId,
    soul: Seq<char>,
) -> Seq<(AgentId, AgentState)> {
    st.map_values(
        |p: (AgentId, AgentState)|
            if p.0 == source {
                (p.0, related_to(p.1, new_id))
            } else {
                p
            },
    ).push((new_id, (Seq::empty(), Some(soul_label(soul)), Some(soul), Some(source), Seq::empty())))
}

/// The brief a handoff carries: the given one, trimmed, unless that is empty.
pub open spec fn handoff_brief(e: Seq<(AgentId, AgentView)>, source: AgentId, brief: Option<Seq<char>>) -> Seq<char> {
    if brief is Some && trim(brief->0, TrimSet::Whitespace).len() > 0 {
        trim(brief->0, TrimSet::Whitespace)
    } else {
        derived_summary(e, source)
    }
}

/// How the source tab is named in a handoff brief.
pub open spec fn source_title(e: Seq<(AgentId, AgentView)>, source: AgentId) -> Seq<char> {
    if has_agent(e, source) {
        entry_title_of(agent_of(e, source)@)
    } else {
        "task"@
    }
}

/// Which soul the source tab runs as, for the handoff brief.
pub open spec fn source_label(e: Seq<(AgentId, AgentView)>, source: AgentId) -> Seq<char> {
    if has_agent(e, source) && agent_of(e, source)@.2 is Some {
        agent_of(e, source)@.2->0
    } else {
        "agent"@
    }
}

/// The souls a task can be handed off to.
pub open spec fn is_handoff_soul(t: Seq<char>) -> bool {
    t == "developer"@ || t == "qa"@
}

pub open spec fn opt_str(o: Option<&str>) -> Option<Seq<char>> {
    match o {
        Some(s) => Some(s@),
        None => None,
    }
}

/// `after` is `before` with the create-session effect of `id` given `profile`.
pub open spec fn stamped(before: Effect, after: Effect, id: AgentId, profile: Seq<char>) -> bool {
    match before {
        Effect::CreateSession { agent_id: a, agent_profile: ap } => after matches Effect::CreateSession {
            agent_id: b,
            agent_profile: bp,
        } && a == b && if a == id {
            opt_text(bp) == Some(profile)
        } else {
            bp == ap
        },
        _ => after == before,
    }
}

/// Stamp an agent profile on the create-session effect of one agent.
pub fn stamp_agent_profile(effects: Vec<Effect>, id: AgentId, profile: &String) -> (r: Vec<Effect>)
    ensures
        r@.len() == effects@.len(),
        forall|i: int| 0 <= i < r@.len() ==> stamped(#[trigger] effects@[i], r@[i], id, profile@),
{
    let ghost orig = effects@;
    let mut rest = effects;
    let mut out: Vec<Effect> = Vec::new();
    while rest.len() > 0
        invariant
            out@.len() + rest@.len() == orig.len(),
            rest@ == orig.skip(out@.len() as int),
            forall|k: int| 0 <= k < out@.len() ==> stamped(#[trigger] orig[k], out@[k], id, profile@),
        decreases rest@.len(),
    {
        let ghost k = out@.len() as int;
        let e = rest.remove(0);
        assert(e == orig[k]);
        let stamped_effect = match e {
            Effect::CreateSession { agent_id, agent_profile } => {
                if agent_id == id {
                    Effect::CreateSession { agent_id, agent_profile: Some(profile.clone()) }
                } else {
                    Effect::CreateSession { agent_id, agent_profile }
                }
            },
            other => other,
        };
        out.push(stamped_effect);
        assert(rest@ =~= orig.skip(out@.len() as int));
    }
    out
}

/// The focused agent tab, when one is focused and open.
pub open spec fn focused_agent(app: AppView) -> Option<AgentId> {
    match app.active_view {
        ActiveView::Agent(id) => if has_agent(app.entries(), id) {
            Some(id)
        } else {
            None
        },
        ActiveView::Welcome => None,
    }
}

/// Queue a prompt for the focused agent; it is sent once its session is up.
pub fn dispatch_send_prompt(app: &mut AppView, prompt: String) -> (r: Vec<Effect>)
    ensures
        old(app).wf() ==> final(app).wf(),
        sent_prompt(*old(app), *final(app), prompt@, r@),
{
    let mut effects: Vec<Effect> = Vec::new();
    if let ActiveView::Agent(id) = app.active_view {
        if agents_get(&app.agents, id).is_some() {
            effects.push(Effect::SendPrompt { agent_id: id, prompt });
        }
    }
    effects
}

/// Hand off the current task to another Arch soul (`developer` / `qa`).
///
/// Creates a new parallel tab, stamps the target profile into the create-session
/// effect, labels the tab, relates it and the source to each other, splits the
/// view on the source, focuses the new tab and seeds a handoff brief as its
/// first prompt.
pub fn dispatch_handoff(app: &mut AppView, target: &str, brief: Option<&str>) -> (r: Vec<Effect>)
    requires
        old(app).wf(),
        old(app).next_agent_id < u64::MAX,
    ensures
        final(app).wf(),
        handed_off(*old(app), *final(app), target@, opt_str(brief), r@),
{
    let target = normalize_soul(target);
    let tc = chars_of(target.as_str());
    if !(eq_str(&tc, "developer") || eq_str(&tc, "qa")) {
        app.show_toast("Handoff target must be developer or qa");
        return Vec::new();
    }
    let source_id = match app.active_view {
        ActiveView::Agent(id) => id,
        ActiveView::Welcome => {
            app.show_toast("Open a task before handoff");
            return Vec::new();
        },
    };
    let ghost e0 = app.entries();
    let ghost n = app.next_agent_id;

    let source_title = match agents_get(&app.agents, source_id) {
        Some(a) => entry_title(a),
        None => String::from_str("task"),
    };
    let summary = match brief {
        Some(b) => {
            let t = trim_chars(&chars_of(b), TrimSet::Whitespace);
            if t.len() > 0 {
                string_from_chars(&t)
            } else {
                derive_handoff_summary(app, source_id)
            }
        },
        None => derive_handoff_summary(app, source_id),
    };
    let source_label = match agents_get(&app.agents, source_id) {
        Some(a) => match &a.arch_soul {
            Some(soul) => soul.clone(),
            None => String::from_str("agent"),
        },
        None => String::from_str("agent"),
    };
    let seed = handoff_seed_text(&source_label, &source_title, &target, &summary);

    // Create parallel agent (does not tear down the source).
    let (new_id, created) = new_session_tab(app);
    let ghost e1 = app.entries();
    proof {
        lemma_agent_index_unique(e1, e0.len() as int);
    }

    let ghost new_state: AgentState = (
        Seq::empty(),
        Some(soul_label(target@)),
        Some(target@),
        Some(source_id),
        Seq::empty(),
    );
    if let Some(agent) = agents_get(&app.agents, new_id) {
        let mut updated = agent.duplicate();
        updated.display_name = Some(soul_display_name(target.as_str()));
        updated.arch_soul = Some(target.clone());
        updated.arch_related_to = Some(source_id);
        proof {
            assert(agent == e1[e0.len() as int].1);
            assert(updated@.0 =~= Seq::<char>::empty());
            assert(updated@.4 =~= Seq::<Seq<char>>::empty());
            assert(updated@ == new_state);
        }
        agents_insert(&mut app.agents, new_id, updated);
    }
    let ghost e2 = app.entries();
    proof {
        assert(has_agent(e1, new_id));
        let k = choose|k: int| 0 <= k < e1.len() && #[trigger] e1[k].0 == new_id && e2 == e1.update(k, (new_id, e2[k].1));
        assert(k == e0.len());
        assert(entry_states(e2) =~= entry_states(e0).push((n, new_state)));
        assert forall|i: int, j: int| 0 <= i < e2.len() && 0 <= j < e2.len() && i != j implies #[trigger] e2[i].0
            != #[trigger] e2[j].0 by {
            assert(e2[i].0 == e1[i].0 && e2[j].0 == e1[j].0);
        }
        assert(source_id < n);
    }
    if let Some(source) = agents_get(&app.agents, source_id) {
        let mut updated = source.duplicate();
        updated.arch_related_to = Some(new_id);
        proof {
            let k = agent_index(e2, source_id);
            assert(e2[k].0 == source_id);
            assert(k < e0.len()) by {
                if k == e0.len() {
                    assert(e2[k].0 == n);
                }
            }
            assert(updated@ == related_to(e0[k].1@, n));
        }
        agents_insert(&mut app.agents, source_id, updated);
    }
    let ghost e3 = app.entries();
    proof {
        let target_states = handoff_states(entry_states(e0), source_id, n, target@);
        let mapped = entry_states(e0).map_values(
            |p: (AgentId, AgentState)|
                if p.0 == source_id {
                    (p.0, related_to(p.1, n))
                } else {
                    p
                },
        );
        if has_agent(e2, source_id) {
            let k = choose|k: int| 0 <= k < e2.len() && #[trigger] e2[k].0 == source_id && e3 == e2.update(k, (source_id, e3[k].1));
            lemma_agent_index_unique(e2, k);
            assert(k < e0.len()) by {
                if k == e0.len() {
                    assert(e2[k].0 == n);
                }
            }
            assert forall|i: int| 0 <= i < e0.len() implies #[trigger] entry_states(e3)[i] == mapped[i] by {
                assert(e2[i] == e0[i]);
                if i != k {
                    assert(e0[i].0 != source_id);
                }
            }
            assert(entry_states(e3)[e0.len() as int] == (n, new_state));
            assert(entry_states(e3) =~= target_states);
        } else {
            assert forall|i: int| 0 <= i < e0.len() implies #[trigger] entry_states(e3)[i] == mapped[i] by {
                assert(e2[i] == e0[i]);
                assert(e2[i].0 != source_id);
            }
            assert(entry_states(e3)[e0.len() as int] == (n, new_state));
            assert(entry_states(e3) =~= target_states);
        }
        assert forall|i: int, j: int| 0 <= i < e3.len() && 0 <= j < e3.len() && i != j implies #[trigger] e3[i].0
            != #[trigger] e3[j].0 by {
            assert(e3[i].0 == e2[i].0 && e3[j].0 == e2[j].0);
        }
        assert forall|i: int| 0 <= i < e3.len() implies #[trigger] e3[i].0 < app.next_agent_id by {
            assert(e3[i].0 == e1[i].0);
        }
    }

    // Stamp agentProfile on the CreateSession effect for this handoff tab.
    let mut effects = stamp_agent_profile(created, new_id, &target);

    // Auto-split source + handoff target when possible.
    app.split_secondary = Some(source_id);
    switch_to_agent(app, new_id);

    // Queue brief; it drains when the session is created.
    let mut sent = dispatch_send_prompt(app, seed);
    effects.append(&mut sent);

    let msg = concat(concat("Handoff → ", target.as_str()).as_str(), " (related tab open)");
    app.show_toast(msg.as_str());
    effects
}

fn handoff_seed_text(label: &String, title: &String, target: &String, summary: &String) -> (r: String)
    ensures
        r@ == handoff_seed(label@, title@, target@, summary@),
{
    let mut s = String::from_str("[Arch handoff] From **");
    s.append(label.as_str());
    s.append("** tab “");
    s.append(title.as_str());
    s.append("” → **");
    s.append(target.as_str());
    s.append("**.\n\n## Brief\n");
    s.append(summary.as_str());
    s.append("\n\nProceed as the ");
    s.append(target.as_str());
    s.append(" agent. Keep changes minimal and report clearly.");
    s
}

/// Switch the focused agent's model.
pub fn dispatch_switch_model(app: &mut AppView, model_id: ModelId, effort: Option<ReasoningEffort>) -> (r: Vec<Effect>)
    ensures
        old(app).wf() ==> final(app).wf(),
        switched_model(*old(app), *final(app), model_id, effort, r@),
{
    let mut effects: Vec<Effect> = Vec::new();
    if let ActiveView::Agent(id) = app.active_view {
        if agents_get(&app.agents, id).is_some() {
            effects.push(Effect::SwitchModel { agent_id: id, model_id, effort });
        }
    }
    effects
}

/// Route an action to its handler.
pub fn dispatch(action: Action, app: &mut AppView) -> (r: Vec<Effect>)
    requires
        old(app).wf(),
        old(app).next_agent_id < u64::MAX,
    ensures
        final(app).wf(),
        action is NewSession ==> opened_session(*old(app), *final(app), old(app).next_agent_id, r@),
        action is NextAgentTab ==> cycled(*old(app), *final(app), 1, r@),
        action is PrevAgentTab ==> cycled(*old(app), *final(app), -1, r@),
        action is ToggleSplitView ==> toggled_split(*old(app), *final(app), r@),
        action matches Action::Handoff { target, brief } ==> handed_off(
            *old(app),
            *final(app),
            target@,
            opt_text(brief),
            r@,
        ),
        action matches Action::SendPrompt(prompt) ==> sent_prompt(*old(app), *final(app), prompt@, r@),
        action matches Action::SwitchModel { model_id, effort } ==> switched_model(
            *old(app),
            *final(app),
            model_id,
            effort,
            r@,
        ),
{
    match action {
        Action::NewSession => {
            let (_, effects) = new_session_tab(app);
            effects
        },
        Action::NextAgentTab => dispatch_next_agent_tab(app),
        Action::PrevAgentTab => dispatch_prev_agent_tab(app),
        Action::ToggleSplitView => dispatch_toggle_split(app),
        Action::Handoff { target, brief } => {
            let b: Option<&str> = match &brief {
                Some(x) => Some(x.as_str()),
                None => None,
            };
            dispatch_handoff(app, target.as_str(), b)
        },
        Action::SendPrompt(prompt) => dispatch_send_prompt(app, prompt),
        Action::SwitchModel { model_id, effort } => dispatch_switch_model(app, model_id, effort),
    }
}

/// Cycling to the next tab and back to the previous one returns to the tab
/// one started on, and so does the reverse, when at least two tabs are open.
pub proof fn law_cycle_next_prev_inverse(e: Seq<(AgentId, AgentView)>, a: AgentId)
    requires
        ids_unique(e),
        e.len() >= 2,
        has_agent(e, a),
    ensures
        cycled_view(e, cycled_view(e, ActiveView::Agent(a), 1), -1) == ActiveView::Agent(a),
        cycled_view(e, cycled_view(e, ActiveView::Agent(a), -1), 1) == ActiveView::Agent(a),
{
    let len = e.len() as int;
    let p = agent_index(e, a);
    assert(0 <= p < len && e[p].0 == a);
    let q = (p + 1) % len;
    let r = (p - 1) % len;
    if p + 1 < len {
        vstd::arithmetic::div_mod::lemma_small_mod((p + 1) as nat, len as nat);
    } else {
        vstd::arithmetic::div_mod::lemma_mod_self_0(len);
    }
    if p >= 1 {
        vstd::arithmetic::div_mod::lemma_small_mod((p - 1) as nat, len as nat);
    } else {
        vstd::arithmetic::div_mod::lemma_mod_add_multiples_vanish(-1, len);
        vstd::arithmetic::div_mod::lemma_small_mod((len - 1) as nat, len as nat);
    }
    assert(0 <= q < len && 0 <= r < len);
    lemma_agent_index_unique(e, q);
    lemma_agent_index_unique(e, r);
    if q >= 1 {
        vstd::arithmetic::div_mod::lemma_small_mod((q - 1) as nat, len as nat);
    } else {
        vstd::arithmetic::div_mod::lemma_mod_add_multiples_vanish(-1, len);
        vstd::arithmetic::div_mod::lemma_small_mod((len - 1) as nat, len as nat);
    }
    if r + 1 < len {
        vstd::arithmetic::div_mod::lemma_small_mod((r + 1) as nat, len as nat);
    } else {
        vstd::arithmetic::div_mod::lemma_mod_self_0(len);
    }
}

/// A handoff adds exactly one tab, last, and relates it and its source to
/// each other; every other tab stays as it was.
pub proof fn law_handoff_links_both_ways(
    st: Seq<(AgentId, AgentState)>,
    source: AgentId,
    new_id: AgentId,
    soul: Seq<char>,
    i: int,
)
    requires
        0 <= i < st.len(),
    ensures
        handoff_states(st, source, new_id, soul).len() == st.len() + 1,
        handoff_states(st, source, new_id, soul).last().0 == new_id,
        handoff_states(st, source, new_id, soul).last().1.3 == Some(source),
        handoff_states(st, source, new_id, soul).last().1.2 == Some(soul),
        handoff_states(st, source, new_id, soul)[i].0 == st[i].0,
        st[i].0 == source ==> handoff_states(st, source, new_id, soul)[i].1.3 == Some(new_id),
        st[i].0 != source ==> handoff_states(st, source, new_id, soul)[i] == st[i],
{
}

/// What opening a session tab does: the next id goes to a fresh tab appended
/// last and focused, the counter moves on, split and toast stay, and the one
/// effect creates the session with no profile.
pub open spec fn opened_session(before: AppView, after: AppView, id: AgentId, effects: Seq<Effect>) -> bool {
    &&& id == before.next_agent_id
    &&& after.next_agent_id == before.next_agent_id + 1
    &&& after.entries().len() == before.entries().len() + 1
    &&& after.entries().take(before.entries().len() as int) == before.entries()
    &&& after.entries().last().0 == id
    &&& after.entries().last().1.is_fresh()
    &&& after.active_view == ActiveView::Agent(id)
    &&& after.split_secondary == before.split_secondary
    &&& after.toast == before.toast
    &&& effects.len() == 1
    &&& (effects[0] matches Effect::CreateSession { agent_id, agent_profile } && agent_id == id
        && agent_profile is None)
}

/// What cycling tabs by `delta` does: with fewer than two tabs only a toast;
/// otherwise the focus moves as `cycled_view` says. Tabs, split and counter
/// stay, and there are no effects.
pub open spec fn cycled(before: AppView, after: AppView, delta: int, effects: Seq<Effect>) -> bool {
    &&& effects.len() == 0
    &&& after.agents == before.agents
    &&& after.split_secondary == before.split_secondary
    &&& after.next_agent_id == before.next_agent_id
    &&& before.entries().len() < 2 ==> after.active_view == before.active_view
        && after.toast_text() == Some("Only one task tab open — Ctrl+T for a new one"@)
    &&& before.entries().len() >= 2 ==> after.toast == before.toast && after.active_view
        == cycled_view(before.entries(), before.active_view, delta)
}

/// What toggling split view does: an active split turns off; otherwise, with
/// two tabs and a focused open agent, the split pairs it with `split_peer`;
/// each case tells the user by a toast. Tabs, focus and counter stay, and
/// there are no effects.
pub open spec fn toggled_split(before: AppView, after: AppView, effects: Seq<Effect>) -> bool {
    &&& effects.len() == 0
    &&& after.agents == before.agents
    &&& after.active_view == before.active_view
    &&& after.next_agent_id == before.next_agent_id
    &&& before.split_secondary is Some ==> after.split_secondary is None && after.toast_text()
        == Some("Split view off"@)
    &&& before.split_secondary is None && before.entries().len() < 2 ==> after.split_secondary
        is None && after.toast_text() == Some("Need two task tabs to split — Ctrl+T to open another"@)
    &&& before.split_secondary is None && before.entries().len() >= 2 && before.active_view
        == ActiveView::Welcome ==> after.split_secondary is None && after.toast_text() == Some(
        "Open a task first"@,
    )
    &&& (before.active_view matches ActiveView::Agent(a) ==> (before.split_secondary is None
        && before.entries().len() >= 2 ==> if has_agent(before.entries(), a) {
        after.split_secondary == Some(split_peer(before.entries(), a)) && after.toast_text() == Some(
            "Split view on (Ctrl+Shift+S to exit)"@,
        )
    } else {
        after.split_secondary is None && after.toast == before.toast
    }))
}

/// The app state is as it was.
pub open spec fn unchanged(before: AppView, after: AppView) -> bool {
    &&& after.agents == before.agents
    &&& after.active_view == before.active_view
    &&& after.split_secondary == before.split_secondary
    &&& after.toast == before.toast
    &&& after.next_agent_id == before.next_agent_id
}

/// What sending a prompt does: the state stays; a focused open agent gets one
/// effect sending it exactly that prompt; otherwise there is no effect.
pub open spec fn sent_prompt(before: AppView, after: AppView, prompt: Seq<char>, effects: Seq<Effect>) -> bool {
    &&& unchanged(before, after)
    &&& (focused_agent(before) matches Some(id) ==> (effects.len() == 1 && (effects[0] matches Effect::SendPrompt {
        agent_id,
        prompt: p,
    } && agent_id == id && p@ == prompt)))
    &&& (focused_agent(before) is None ==> effects.len() == 0)
}

/// What switching the model does: the state stays; a focused open agent gets
/// one effect switching it to that model and effort; otherwise no effect.
pub open spec fn switched_model(
    before: AppView,
    after: AppView,
    model_id: ModelId,
    effort: Option<ReasoningEffort>,
    effects: Seq<Effect>,
) -> bool {
    &&& unchanged(before, after)
    &&& (focused_agent(before) matches Some(id) ==> (effects.len() == 1 && (effects[0] matches Effect::SwitchModel {
        agent_id,
        model_id: m,
        effort: f,
    } && agent_id == id && m == model_id && f == effort)))
    &&& (focused_agent(before) is None ==> effects.len() == 0)
}

/// What a handoff to `target` with `brief` does: an unknown soul or no
/// focused task only gives a toast; otherwise a new tab is opened as the
/// normalized soul, related to the source both ways, split beside it and
/// focused, with the create-session effect carrying the soul as profile and
/// the seed prompt sent to it.
pub open spec fn handed_off(
    before: AppView,
    after: AppView,
    target: Seq<char>,
    brief: Option<Seq<char>>,
    effects: Seq<Effect>,
) -> bool {
    let soul = normalized_soul(target);
    &&& !is_handoff_soul(soul) ==> effects.len() == 0 && after.agents == before.agents
        && after.active_view == before.active_view && after.split_secondary
        == before.split_secondary && after.next_agent_id == before.next_agent_id
        && after.toast_text() == Some("Handoff target must be developer or qa"@)
    &&& is_handoff_soul(soul) && before.active_view == ActiveView::Welcome ==> effects.len() == 0
        && after.agents == before.agents && after.active_view == before.active_view
        && after.split_secondary == before.split_secondary && after.next_agent_id
        == before.next_agent_id && after.toast_text() == Some("Open a task before handoff"@)
    &&& (before.active_view matches ActiveView::Agent(source) ==> (is_handoff_soul(soul) ==> {
        &&& after.next_agent_id == before.next_agent_id + 1
        &&& entry_states(after.entries()) == handoff_states(
            entry_states(before.entries()),
            source,
            before.next_agent_id,
            soul,
        )
        &&& after.active_view == ActiveView::Agent(before.next_agent_id)
        &&& after.split_secondary == Some(source)
        &&& after.toast_text() == Some("Handoff → "@ + soul + " (related tab open)"@)
        &&& effects.len() == 2
        &&& (effects[0] matches Effect::CreateSession { agent_id, agent_profile } && agent_id
            == before.next_agent_id && opt_text(agent_profile) == Some(soul))
        &&& (effects[1] matches Effect::SendPrompt { agent_id, prompt } && agent_id
            == before.next_agent_id && prompt@ == handoff_seed(
            source_label(before.entries(), source),
            source_title(before.entries(), source),
            soul,
            handoff_brief(before.entries(), source, brief),
        ))
    }))
}


/// A brief as a handoff reads it: trimmed, and none at all when blank.
pub open spec fn normalized_brief(brief: Option<Seq<char>>) -> Option<Seq<char>> {
    match brief {
        Some(b) => if trim(b, TrimSet::Whitespace).len() > 0 {
            Some(trim(b, TrimSet::Whitespace))
        } else {
            None
        },
        None => None,
    }
}

/// A handoff does the same for a raw target and brief as for the trimmed,
/// lowercased target and the trimmed brief, a blank brief counting as none:
/// ` QA ` acts as `qa`, and a brief of spaces as no brief.
pub proof fn law_handoff_normalizes_inputs(
    before: AppView,
    after: AppView,
    target: Seq<char>,
    brief: Option<Seq<char>>,
    effects: Seq<Effect>,
)
    ensures
        handed_off(before, after, target, brief, effects) == handed_off(
            before,
            after,
            normalized_soul(target),
            normalized_brief(brief),
            effects,
        ),
{
    let t = trim(target, TrimSet::Whitespace);
    lemma_trim_lower_commute(t);
    lemma_trim_idempotent(target, TrimSet::Whitespace);
    lemma_ascii_lower_idempotent(t);
    assert(normalized_soul(normalized_soul(target)) == normalized_soul(target));
    if let Some(b) = brief {
        lemma_trim_idempotent(b, TrimSet::Whitespace);
    }
    assert forall|e: Seq<(AgentId, AgentView)>, source: AgentId|
        #[trigger] handoff_brief(e, source, brief) == handoff_brief(e, source, normalized_brief(brief)) by {}
}

/// An effect as plain values.
pub enum EffectView {
    CreateSession { agent_id: AgentId, agent_profile: Option<Seq<char>> },
    SendPrompt { agent_id: AgentId, prompt: Seq<char> },
    SwitchModel { agent_id: AgentId, model_id: ModelId, effort: Option<ReasoningEffort> },
}

pub open spec fn effect_view(e: Effect) -> EffectView {
    match e {
        Effect::CreateSession { agent_id, agent_profile } => EffectView::CreateSession {
            agent_id,
            agent_profile: opt_text(agent_profile),
        },
        Effect::SendPrompt { agent_id, prompt } => EffectView::SendPrompt { agent_id, prompt: prompt@ },
        Effect::SwitchModel { agent_id, model_id, effort } => EffectView::SwitchModel { agent_id, model_id, effort },
    }
}

/// Effects as plain values.
pub open spec fn effects_view(effects: Seq<Effect>) -> Seq<EffectView> {
    effects.map_values(|e: Effect| effect_view(e))
}

/// The app state as plain values: tabs with their states, focus, split,
/// toast text and the next id.
pub open spec fn app_outcome(a: AppView) -> (
    Seq<(AgentId, AgentState)>,
    ActiveView,
    Option<AgentId>,
    Option<Seq<char>>,
    AgentId,
) {
    (entry_states(a.entries()), a.active_view, a.split_secondary, a.toast_text(), a.next_agent_id)
}

/// A handoff's outcome is fixed by the state it starts from and its inputs.
proof fn lemma_handoff_outcome_unique(
    before: AppView,
    a1: AppView,
    a2: AppView,
    target: Seq<char>,
    brief: Option<Seq<char>>,
    e1: Seq<Effect>,
    e2: Seq<Effect>,
)
    requires
        handed_off(before, a1, target, brief, e1),
        handed_off(before, a2, target, brief, e2),
    ensures
        app_outcome(a1) == app_outcome(a2),
        effects_view(e1) == effects_view(e2),
{
    assert(effects_view(e1) =~= effects_view(e2)) by {
        if e1.len() == 2 {
            assert(effect_view(e1[0]) == effect_view(e2[0]));
            assert(effect_view(e1[1]) == effect_view(e2[1]));
        }
    }
}

/// Two handoffs from one state, one given the raw target and brief and the
/// other the trimmed, lowercased target and the trimmed brief (a blank brief
/// as none), end in the same app state and give the same effects, as plain
/// values: ` QA ` with a brief of spaces acts as `qa` with no brief.
pub proof fn law_handoff_raw_and_normalized_agree(
    before: AppView,
    a1: AppView,
    a2: AppView,
    target: Seq<char>,
    brief: Option<Seq<char>>,
    e1: Seq<Effect>,
    e2: Seq<Effect>,
)
    requires
        handed_off(before, a1, target, brief, e1),
        handed_off(before, a2, normalized_soul(target), normalized_brief(brief), e2),
    ensures
        app_outcome(a1) == app_outcome(a2),
        effects_view(e1) == effects_view(e2),
{
    law_handoff_normalizes_inputs(before, a2, target, brief, e2);
    lemma_handoff_outcome_unique(before, a1, a2, target, brief, e1, e2);
}

/// The latest user prompt of a tab is the one sent last: the final element
/// of its prompt list, however many there are.
pub proof fn law_last_prompt_is_newest(agent: AgentView)
    requires
        agent.user_prompts@.len() > 0,
    ensures
        last_prompt_of(agent@) == Some(agent.user_prompts@[agent.user_prompts@.len() - 1]@),
{
}

/// Handed off with no brief (or a blank one) from an open tab that has user
/// prompts, the brief is `Latest user request:` and the prompt sent last.
pub proof fn law_handoff_brief_is_latest_prompt(
    e: Seq<(AgentId, AgentView)>,
    source: AgentId,
    brief: Option<Seq<char>>,
)
    requires
        has_agent(e, source),
        agent_of(e, source).user_prompts@.len() > 0,
        brief is None || trim(brief->0, TrimSet::Whitespace).len() == 0,
    ensures
        handoff_brief(e, source, brief) == "Latest user request:\n"@ + agent_of(e, source).user_prompts@[
            agent_of(e, source).user_prompts@.len() - 1
        ]@,
{
    law_last_prompt_is_newest(agent_of(e, source));
}

/// Cycling forward focuses the next tab in tab order, and from the last tab
/// the first; cycling back focuses the previous tab, and from the first the
/// last; a step that stays inside the tab list lands `delta` tabs away.
pub proof fn law_cycle_steps_to_neighbour(e: Seq<(AgentId, AgentView)>, p: int, delta: int)
    requires
        ids_unique(e),
        e.len() >= 2,
        0 <= p < e.len(),
    ensures
        cycled_view(e, ActiveView::Agent(e[p].0), 1) == ActiveView::Agent(
            e[if p + 1 < e.len() { p + 1 } else { 0 }].0,
        ),
        cycled_view(e, ActiveView::Agent(e[p].0), -1) == ActiveView::Agent(
            e[if p > 0 { p - 1 } else { e.len() - 1 }].0,
        ),
        0 <= p + delta < e.len() ==> cycled_view(e, ActiveView::Agent(e[p].0), delta) == ActiveView::Agent(
            e[p + delta].0,
        ),
{
    let len = e.len() as int;
    lemma_agent_index_unique(e, p);
    if p + 1 < len {
        vstd::arithmetic::div_mod::lemma_small_mod((p + 1) as nat, len as nat);
    } else {
        vstd::arithmetic::div_mod::lemma_mod_self_0(len);
    }
    if p >= 1 {
        vstd::arithmetic::div_mod::lemma_small_mod((p - 1) as nat, len as nat);
    } else {
        vstd::arithmetic::div_mod::lemma_mod_add_multiples_vanish(-1, len);
        vstd::arithmetic::div_mod::lemma_small_mod((len - 1) as nat, len as nat);
    }
    if 0 <= p + delta < len {
        vstd::arithmetic::div_mod::lemma_small_mod((p + delta) as nat, len as nat);
    }
}

} // verus!
