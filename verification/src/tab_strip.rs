//! Labels of the compact Arch task-tab strip for multi-agent sessions.

use vstd::prelude::*;

use crate::agents::{agent_entries, agents_get, agents_keys, lemma_agent_index_unique, lemma_ids_unique_from_keys, AgentId, AgentState, AgentView};
use crate::tabs::{entry_title, entry_title_of};
use indexmap::IndexMap;
use crate::text::{chars_of, push_char, slice_chars, string_from_chars};

verus! {

/// Height reserved for the tab strip (one row).
pub const TAB_STRIP_HEIGHT: u16 = 1;

/// `t` cut to `keep` characters plus `…` when it is longer than `max`.
pub open spec fn capped(t: Seq<char>, max: nat, keep: nat) -> Seq<char> {
    if t.len() > max {
        t.take(keep as int).push('…')
    } else {
        t
    }
}

fn cap_text(t: &String, max: usize, keep: usize) -> (r: String)
    requires
        keep <= max,
    ensures
        r@ == capped(t@, max as nat, keep as nat),
{
    let cs = chars_of(t.as_str());
    if cs.len() > max {
        let mut out = string_from_chars(&slice_chars(&cs, 0, keep));
        push_char(&mut out, '…');
        out
    } else {
        t.clone()
    }
}

/// The title of a tab, cut to 18 characters.
pub open spec fn short_title_of(a: AgentState) -> Seq<char> {
    capped(entry_title_of(a), 18, 17)
}

/// The label of a tab: `soul:title` (or the title), `↔` when it is related
/// to another tab, soft-capped at 24 characters so many tabs still fit.
pub open spec fn tab_label_of(a: AgentState) -> Seq<char> {
    let base = match a.2 {
        Some(soul) => soul + ":"@ + short_title_of(a),
        None => short_title_of(a),
    };
    let l = if a.3 is Some {
        base.push('↔')
    } else {
        base
    };
    capped(l, 24, 23)
}

/// The title of a tab, cut to 18 characters.
pub fn short_title(agent: &AgentView) -> (r: String)
    ensures
        r@ == short_title_of(agent@),
{
    let title = entry_title(agent);
    cap_text(&title, 18, 17)
}

/// The label a tab shows in the strip.
pub fn tab_label(agent: &AgentView) -> (r: String)
    ensures
        r@ == tab_label_of(agent@),
{
    let title = short_title(agent);
    let mut label = match &agent.arch_soul {
        Some(soul) => {
            let mut s = soul.clone();
            s.append(":");
            s.append(title.as_str());
            s
        },
        None => title,
    };
    if agent.arch_related_to.is_some() {
        push_char(&mut label, '↔');
    }
    cap_text(&label, 24, 23)
}

/// One tab of the strip: its text (focus marker and label) and whether it is
/// the focused one.
pub struct TabEntry {
    pub text: String,
    pub active: bool,
}

/// The text of a tab in the strip: `● ` for the focused tab, `○ ` otherwise.
pub open spec fn tab_text(a: AgentState, is_active: bool) -> Seq<char> {
    (if is_active {
        "● "@
    } else {
        "○ "@
    }) + tab_label_of(a)
}

/// The tabs of the strip, in tab order.
pub fn tab_strip_entries(agents: &IndexMap<AgentId, AgentView>, active: AgentId) -> (r: Vec<TabEntry>)
    ensures
        r@.len() == agent_entries(*agents).len(),
        forall|i: int|
            0 <= i < r@.len() ==> (#[trigger] r@[i]).active == (agent_entries(*agents)[i].0 == active)
                && r@[i].text@ == tab_text(agent_entries(*agents)[i].1@, agent_entries(*agents)[i].0 == active),
{
    let ghost e = agent_entries(*agents);
    let ids = agents_keys(agents);
    proof {
        lemma_ids_unique_from_keys(e, ids@);
    }
    let mut out: Vec<TabEntry> = Vec::new();
    let mut i: usize = 0;
    while i < ids.len()
        invariant
            e == agent_entries(*agents),
            ids@.len() == e.len(),
            forall|k: int| 0 <= k < ids@.len() ==> #[trigger] ids@[k] == e[k].0,
            crate::agents::ids_unique(e),
            i <= ids@.len(),
            out@.len() == i,
            forall|k: int|
                0 <= k < i ==> (#[trigger] out@[k]).active == (e[k].0 == active) && out@[k].text@
                    == tab_text(e[k].1@, e[k].0 == active),
        decreases ids.len() - i,
    {
        let id = ids[i];
        proof {
            lemma_agent_index_unique(e, i as int);
        }
        let agent = match agents_get(agents, id) {
            Some(a) => a,
            None => {
                return out;
            },
        };
        let label = tab_label(agent);
        let is_active = id == active;
        let mut text = if is_active {
            String::from_str("● ")
        } else {
            String::from_str("○ ")
        };
        text.append(label.as_str());
        out.push(TabEntry { text, active: is_active });
        i += 1;
    }
    out
}

/// A rectangle of terminal cells.
#[derive(Clone, Copy, Debug, PartialEq, Eq, Structural)]
pub struct StripArea {
    pub x: u16,
    pub y: u16,
    pub width: u16,
    pub height: u16,
}

/// Where the strip is painted in `area` when `tab_count` tabs are open: the
/// top `TAB_STRIP_HEIGHT` rows of the area (fewer if the area is lower), or
/// the empty rectangle at the origin when there is no room or no tab.
pub open spec fn strip_area_of(area: StripArea, tab_count: nat) -> StripArea {
    if area.height == 0 || area.width == 0 || tab_count == 0 {
        StripArea { x: 0, y: 0, width: 0, height: 0 }
    } else {
        StripArea {
            x: area.x,
            y: area.y,
            width: area.width,
            height: if TAB_STRIP_HEIGHT <= area.height {
                TAB_STRIP_HEIGHT
            } else {
                area.height
            },
        }
    }
}

/// The rectangle the tab strip takes in `area`.
pub fn strip_area(area: StripArea, tab_count: usize) -> (r: StripArea)
    ensures
        r == strip_area_of(area, tab_count as nat),
{
    if area.height == 0 || area.width == 0 || tab_count == 0 {
        return StripArea { x: 0, y: 0, width: 0, height: 0 };
    }
    let height = if TAB_STRIP_HEIGHT <= area.height {
        TAB_STRIP_HEIGHT
    } else {
        area.height
    };
    StripArea { x: area.x, y: area.y, width: area.width, height }
}

/// How a piece of the strip row is styled.
#[derive(Clone, Copy, Debug, PartialEq, Eq, Structural)]
pub enum SegmentStyle {
    /// Dimmed gray: the ` tabs ` prefix and the separators.
    Dim,
    /// Bold primary text: the focused tab.
    Active,
    /// Gray: the other tabs.
    Inactive,
}

/// One styled piece of the strip row.
pub struct StripSegment {
    pub text: String,
    pub style: SegmentStyle,
}

/// The strip row for tabs given as (text, focused) pairs: ` tabs `, then the
/// tabs in order with ` │ ` between two neighbours.
pub open spec fn strip_row_of(tabs: Seq<(Seq<char>, bool)>) -> Seq<(Seq<char>, SegmentStyle)>
    decreases tabs.len(),
{
    if tabs.len() == 0 {
        seq![(" tabs "@, SegmentStyle::Dim)]
    } else {
        let front = strip_row_of(tabs.drop_last());
        let front = if tabs.len() > 1 {
            front.push((" │ "@, SegmentStyle::Dim))
        } else {
            front
        };
        front.push((tabs.last().0, if tabs.last().1 { SegmentStyle::Active } else { SegmentStyle::Inactive }))
    }
}

/// The tabs of `e` as (text, focused) pairs, with `active` focused.
pub open spec fn strip_tabs(e: Seq<(AgentId, AgentView)>, active: AgentId) -> Seq<(Seq<char>, bool)> {
    e.map_values(|p: (AgentId, AgentView)| (tab_text(p.1@, p.0 == active), p.0 == active))
}

/// A segment as plain values.
pub open spec fn segment_view(s: StripSegment) -> (Seq<char>, SegmentStyle) {
    (s.text@, s.style)
}

/// The styled pieces of the tab strip row, in the order they are painted.
pub fn tab_strip_row(agents: &IndexMap<AgentId, AgentView>, active: AgentId) -> (r: Vec<StripSegment>)
    ensures
        r@.map_values(|s: StripSegment| segment_view(s)) == strip_row_of(
            strip_tabs(agent_entries(*agents), active),
        ),
{
    let ghost e = agent_entries(*agents);
    let ghost tabs = strip_tabs(e, active);
    let entries = tab_strip_entries(agents, active);
    let mut out: Vec<StripSegment> = Vec::new();
    out.push(StripSegment { text: String::from_str(" tabs "), style: SegmentStyle::Dim });
    proof {
        assert(out@.map_values(|s: StripSegment| segment_view(s)) =~= strip_row_of(tabs.take(0)));
    }
    let mut i: usize = 0;
    while i < entries.len()
        invariant
            i <= entries@.len() == e.len() == tabs.len(),
            tabs == strip_tabs(e, active),
            e == agent_entries(*agents),
            forall|k: int|
                0 <= k < entries@.len() ==> (#[trigger] entries@[k]).active == (e[k].0 == active)
                    && entries@[k].text@ == tab_text(e[k].1@, e[k].0 == active),
            out@.map_values(|s: StripSegment| segment_view(s)) == strip_row_of(tabs.take(i as int)),
        decreases entries.len() - i,
    {
        let ghost before = out@.map_values(|s: StripSegment| segment_view(s));
        if i > 0 {
            out.push(StripSegment { text: String::from_str(" │ "), style: SegmentStyle::Dim });
        }
        let style = if entries[i].active {
            SegmentStyle::Active
        } else {
            SegmentStyle::Inactive
        };
        out.push(StripSegment { text: entries[i].text.clone(), style });
        proof {
            let t = tabs.take(i + 1);
            assert(t.drop_last() =~= tabs.take(i as int));
            assert(t.last() == tabs[i as int]);
            assert(tabs[i as int] == (tab_text(e[i as int].1@, e[i as int].0 == active), e[i as int].0 == active));
            assert(out@.map_values(|s: StripSegment| segment_view(s)) =~= strip_row_of(t));
        }
        i += 1;
    }
    proof {
        assert(tabs.take(e.len() as int) =~= tabs);
    }
    out
}

/// A tab title never exceeds 18 characters and a tab label never exceeds 24.
pub proof fn law_tab_text_is_capped(a: AgentState)
    ensures
        short_title_of(a).len() <= 18,
        tab_label_of(a).len() <= 24,
{
}

} // verus!
