//! Arch slash commands: `/handoff`, `/profile`, `/auto-model` and `/split`.

use vstd::prelude::*;

use crate::actions::{model_id_from_slug, model_id_of, Action, ReasoningEffort};
use crate::model_router::{
    auto_profile, parse_profile, profile_reasoning, profile_slug, route, ModelMode, ModelProfile,
    ReasoningChoice,
};
use crate::text::{chars_of, is_unicode_whitespace, is_whitespace, slice_chars, string_from_chars, trim, trim_chars, TrimSet};

verus! {

/// What a command may consult or change while it runs.
pub struct CommandExecCtx {}

/// What running a slash command produced.
#[derive(Debug)]
pub enum CommandResult {
    /// An action for the app to dispatch.
    Action(Action),
    /// A message telling the user what went wrong.
    Error(String),
}

/// A `/command` the prompt understands.
pub trait SlashCommand {
    fn name(&self) -> &str;

    fn aliases(&self) -> &[&str];

    fn description(&self) -> &str;

    fn usage(&self) -> &str;

    /// Whether the command accepts arguments (by default it does not).
    fn takes_args(&self) -> (r: bool)
        default_ensures
            !r,
    {
        false
    }

    /// Whether the command refuses to run without arguments (by default it
    /// does not).
    fn args_required(&self) -> (r: bool)
        default_ensures
            !r,
    {
        false
    }

    fn run(&self, ctx: &mut CommandExecCtx, args: &str) -> CommandResult;
}

/// The length of the leading run of characters that are not whitespace.
pub open spec fn word_len(s: Seq<char>) -> nat
    decreases s.len(),
{
    if s.len() == 0 || is_unicode_whitespace(s[0]) {
        0
    } else {
        1 + word_len(s.drop_first())
    }
}

proof fn lemma_word_len(s: Seq<char>, i: int)
    requires
        0 <= i <= s.len(),
        forall|k: int| 0 <= k < i ==> !is_unicode_whitespace(#[trigger] s[k]),
        i == s.len() || is_unicode_whitespace(s[i]),
    ensures
        word_len(s) == i,
    decreases i,
{
    if i > 0 {
        lemma_word_len(s.drop_first(), i - 1);
    }
}

/// The target and brief `/handoff` reads from its arguments: the text up to
/// the first whitespace character, and the trimmed rest when it is not empty.
pub open spec fn handoff_target(args: Seq<char>) -> Seq<char> {
    args.take(word_len(args) as int)
}

pub open spec fn handoff_brief_arg(args: Seq<char>) -> Option<Seq<char>> {
    let i = word_len(args) as int;
    if i < args.len() && trim(args.skip(i + 1), TrimSet::Whitespace).len() > 0 {
        Some(trim(args.skip(i + 1), TrimSet::Whitespace))
    } else {
        None
    }
}

/// `/handoff <developer|qa> [brief]`: open a related Arch agent tab.
pub struct HandoffCommand;

impl SlashCommand for HandoffCommand {
    fn name(&self) -> (r: &str)
        ensures
            r@ == "handoff"@,
    {
        "handoff"
    }

    fn aliases(&self) -> (r: &[&str])
        ensures
            r@.map_values(|a: &str| a@) == seq!["ha"@],
    {
        &["ha"]
    }

    fn description(&self) -> (r: &str)
        ensures
            r@ == "Hand off the current task to Developer or QA (new related tab)"@,
    {
        "Hand off the current task to Developer or QA (new related tab)"
    }

    fn usage(&self) -> (r: &str)
        ensures
            r@ == "/handoff <developer|qa> [brief]"@,
    {
        "/handoff <developer|qa> [brief]"
    }

    fn run(&self, _ctx: &mut CommandExecCtx, args: &str) -> (r: CommandResult)
        ensures
            handoff_target(args@).len() == 0 ==> (r matches CommandResult::Error(msg) && msg@
                == "Usage: /handoff <developer|qa> [brief]"@),
            handoff_target(args@).len() > 0 ==> (r matches CommandResult::Action(
                Action::Handoff { target, brief },
            ) && target@ == handoff_target(args@) && match brief {
                Some(b) => handoff_brief_arg(args@) == Some(b@),
                None => handoff_brief_arg(args@) is None,
            }),
    {
        let cs = chars_of(args);
        let mut i: usize = 0;
        while i < cs.len() && !is_whitespace(cs[i])
            invariant
                i <= cs.len(),
                forall|k: int| 0 <= k < i ==> !is_unicode_whitespace(#[trigger] cs@[k]),
            decreases cs.len() - i,
        {
            i += 1;
        }
        proof {
            lemma_word_len(cs@, i as int);
        }
        // The first part holds no whitespace, so trimming leaves it as it is.
        let target = slice_chars(&cs, 0, i);
        if target.len() == 0 {
            return CommandResult::Error(String::from_str("Usage: /handoff <developer|qa> [brief]"));
        }
        let brief = if i < cs.len() {
            let rest = slice_chars(&cs, i + 1, cs.len());
            let t = trim_chars(&rest, TrimSet::Whitespace);
            proof {
                assert(rest@ =~= cs@.skip(i + 1));
            }
            if t.len() > 0 {
                Some(string_from_chars(&t))
            } else {
                None
            }
        } else {
            None
        };
        CommandResult::Action(Action::Handoff { target: string_from_chars(&target), brief })
    }
}

/// The effort a reasoning level asks of the model.
pub open spec fn effort_of(r: ReasoningChoice) -> ReasoningEffort {
    match r {
        ReasoningChoice::Low => ReasoningEffort::Low,
        ReasoningChoice::Medium => ReasoningEffort::Medium,
        ReasoningChoice::High => ReasoningEffort::High,
        ReasoningChoice::XHigh => ReasoningEffort::Xhigh,
    }
}

pub fn effort_from_reasoning(r: ReasoningChoice) -> (e: Option<ReasoningEffort>)
    ensures
        e == Some(effort_of(r)),
{
    Some(
        match r {
            ReasoningChoice::Low => ReasoningEffort::Low,
            ReasoningChoice::Medium => ReasoningEffort::Medium,
            ReasoningChoice::High => ReasoningEffort::High,
            ReasoningChoice::XHigh => ReasoningEffort::Xhigh,
        },
    )
}

/// `r` switches to the model of `profile` at its default reasoning.
pub open spec fn switches_to(r: CommandResult, profile: ModelProfile) -> bool {
    r matches CommandResult::Action(Action::SwitchModel { model_id, effort }) && model_id
        == model_id_of(profile_slug(profile)) && effort == Some(effort_of(profile_reasoning(profile)))
}

/// `/profile <fast|balanced|deep|vision>`: lock a named Arch model profile.
pub struct ProfileCommand;

impl SlashCommand for ProfileCommand {
    fn name(&self) -> (r: &str)
        ensures
            r@ == "profile"@,
    {
        "profile"
    }

    fn aliases(&self) -> (r: &[&str])
        ensures
            r@.len() == 0,
    {
        &[]
    }

    fn description(&self) -> (r: &str)
        ensures
            r@ == "Select Arch model profile: fast | balanced | deep | vision"@,
    {
        "Select Arch model profile: fast | balanced | deep | vision"
    }

    fn usage(&self) -> (r: &str)
        ensures
            r@ == "/profile <fast|balanced|deep|vision>"@,
    {
        "/profile <fast|balanced|deep|vision>"
    }

    fn takes_args(&self) -> (r: bool)
        ensures
            r,
    {
        true
    }

    fn args_required(&self) -> (r: bool)
        ensures
            r,
    {
        true
    }

    fn run(&self, _ctx: &mut CommandExecCtx, args: &str) -> (r: CommandResult)
        ensures
            parse_profile(args@) matches Some(p) ==> switches_to(r, p),
            parse_profile(args@) is None ==> (r matches CommandResult::Error(msg) && msg@
                == "Usage: /profile <fast|balanced|deep|vision>"@),
    {
        let profile = match ModelProfile::parse(args) {
            Some(p) => p,
            None => {
                return CommandResult::Error(
                    String::from_str("Usage: /profile <fast|balanced|deep|vision>"),
                );
            },
        };
        let decision = route(&ModelMode::Profile(profile), "");
        let model_id = model_id_from_slug(decision.model_slug.as_str());
        let effort = effort_from_reasoning(decision.reasoning);
        CommandResult::Action(Action::SwitchModel { model_id, effort })
    }
}

/// The hint `/auto-model` routes on: the trimmed arguments, or a generic
/// feature task when there are none.
pub open spec fn auto_hint(args: Seq<char>) -> Seq<char> {
    if trim(args, TrimSet::Whitespace).len() == 0 {
        "implement the feature"@
    } else {
        trim(args, TrimSet::Whitespace)
    }
}

/// `/auto-model [task hint]`: re-enable Auto routing (optionally from a hint).
pub struct AutoModelCommand;

impl SlashCommand for AutoModelCommand {
    fn name(&self) -> (r: &str)
        ensures
            r@ == "auto-model"@,
    {
        "auto-model"
    }

    fn aliases(&self) -> (r: &[&str])
        ensures
            r@.map_values(|a: &str| a@) == seq!["automodel"@],
    {
        &["automodel"]
    }

    fn description(&self) -> (r: &str)
        ensures
            r@ == "Route model automatically (fast/balanced/deep/vision) from a hint"@,
    {
        "Route model automatically (fast/balanced/deep/vision) from a hint"
    }

    fn usage(&self) -> (r: &str)
        ensures
            r@ == "/auto-model [task hint]"@,
    {
        "/auto-model [task hint]"
    }

    fn takes_args(&self) -> (r: bool)
        ensures
            r,
    {
        true
    }

    fn run(&self, _ctx: &mut CommandExecCtx, args: &str) -> (r: CommandResult)
        ensures
            switches_to(r, auto_profile(auto_hint(args@))),
    {
        let t = trim_chars(&chars_of(args), TrimSet::Whitespace);
        let hint = if t.len() == 0 {
            String::from_str("implement the feature")
        } else {
            string_from_chars(&t)
        };
        let decision = route(&ModelMode::Auto, hint.as_str());
        let model_id = model_id_from_slug(decision.model_slug.as_str());
        let effort = effort_from_reasoning(decision.reasoning);
        CommandResult::Action(Action::SwitchModel { model_id, effort })
    }
}

/// `/split`: toggle the two-pane task view.
pub struct SplitCommand;

impl SlashCommand for SplitCommand {
    fn name(&self) -> (r: &str)
        ensures
            r@ == "split"@,
    {
        "split"
    }

    fn aliases(&self) -> (r: &[&str])
        ensures
            r@.len() == 0,
    {
        &[]
    }

    fn description(&self) -> (r: &str)
        ensures
            r@ == "Toggle side-by-side view of two task tabs"@,
    {
        "Toggle side-by-side view of two task tabs"
    }

    fn usage(&self) -> (r: &str)
        ensures
            r@ == "/split"@,
    {
        "/split"
    }

    fn run(&self, _ctx: &mut CommandExecCtx, _args: &str) -> (r: CommandResult)
        ensures
            r matches CommandResult::Action(Action::ToggleSplitView),
    {
        CommandResult::Action(Action::ToggleSplitView)
    }
}

} // verus!
