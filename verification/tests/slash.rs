use grok_arch::actions::{Action, ReasoningEffort};
use grok_arch::slash::{
    AutoModelCommand, CommandExecCtx, CommandResult, HandoffCommand, ProfileCommand, SlashCommand,
    SplitCommand,
};

#[test]
fn handoff_command_parses_target_and_brief() {
    let mut ctx = CommandExecCtx {};
    match HandoffCommand.run(&mut ctx, "qa   check the login bug  ") {
        CommandResult::Action(Action::Handoff { target, brief }) => {
            assert_eq!(target, "qa");
            assert_eq!(brief.as_deref(), Some("check the login bug"));
        }
        other => panic!("unexpected {other:?}"),
    }
    match HandoffCommand.run(&mut ctx, "developer") {
        CommandResult::Action(Action::Handoff { target, brief }) => {
            assert_eq!(target, "developer");
            assert_eq!(brief, None);
        }
        other => panic!("unexpected {other:?}"),
    }
    match HandoffCommand.run(&mut ctx, "developer   ") {
        CommandResult::Action(Action::Handoff { brief, .. }) => assert_eq!(brief, None),
        other => panic!("unexpected {other:?}"),
    }
    match HandoffCommand.run(&mut ctx, " qa") {
        CommandResult::Error(msg) => assert_eq!(msg, "Usage: /handoff <developer|qa> [brief]"),
        other => panic!("unexpected {other:?}"),
    }
    assert_eq!(HandoffCommand.name(), "handoff");
    assert_eq!(HandoffCommand.aliases(), &["ha"]);
}

#[test]
fn profile_command_switches_model() {
    let mut ctx = CommandExecCtx {};
    match ProfileCommand.run(&mut ctx, " deep ") {
        CommandResult::Action(Action::SwitchModel { model_id, effort }) => {
            assert_eq!(&*model_id.0, "grok-4");
            assert_eq!(effort, Some(ReasoningEffort::High));
        }
        other => panic!("unexpected {other:?}"),
    }
    match ProfileCommand.run(&mut ctx, "huge") {
        CommandResult::Error(msg) => assert_eq!(msg, "Usage: /profile <fast|balanced|deep|vision>"),
        other => panic!("unexpected {other:?}"),
    }
    assert!(ProfileCommand.takes_args());
    assert!(ProfileCommand.args_required());
}

#[test]
fn auto_model_command_routes_hint() {
    let mut ctx = CommandExecCtx {};
    match AutoModelCommand.run(&mut ctx, "  look at the screenshot ") {
        CommandResult::Action(Action::SwitchModel { model_id, effort }) => {
            assert_eq!(&*model_id.0, "grok-2-vision");
            assert_eq!(effort, Some(ReasoningEffort::Low));
        }
        other => panic!("unexpected {other:?}"),
    }
    match AutoModelCommand.run(&mut ctx, "   ") {
        CommandResult::Action(Action::SwitchModel { model_id, effort }) => {
            assert_eq!(&*model_id.0, "grok-3");
            assert_eq!(effort, Some(ReasoningEffort::Medium));
        }
        other => panic!("unexpected {other:?}"),
    }
    // the hint is trimmed before routing, so "fix " counts as a prefix
    match AutoModelCommand.run(&mut ctx, "   fix the typo") {
        CommandResult::Action(Action::SwitchModel { model_id, .. }) => assert_eq!(&*model_id.0, "grok-3-mini"),
        other => panic!("unexpected {other:?}"),
    }
}

#[test]
fn split_command_toggles_split() {
    let mut ctx = CommandExecCtx {};
    assert!(matches!(SplitCommand.run(&mut ctx, "ignored"), CommandResult::Action(Action::ToggleSplitView)));
    assert_eq!(SplitCommand.usage(), "/split");
    assert!(!SplitCommand.takes_args());
}
