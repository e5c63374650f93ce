use grok_arch::actions::{Action, ReasoningEffort};
use grok_arch::tabs::{
    dispatch, dispatch_handoff, dispatch_next_agent_tab, dispatch_prev_agent_tab,
    dispatch_toggle_split, derive_handoff_summary, normalize_soul, soul_display_name, ActiveView,
    AppView, Effect,
};

/// An app with one agent tab open and focused.
fn test_app_with_agent() -> AppView {
    let mut app = AppView::new();
    let _ = dispatch(Action::NewSession, &mut app);
    app
}

#[test]
fn cycle_tabs_requires_two_agents() {
    let mut app = test_app_with_agent();
    let effects = dispatch_next_agent_tab(&mut app);
    assert!(effects.is_empty());
}

#[test]
fn cycle_tabs_switches_active() {
    let mut app = test_app_with_agent();
    let first = match app.active_view {
        ActiveView::Agent(id) => id,
        _ => panic!("expected agent"),
    };
    // Spawn a second agent via NewSession.
    let _ = dispatch(Action::NewSession, &mut app);
    assert!(app.agents.len() >= 2);
    let second = match app.active_view {
        ActiveView::Agent(id) => id,
        _ => panic!("expected agent after new"),
    };
    assert_ne!(first, second);
    dispatch_prev_agent_tab(&mut app);
    assert_eq!(app.active_view, ActiveView::Agent(first));
    dispatch_next_agent_tab(&mut app);
    assert_eq!(app.active_view, ActiveView::Agent(second));
}

#[test]
fn toggle_split_needs_two_then_clears() {
    let mut app = test_app_with_agent();
    let _ = dispatch_toggle_split(&mut app);
    assert!(app.split_secondary.is_none());
    let _ = dispatch(Action::NewSession, &mut app);
    let _ = dispatch_toggle_split(&mut app);
    assert!(app.split_secondary.is_some());
    let _ = dispatch_toggle_split(&mut app);
    assert!(app.split_secondary.is_none());
}

#[test]
fn handoff_creates_related_tab() {
    let mut app = test_app_with_agent();
    let source = match app.active_view {
        ActiveView::Agent(id) => id,
        _ => panic!("expected agent"),
    };
    if let Some(a) = app.agents.get_mut(&source) {
        a.arch_soul = Some("developer".into());
        a.display_name = Some("Developer".into());
    }
    let effects = dispatch_handoff(&mut app, "qa", Some("Check the login bug"));
    assert!(
        effects
            .iter()
            .any(|e| matches!(e, Effect::CreateSession { agent_profile: Some(p), .. } if p == "qa")),
        "expected CreateSession with qa profile: {effects:?}"
    );
    assert!(app.agents.len() >= 2);
    let ActiveView::Agent(new_id) = app.active_view else {
        panic!("handoff should focus new tab");
    };
    assert_ne!(new_id, source);
    let new = &app.agents[&new_id];
    assert_eq!(new.arch_soul.as_deref(), Some("qa"));
    assert_eq!(new.display_name.as_deref(), Some("QA"));
    assert_eq!(new.arch_related_to, Some(source));
    assert_eq!(app.split_secondary, Some(source));
}

#[test]
fn handoff_seeds_brief_and_links_source() {
    let mut app = test_app_with_agent();
    let source = match app.active_view {
        ActiveView::Agent(id) => id,
        _ => panic!("expected agent"),
    };
    if let Some(a) = app.agents.get_mut(&source) {
        a.arch_soul = Some("developer".into());
        a.display_name = Some("Developer".into());
    }
    let effects = dispatch_handoff(&mut app, "  QA ", Some("  Check the login bug \n"));
    assert_eq!(effects.len(), 2);
    let ActiveView::Agent(new_id) = app.active_view else { panic!("no focus") };
    match &effects[1] {
        Effect::SendPrompt { agent_id, prompt } => {
            assert_eq!(*agent_id, new_id);
            assert_eq!(
                prompt,
                "[Arch handoff] From **developer** tab “Developer” → **qa**.\n\n## Brief\nCheck the login bug\n\nProceed as the qa agent. Keep changes minimal and report clearly."
            );
        }
        other => panic!("expected the seed prompt, got {other:?}"),
    }
    assert_eq!(app.agents[&source].arch_related_to, Some(new_id));
    assert_eq!(app.toast.as_deref(), Some("Handoff → qa (related tab open)"));
}

#[test]
fn handoff_refuses_unknown_soul_and_missing_task() {
    let mut app = test_app_with_agent();
    let before = app.agents.len();
    let effects = dispatch_handoff(&mut app, "designer", None);
    assert!(effects.is_empty());
    assert_eq!(app.agents.len(), before);
    assert_eq!(app.toast.as_deref(), Some("Handoff target must be developer or qa"));

    let mut empty = AppView::new();
    let effects = dispatch_handoff(&mut empty, "developer", None);
    assert!(effects.is_empty());
    assert_eq!(empty.toast.as_deref(), Some("Open a task before handoff"));
}

#[test]
fn handoff_summary_falls_back_to_session_context() {
    let mut app = test_app_with_agent();
    let source = match app.active_view {
        ActiveView::Agent(id) => id,
        _ => panic!("expected agent"),
    };
    assert_eq!(
        derive_handoff_summary(&app, source),
        "Session “New session” has no user prompts yet — coordinate with the source agent."
    );
    app.agents.get_mut(&source).unwrap().user_prompts.push("fix the parser".into());
    assert_eq!(derive_handoff_summary(&app, source), "Latest user request:\nfix the parser");
    assert_eq!(
        derive_handoff_summary(&app, 999),
        "Review the related task context and continue."
    );
}

#[test]
fn cycling_wraps_and_split_prefers_previous_tab() {
    let mut app = test_app_with_agent();
    let _ = dispatch(Action::NewSession, &mut app);
    let _ = dispatch(Action::NewSession, &mut app);
    let ids: Vec<u64> = app.agents.keys().copied().collect();
    assert_eq!(app.active_view, ActiveView::Agent(ids[2]));
    dispatch_next_agent_tab(&mut app);
    assert_eq!(app.active_view, ActiveView::Agent(ids[0]));
    dispatch_prev_agent_tab(&mut app);
    assert_eq!(app.active_view, ActiveView::Agent(ids[2]));
    let _ = dispatch_toggle_split(&mut app);
    assert_eq!(app.split_secondary, Some(ids[1]));
    assert_eq!(app.toast.as_deref(), Some("Split view on (Ctrl+Shift+S to exit)"));
    let _ = dispatch_toggle_split(&mut app);
    assert_eq!(app.toast.as_deref(), Some("Split view off"));
}

#[test]
fn soul_names_normalize_and_label() {
    assert_eq!(normalize_soul("  DeVeLoper\t"), "developer");
    assert_eq!(soul_display_name("developer"), "Developer");
    assert_eq!(soul_display_name("qa"), "QA");
    assert_eq!(soul_display_name("designer"), "designer");
}

#[test]
fn send_prompt_goes_to_focused_agent() {
    let mut app = AppView::new();
    assert!(dispatch(Action::SendPrompt("hi".into()), &mut app).is_empty());
    let _ = dispatch(Action::NewSession, &mut app);
    let effects = dispatch(Action::SendPrompt("hi".into()), &mut app);
    assert_eq!(effects.len(), 1);
    assert!(matches!(&effects[0], Effect::SendPrompt { prompt, .. } if prompt == "hi"));
}

#[test]
fn switch_model_targets_focused_agent() {
    let model_id_from_slug = |s: &str| agent_client_protocol::ModelId(std::sync::Arc::from(s));
    let mut app = AppView::new();
    let none = dispatch(
        Action::SwitchModel { model_id: model_id_from_slug("grok-4"), effort: None },
        &mut app,
    );
    assert!(none.is_empty());
    let _ = dispatch(Action::NewSession, &mut app);
    let effects = dispatch(
        Action::SwitchModel { model_id: model_id_from_slug("grok-4"), effort: Some(ReasoningEffort::High) },
        &mut app,
    );
    assert_eq!(effects.len(), 1);
    match &effects[0] {
        Effect::SwitchModel { model_id, effort, .. } => {
            assert_eq!(&*model_id.0, "grok-4");
            assert_eq!(*effort, Some(ReasoningEffort::High));
        }
        other => panic!("unexpected {other:?}"),
    }
}

#[test]
fn handoff_reads_raw_inputs_as_normalized() {
    let mut raw = test_app_with_agent();
    let mut clean = test_app_with_agent();
    let a = dispatch_handoff(&mut raw, " QA ", Some("   "));
    let b = dispatch_handoff(&mut clean, "qa", None);
    assert_eq!(a.len(), 2);
    assert_eq!(b.len(), 2);
    match (&a[0], &b[0]) {
        (
            Effect::CreateSession { agent_id: x, agent_profile: p },
            Effect::CreateSession { agent_id: y, agent_profile: q },
        ) => {
            assert_eq!(x, y);
            assert_eq!(p.as_deref(), Some("qa"));
            assert_eq!(p, q);
        }
        other => panic!("expected two create-session effects, got {other:?}"),
    }
    match (&a[1], &b[1]) {
        (Effect::SendPrompt { agent_id: x, prompt: p }, Effect::SendPrompt { agent_id: y, prompt: q }) => {
            assert_eq!(x, y);
            assert_eq!(p, q);
            assert!(p.contains("## Brief\nSession “New session” has no user prompts yet"));
        }
        other => panic!("expected two seed prompts, got {other:?}"),
    }
    assert_eq!(raw.toast, clean.toast);
    assert_eq!(raw.active_view, clean.active_view);
    assert_eq!(raw.split_secondary, clean.split_secondary);
    assert_eq!(raw.next_agent_id, clean.next_agent_id);
    assert_eq!(raw.agents.len(), clean.agents.len());
}

#[test]
fn new_app_starts_counting_at_one() {
    let app = AppView::new();
    assert_eq!(app.next_agent_id, 1);
    assert!(app.agents.is_empty());
}
