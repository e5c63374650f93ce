use grok_arch::model_router::{route, route_auto, ModelMode, ModelProfile, ReasoningChoice};

#[test]
fn auto_corpus_maps_expected_profiles() {
    let cases: &[(&str, ModelProfile)] = &[
        ("fix the lint error in main.rs", ModelProfile::Fast),
        ("quick rename foo to bar", ModelProfile::Fast),
        ("implement the login form", ModelProfile::Balanced),
        ("design a system for multi-tenant auth", ModelProfile::Deep),
        ("root cause the race in the worker", ModelProfile::Deep),
        ("look at this screenshot of the bug", ModelProfile::Vision),
        ("generate pixel art for the HUD", ModelProfile::Vision),
    ];
    for (prompt, expected) in cases {
        let d = route_auto(prompt);
        assert_eq!(d.profile, *expected, "prompt={prompt:?}");
        assert_eq!(d.model_slug, expected.model_slug());
        assert_eq!(d.reasoning, expected.default_reasoning());
    }
}

#[test]
fn profile_mode_ignores_prompt() {
    let d = route(&ModelMode::Profile(ModelProfile::Deep), "quick typo fix");
    assert_eq!(d.profile, ModelProfile::Deep);
    assert_eq!(d.mode, "profile");
    assert_eq!(d.model_slug, "grok-4");
    assert_eq!(d.reasoning, ReasoningChoice::High);
}

#[test]
fn exact_mode_wins_over_auto_heuristics() {
    let d = route(
        &ModelMode::Exact {
            model: "custom-slug-xyz".into(),
            reasoning: Some(ReasoningChoice::XHigh),
        },
        "look at this screenshot",
    );
    assert_eq!(d.mode, "exact");
    assert_eq!(d.model_slug, "custom-slug-xyz");
    assert_eq!(d.reasoning, ReasoningChoice::XHigh);
}

#[test]
fn auto_fallback_is_balanced() {
    let d = route(&ModelMode::Auto, "please help with the feature");
    assert_eq!(d.profile, ModelProfile::Balanced);
    assert_eq!(d.mode, "auto");
}

#[test]
fn parse_accepts_aliases_case_and_whitespace() {
    assert_eq!(ModelProfile::parse("  FAST "), Some(ModelProfile::Fast));
    assert_eq!(ModelProfile::parse("default"), Some(ModelProfile::Balanced));
    assert_eq!(ModelProfile::parse("Thinking"), Some(ModelProfile::Deep));
    assert_eq!(ModelProfile::parse("multimodal"), Some(ModelProfile::Vision));
    assert_eq!(ModelProfile::parse("image\n"), Some(ModelProfile::Vision));
    assert_eq!(ModelProfile::parse("turbo"), None);
    assert_eq!(ModelProfile::parse(""), None);
}

#[test]
fn profile_names_parse_back() {
    for p in [ModelProfile::Fast, ModelProfile::Balanced, ModelProfile::Deep, ModelProfile::Vision] {
        assert_eq!(ModelProfile::parse(p.as_str()), Some(p));
    }
}

#[test]
fn profile_table_values() {
    assert_eq!(ModelProfile::Fast.model_slug(), "grok-3-mini");
    assert_eq!(ModelProfile::Balanced.model_slug(), "grok-3");
    assert_eq!(ModelProfile::Vision.model_slug(), "grok-2-vision");
    assert_eq!(ModelProfile::Vision.default_reasoning(), ReasoningChoice::Low);
    assert_eq!(ModelProfile::Balanced.default_reasoning(), ReasoningChoice::Medium);
    assert_eq!(ReasoningChoice::XHigh.as_str(), "xhigh");
    assert_eq!(ReasoningChoice::Medium.as_str(), "medium");
    assert_eq!(ModelProfile::Deep.as_str(), "deep");
}

#[test]
fn exact_mode_derives_profile_and_reasoning_from_slug() {
    let d = route(&ModelMode::Exact { model: " Deep ".into(), reasoning: None }, "");
    assert_eq!(d.profile, ModelProfile::Deep);
    assert_eq!(d.model_slug, " Deep ");
    assert_eq!(d.reasoning, ReasoningChoice::High);
    let d = route(&ModelMode::Exact { model: "grok-9".into(), reasoning: None }, "");
    assert_eq!(d.profile, ModelProfile::Balanced);
    assert_eq!(d.reasoning, ReasoningChoice::Medium);
}

#[test]
fn auto_priorities_and_prefix_rule() {
    // vision beats deep beats fast
    assert_eq!(route_auto("quick root cause of the PNG").profile, ModelProfile::Vision);
    assert_eq!(route_auto("quick security audit").profile, ModelProfile::Deep);
    // "fix " only counts at the start
    assert_eq!(route_auto("Fix the build").profile, ModelProfile::Fast);
    assert_eq!(route_auto("please fix the build").profile, ModelProfile::Balanced);
    assert_eq!(route_auto("").profile, ModelProfile::Balanced);
}

#[test]
fn profile_names_parse_back_in_any_case() {
    for p in [ModelProfile::Fast, ModelProfile::Balanced, ModelProfile::Deep, ModelProfile::Vision] {
        assert_eq!(ModelProfile::parse(&p.as_str().to_ascii_uppercase()), Some(p));
    }
    assert_eq!(ModelProfile::parse("VISION"), Some(ModelProfile::Vision));
    assert_eq!(ModelProfile::parse(" Default "), Some(ModelProfile::Balanced));
    assert_eq!(ModelProfile::parse("DeEp"), Some(ModelProfile::Deep));
    assert_eq!(ModelProfile::parse("grok-4"), None);
}
