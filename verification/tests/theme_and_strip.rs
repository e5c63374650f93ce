use grok_arch::actions::Action;
use grok_arch::agents::AgentView;
use grok_arch::tab_strip::{
    short_title, strip_area, tab_label, tab_strip_entries, tab_strip_row, SegmentStyle, StripArea,
};
use grok_arch::tabs::{dispatch, ActiveView, AppView};
use grok_arch::theme::{Color, Theme};

#[test]
fn arch_theme_palette() {
    let t = Theme::arch();
    assert_eq!(t.bg_base, Color::Rgb(18, 20, 32));
    assert_eq!(t.accent_user, Color::Rgb(255, 219, 141));
    assert_eq!(t.prompt_border_active, Color::Rgb(232, 196, 120));
    assert_eq!(t.md_heading_h1_mod.bits, 1);
    assert_eq!(t.md_heading_h6_mod.bits, 0);
}

#[test]
fn tab_labels_are_capped() {
    let mut a = AgentView::new();
    a.title = "A very long session title indeed".into();
    assert_eq!(short_title(&a), "A very long sessi…");
    a.arch_soul = Some("qa".into());
    a.arch_related_to = Some(3);
    let label = tab_label(&a);
    assert_eq!(label.chars().count(), 22);
    assert_eq!(label, "qa:A very long sessi…↔");
    a.arch_soul = Some("developer".into());
    let label = tab_label(&a);
    assert_eq!(label.chars().count(), 24);
    assert_eq!(label, "developer:A very long s…");
    let mut b = AgentView::new();
    b.title = "short".into();
    assert_eq!(tab_label(&b), "short");
}

#[test]
fn strip_marks_the_focused_tab() {
    let mut app = AppView::new();
    let _ = dispatch(Action::NewSession, &mut app);
    let _ = dispatch(Action::NewSession, &mut app);
    let ActiveView::Agent(active) = app.active_view else { panic!("no focus") };
    let entries = tab_strip_entries(&app.agents, active);
    assert_eq!(entries.len(), 2);
    assert!(!entries[0].active && entries[1].active);
    assert_eq!(entries[0].text, "○ New session");
    assert_eq!(entries[1].text, "● New session");
}

#[test]
fn strip_row_has_prefix_separators_and_styles() {
    let mut app = AppView::new();
    let _ = dispatch(Action::NewSession, &mut app);
    let _ = dispatch(Action::NewSession, &mut app);
    let ActiveView::Agent(active) = app.active_view else { panic!("no focus") };
    let row = tab_strip_row(&app.agents, active);
    let texts: Vec<&str> = row.iter().map(|s| s.text.as_str()).collect();
    assert_eq!(texts, vec![" tabs ", "○ New session", " │ ", "● New session"]);
    let styles: Vec<SegmentStyle> = row.iter().map(|s| s.style).collect();
    assert_eq!(
        styles,
        vec![SegmentStyle::Dim, SegmentStyle::Inactive, SegmentStyle::Dim, SegmentStyle::Active]
    );
}

#[test]
fn strip_row_with_one_tab_has_no_separator() {
    let mut app = AppView::new();
    let _ = dispatch(Action::NewSession, &mut app);
    let row = tab_strip_row(&app.agents, 99);
    assert_eq!(row.len(), 2);
    assert_eq!(row[1].text, "○ New session");
    assert_eq!(row[1].style, SegmentStyle::Inactive);
}

#[test]
fn strip_area_takes_the_top_row() {
    let area = StripArea { x: 2, y: 3, width: 80, height: 20 };
    assert_eq!(strip_area(area, 2), StripArea { x: 2, y: 3, width: 80, height: 1 });
    let empty = StripArea { x: 0, y: 0, width: 0, height: 0 };
    assert_eq!(strip_area(area, 0), empty);
    assert_eq!(strip_area(StripArea { x: 1, y: 1, width: 0, height: 5 }, 3), empty);
    assert_eq!(strip_area(StripArea { x: 1, y: 1, width: 5, height: 0 }, 3), empty);
}
