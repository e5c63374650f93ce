//! Arch theme: deep indigo night with gold halo accents.
//!
//! Survives 256-color quantization better than pure blue palettes by keeping
//! near-neutral backgrounds with saturated gold/violet accents. Colors are
//! 24-bit RGB; the renderer turns them into terminal colors.

use vstd::prelude::*;

verus! {

/// A 24-bit terminal color.
#[derive(Debug, Clone, Copy, PartialEq, Eq, Structural)]
pub enum Color {
    Rgb(u8, u8, u8),
}

/// Text modifiers as terminal attribute bits (bold is bit 0).
#[derive(Debug, Clone, Copy, PartialEq, Eq, Structural)]
pub struct Modifier {
    pub bits: u16,
}

/// The bold modifier.
pub open spec fn bold() -> Modifier {
    Modifier { bits: 1 }
}

/// No modifier.
pub open spec fn plain() -> Modifier {
    Modifier { bits: 0 }
}

impl Modifier {
    pub fn bold() -> (m: Modifier)
        ensures
            m == bold(),
    {
        Modifier { bits: 1 }
    }

    pub fn empty() -> (m: Modifier)
        ensures
            m == plain(),
    {
        Modifier { bits: 0 }
    }
}

/// Colors and modifiers of every themed surface of the pager.
#[derive(Debug, Clone, Copy, PartialEq, Eq)]
pub struct Theme {
    pub bg_base: Color,
    pub bg_light: Color,
    pub bg_dark: Color,
    pub bg_highlight: Color,
    pub bg_hover: Color,
    pub bg_terminal: Color,
    pub accent_user: Color,
    pub accent_assistant: Color,
    pub accent_thinking: Color,
    pub accent_tool: Color,
    pub accent_system: Color,
    pub accent_error: Color,
    pub accent_success: Color,
    pub accent_running: Color,
    pub accent_skill: Color,
    pub text_primary: Color,
    pub text_secondary: Color,
    pub gray_dim: Color,
    pub gray: Color,
    pub gray_bright: Color,
    pub command: Color,
    pub path: Color,
    pub running: Color,
    pub warning: Color,
    pub fuzzy_accent: Color,
    pub accent_plan: Color,
    pub accent_verify: Color,
    pub accent_feedback: Color,
    pub accent_remember: Color,
    pub selection_border: Color,
    pub prompt_border: Color,
    pub prompt_border_active: Color,
    pub hover_border: Color,
    pub accent_model: Color,
    pub scrollbar_bg: Color,
    pub scrollbar_fg: Color,
    pub diff_delete_bg: Color,
    pub diff_delete_fg: Color,
    pub diff_insert_bg: Color,
    pub diff_insert_fg: Color,
    pub diff_equal_fg: Color,
    pub diff_gutter_fg: Color,
    pub bg_visual: Color,
    pub paste_bg: Color,
    pub paste_fg: Color,
    pub paste_dim: Color,
    pub md_heading_h1: Color,
    pub md_heading_h1_mod: Modifier,
    pub md_heading_h2: Color,
    pub md_heading_h2_mod: Modifier,
    pub md_heading_h3: Color,
    pub md_heading_h3_mod: Modifier,
    pub md_heading_h4: Color,
    pub md_heading_h4_mod: Modifier,
    pub md_heading_h5: Color,
    pub md_heading_h5_mod: Modifier,
    pub md_heading_h6: Color,
    pub md_heading_h6_mod: Modifier,
    pub md_code: Color,
    pub md_task_checked: Color,
    pub md_task_unchecked: Color,
    pub md_muted: Color,
    pub md_code_bg: Color,
    pub md_text: Color,
    pub link_fg: Color,
}

impl Theme {
    /// Arch product theme: indigo night + gold accents.
    pub fn arch() -> (t: Theme)
        ensures
            t.bg_base == Color::Rgb(18, 20, 32),
            t.bg_light == Color::Rgb(32, 36, 54),
            t.bg_dark == Color::Rgb(24, 26, 40),
            t.bg_highlight == Color::Rgb(32, 36, 54),
            t.bg_hover == Color::Rgb(40, 44, 66),
            t.bg_terminal == Color::Rgb(12, 14, 22),
            t.accent_user == Color::Rgb(255, 219, 141),
            t.accent_assistant == Color::Rgb(170, 140, 255),
            t.accent_thinking == Color::Rgb(120, 100, 200),
            t.accent_tool == Color::Rgb(150, 148, 180),
            t.accent_system == Color::Rgb(120, 210, 230),
            t.accent_error == Color::Rgb(240, 120, 140),
            t.accent_success == Color::Rgb(140, 210, 160),
            t.accent_running == Color::Rgb(232, 196, 120),
            t.accent_skill == Color::Rgb(170, 140, 255),
            t.text_primary == Color::Rgb(236, 232, 248),
            t.text_secondary == Color::Rgb(180, 176, 210),
            t.gray_dim == Color::Rgb(70, 72, 96),
            t.gray == Color::Rgb(110, 112, 140),
            t.gray_bright == Color::Rgb(150, 148, 180),
            t.command == Color::Rgb(232, 196, 120),
            t.path == Color::Rgb(240, 170, 110),
            t.running == Color::Rgb(120, 210, 230),
            t.warning == Color::Rgb(255, 219, 141),
            t.fuzzy_accent == Color::Rgb(170, 140, 255),
            t.accent_plan == Color::Rgb(255, 219, 141),
            t.accent_verify == Color::Rgb(170, 140, 255),
            t.accent_feedback == Color::Rgb(90, 200, 180),
            t.accent_remember == Color::Rgb(140, 210, 160),
            t.selection_border == Color::Rgb(70, 72, 100),
            t.prompt_border == Color::Rgb(50, 52, 74),
            t.prompt_border_active == Color::Rgb(232, 196, 120),
            t.hover_border == Color::Rgb(36, 38, 56),
            t.accent_model == Color::Rgb(90, 200, 180),
            t.scrollbar_bg == Color::Rgb(10, 12, 18),
            t.scrollbar_fg == Color::Rgb(32, 36, 54),
            t.diff_delete_bg == Color::Rgb(50, 16, 28),
            t.diff_delete_fg == Color::Rgb(240, 120, 140),
            t.diff_insert_bg == Color::Rgb(12, 42, 28),
            t.diff_insert_fg == Color::Rgb(140, 210, 160),
            t.diff_equal_fg == Color::Rgb(110, 112, 140),
            t.diff_gutter_fg == Color::Rgb(110, 112, 140),
            t.bg_visual == Color::Rgb(48, 50, 72),
            t.paste_bg == Color::Rgb(10, 12, 18),
            t.paste_fg == Color::Rgb(180, 176, 210),
            t.paste_dim == Color::Rgb(70, 72, 96),
            t.md_heading_h1 == Color::Rgb(232, 196, 120),
            t.md_heading_h1_mod == bold(),
            t.md_heading_h2 == Color::Rgb(170, 140, 255),
            t.md_heading_h2_mod == bold(),
            t.md_heading_h3 == Color::Rgb(120, 210, 230),
            t.md_heading_h3_mod == bold(),
            t.md_heading_h4 == Color::Rgb(150, 148, 180),
            t.md_heading_h4_mod == bold(),
            t.md_heading_h5 == Color::Rgb(110, 112, 140),
            t.md_heading_h5_mod == bold(),
            t.md_heading_h6 == Color::Rgb(70, 72, 96),
            t.md_heading_h6_mod == plain(),
            t.md_code == Color::Rgb(120, 210, 230),
            t.md_task_checked == Color::Rgb(140, 210, 160),
            t.md_task_unchecked == Color::Rgb(180, 176, 210),
            t.md_muted == Color::Rgb(110, 112, 140),
            t.md_code_bg == Color::Rgb(24, 26, 40),
            t.md_text == Color::Rgb(180, 176, 210),
            t.link_fg == Color::Rgb(120, 210, 230),
    {
        Theme {
            bg_base: Color::Rgb(18, 20, 32), // BG_BASE
            bg_light: Color::Rgb(32, 36, 54), // BG_HIGHLIGHT
            bg_dark: Color::Rgb(24, 26, 40),
            bg_highlight: Color::Rgb(32, 36, 54), // BG_HIGHLIGHT
            bg_hover: Color::Rgb(40, 44, 66), // BG_HOVER
            bg_terminal: Color::Rgb(12, 14, 22), // BG
            accent_user: Color::Rgb(255, 219, 141), // GOLD_SOFT
            accent_assistant: Color::Rgb(170, 140, 255), // VIOLET
            accent_thinking: Color::Rgb(120, 100, 200), // VIOLET_DIM
            accent_tool: Color::Rgb(150, 148, 180), // GRAY_BRIGHT
            accent_system: Color::Rgb(120, 210, 230), // CYAN
            accent_error: Color::Rgb(240, 120, 140), // RED
            accent_success: Color::Rgb(140, 210, 160), // GREEN
            accent_running: Color::Rgb(232, 196, 120), // GOLD
            accent_skill: Color::Rgb(170, 140, 255), // VIOLET
            text_primary: Color::Rgb(236, 232, 248), // FG
            text_secondary: Color::Rgb(180, 176, 210), // FG_DIM
            gray_dim: Color::Rgb(70, 72, 96), // GRAY_DIM
            gray: Color::Rgb(110, 112, 140), // GRAY
            gray_bright: Color::Rgb(150, 148, 180), // GRAY_BRIGHT
            command: Color::Rgb(232, 196, 120), // GOLD
            path: Color::Rgb(240, 170, 110), // ORANGE
            running: Color::Rgb(120, 210, 230), // CYAN
            warning: Color::Rgb(255, 219, 141), // GOLD_SOFT
            fuzzy_accent: Color::Rgb(170, 140, 255), // VIOLET
            accent_plan: Color::Rgb(255, 219, 141), // GOLD_SOFT
            accent_verify: Color::Rgb(170, 140, 255), // VIOLET
            accent_feedback: Color::Rgb(90, 200, 180), // TEAL
            accent_remember: Color::Rgb(140, 210, 160), // GREEN
            selection_border: Color::Rgb(70, 72, 100),
            prompt_border: Color::Rgb(50, 52, 74),
            prompt_border_active: Color::Rgb(232, 196, 120), // GOLD
            hover_border: Color::Rgb(36, 38, 56),
            accent_model: Color::Rgb(90, 200, 180), // TEAL
            scrollbar_bg: Color::Rgb(10, 12, 18), // BG_DARK
            scrollbar_fg: Color::Rgb(32, 36, 54), // BG_HIGHLIGHT
            diff_delete_bg: Color::Rgb(50, 16, 28), // RED_DARK
            diff_delete_fg: Color::Rgb(240, 120, 140), // RED
            diff_insert_bg: Color::Rgb(12, 42, 28), // GREEN_DARK
            diff_insert_fg: Color::Rgb(140, 210, 160), // GREEN
            diff_equal_fg: Color::Rgb(110, 112, 140), // GRAY
            diff_gutter_fg: Color::Rgb(110, 112, 140), // GRAY
            bg_visual: Color::Rgb(48, 50, 72),
            paste_bg: Color::Rgb(10, 12, 18), // BG_DARK
            paste_fg: Color::Rgb(180, 176, 210), // FG_DIM
            paste_dim: Color::Rgb(70, 72, 96), // GRAY_DIM
            md_heading_h1: Color::Rgb(232, 196, 120), // GOLD
            md_heading_h1_mod: Modifier::bold(),
            md_heading_h2: Color::Rgb(170, 140, 255), // VIOLET
            md_heading_h2_mod: Modifier::bold(),
            md_heading_h3: Color::Rgb(120, 210, 230), // CYAN
            md_heading_h3_mod: Modifier::bold(),
            md_heading_h4: Color::Rgb(150, 148, 180), // GRAY_BRIGHT
            md_heading_h4_mod: Modifier::bold(),
            md_heading_h5: Color::Rgb(110, 112, 140), // GRAY
            md_heading_h5_mod: Modifier::bold(),
            md_heading_h6: Color::Rgb(70, 72, 96), // GRAY_DIM
            md_heading_h6_mod: Modifier::empty(),
            md_code: Color::Rgb(120, 210, 230), // CYAN
            md_task_checked: Color::Rgb(140, 210, 160), // GREEN
            md_task_unchecked: Color::Rgb(180, 176, 210), // FG_DIM
            md_muted: Color::Rgb(110, 112, 140), // GRAY
            md_code_bg: Color::Rgb(24, 26, 40),
            md_text: Color::Rgb(180, 176, 210), // FG_DIM
            link_fg: Color::Rgb(120, 210, 230), // CYAN
        }
    }
}

} // verus!
