use grok_arch::pet::{format_pet_chrome, format_pet_sprite, next_pet_state, pet_state_from_agent, PetState};

#[test]
fn idle_to_working_to_happy_to_idle() {
    let mut s = PetState::Idle;
    s = next_pet_state(s, true, false);
    assert_eq!(s, PetState::Working);
    s = next_pet_state(s, false, true);
    assert_eq!(s, PetState::Happy);
    s = next_pet_state(s, false, false);
    assert_eq!(s, PetState::Idle);
}

#[test]
fn working_beats_happy_flag() {
    assert_eq!(pet_state_from_agent(true, true), PetState::Working);
}

#[test]
fn chrome_is_glyph_only() {
    assert_eq!(format_pet_chrome(PetState::Idle), PetState::Idle.glyph());
    assert!(!format_pet_chrome(PetState::Idle).contains("angel"));
}

#[test]
fn sprite_matches_welcome_wing_style() {
    for s in [PetState::Idle, PetState::Working, PetState::Happy] {
        let rows = s.sprite();
        assert_eq!(rows.len(), PetState::BAND_HEIGHT as usize, "{s:?}");
        // Braille present (same family as welcome logo)
        assert!(
            rows.iter().any(|r| r.chars().any(|c| ('\u{2800}'..='\u{28ff}').contains(&c))),
            "{s:?} missing braille"
        );
        // Wing pair: both left and right density
        let mid = rows[4];
        assert!(mid.contains('⣿') || mid.contains('⣷'), "dense mid wing: {mid}");
    }
}

#[test]
fn glyphs_differ_by_state() {
    assert_ne!(PetState::Idle.glyph(), PetState::Working.glyph());
    assert_ne!(PetState::Idle.glyph(), PetState::Happy.glyph());
}

#[test]
fn next_state_does_not_depend_on_previous() {
    for prev in [PetState::Idle, PetState::Working, PetState::Happy] {
        for run in [false, true] {
            for ended in [false, true] {
                assert_eq!(next_pet_state(prev, run, ended), pet_state_from_agent(run, ended));
            }
        }
    }
}

#[test]
fn sprite_text_joins_rows_with_newlines() {
    let text = format_pet_sprite(PetState::Happy);
    let rows = PetState::Happy.sprite();
    assert_eq!(text, rows.join("\n"));
    assert_eq!(text.matches('\n').count(), PetState::BAND_HEIGHT as usize - 1);
    assert_eq!(PetState::Happy.as_str(), "happy");
    assert_eq!(PetState::Working.label(), "");
}

#[test]
fn sprite_text_splits_back_into_rows() {
    for state in [PetState::Idle, PetState::Working, PetState::Happy] {
        let text = format_pet_sprite(state);
        let rows: Vec<&str> = text.split('\n').collect();
        assert_eq!(rows, state.sprite().to_vec());
        assert_eq!(rows.len(), PetState::BAND_HEIGHT as usize);
    }
}
