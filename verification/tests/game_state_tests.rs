use gunday::game_state::{handle_game_phase_requests, GamePhase, GameState};

#[test]
fn new_game_starts_entering_the_hangar() {
    assert_eq!(GamePhase::default(), GamePhase::HangarEntering);
    assert_eq!(GameState::default().phase(), GamePhase::HangarEntering);
}

#[test]
fn transition_reports_previous_phase() {
    let mut state = GameState::default();
    assert_eq!(state.transition_to(GamePhase::HangarFight), Some(GamePhase::HangarEntering));
    assert_eq!(state.phase(), GamePhase::HangarFight);
}

#[test]
fn repeated_request_is_noop() {
    let mut state = GameState::default();
    assert_eq!(state.transition_to(GamePhase::LabFight), Some(GamePhase::HangarEntering));
    assert_eq!(state.transition_to(GamePhase::LabFight), None);
    assert_eq!(state.phase(), GamePhase::LabFight);
}

#[test]
fn requests_announce_only_real_changes() {
    let mut state = GameState::default();
    let requests = vec![
        GamePhase::HangarEntering,
        GamePhase::HangarFight,
        GamePhase::HangarFight,
        GamePhase::MinibossFight,
        GamePhase::HangarFight,
    ];
    let changed = handle_game_phase_requests(&mut state, &requests);
    assert_eq!(
        changed,
        vec![GamePhase::HangarFight, GamePhase::MinibossFight, GamePhase::HangarFight]
    );
    assert_eq!(state.phase(), GamePhase::HangarFight);
}

#[test]
fn no_requests_change_nothing() {
    let mut state = GameState::default();
    let changed = handle_game_phase_requests(&mut state, &Vec::new());
    assert!(changed.is_empty());
    assert_eq!(state.phase(), GamePhase::HangarEntering);
}
