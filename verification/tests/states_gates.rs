use gatecheck::debug::debug_display::{
    debug_display_cycle, manage_visibility1, DebugEntity, Visibility,
};
use gatecheck::debug::{
    install_debug_gates, initial_debug_mode, DebugConfig, DebugDisplaySystemSet, DebugEnabled,
    DebugMarker, DebugMode, ValidationSystemSet,
};
use gatecheck::gate::{GateRegistry, ScheduleLabel, SystemSetLabel};
use gatecheck::state::{GameState, MenuPage, PauseReason, PlayingState, StateMachine};

#[test]
fn machine_starts_in_loading_with_no_substates() {
    let machine = StateMachine::new();
    assert_eq!(machine.current_phase(), GameState::Loading);
    assert_eq!(machine.current_menu_page(), None);
    assert_eq!(machine.current_playing_state(), None);
}

#[test]
fn entering_a_phase_initializes_its_substate_default() {
    let mut machine = StateMachine::new();
    machine.set_phase(GameState::MainMenu);
    assert_eq!(machine.current_menu_page(), Some(MenuPage::TitleScreen));
    assert_eq!(machine.current_playing_state(), None);
    machine.set_phase(GameState::InGame);
    assert_eq!(machine.current_menu_page(), None);
    assert_eq!(machine.current_playing_state(), Some(PlayingState::Playing));
}

#[test]
fn reentering_ingame_resets_paused_substate() {
    let mut machine = StateMachine::new();
    machine.set_phase(GameState::InGame);
    machine.set_playing_state(PlayingState::Paused { reason: PauseReason::InCutscene });
    assert_eq!(
        machine.current_playing_state(),
        Some(PlayingState::Paused { reason: PauseReason::InCutscene })
    );
    machine.set_phase(GameState::MainMenu);
    assert_eq!(machine.current_playing_state(), None);
    machine.set_phase(GameState::InGame);
    assert_eq!(machine.current_playing_state(), Some(PlayingState::Playing));
}

#[test]
fn reentering_main_menu_resets_menu_page() {
    let mut machine = StateMachine::new();
    machine.set_phase(GameState::MainMenu);
    machine.set_menu_page(MenuPage::SettingsPage);
    machine.set_phase(GameState::Closing);
    machine.set_phase(GameState::MainMenu);
    assert_eq!(machine.current_menu_page(), Some(MenuPage::TitleScreen));
}

#[test]
fn substate_request_against_wrong_phase_is_a_no_op() {
    let mut machine = StateMachine::new();
    machine.set_menu_page(MenuPage::Credits);
    assert_eq!(machine.current_menu_page(), None);
    machine.set_playing_state(PlayingState::Paused { reason: PauseReason::Unfocused });
    assert_eq!(machine.current_playing_state(), None);
    assert_eq!(machine.current_phase(), GameState::Loading);
}

#[test]
fn transition_to_current_phase_keeps_substate() {
    let mut machine = StateMachine::new();
    machine.set_phase(GameState::MainMenu);
    machine.set_menu_page(MenuPage::FileSelect);
    machine.set_phase(GameState::MainMenu);
    assert_eq!(machine.current_menu_page(), Some(MenuPage::FileSelect));
}

#[test]
fn stated_gate_runs_iff_phase_matches() {
    let mut registry = GateRegistry::new();
    registry.configure_stated_system_set(SystemSetLabel::LoadSet, GameState::Loading);
    let config = DebugConfig { debugging: false };
    let mut machine = StateMachine::new();
    // First cycle: the default phase is Loading, so gating is open in
    // both scheduling phases it was registered under.
    assert!(registry.set_runs(SystemSetLabel::LoadSet, ScheduleLabel::Update, &machine, &config));
    assert!(registry.set_runs(
        SystemSetLabel::LoadSet,
        ScheduleLabel::FixedUpdate,
        &machine,
        &config
    ));
    // Not registered under PostUpdate at all.
    assert!(!registry.set_runs(
        SystemSetLabel::LoadSet,
        ScheduleLabel::PostUpdate,
        &machine,
        &config
    ));
    // Any cycle with another phase skips the group entirely.
    machine.set_phase(GameState::InGame);
    assert!(!registry.set_runs(SystemSetLabel::LoadSet, ScheduleLabel::Update, &machine, &config));
    // The very first cycle after transitioning back is eligible again.
    machine.set_phase(GameState::Loading);
    assert!(registry.set_runs(SystemSetLabel::LoadSet, ScheduleLabel::Update, &machine, &config));
}

#[test]
fn unregistered_group_never_runs() {
    let registry = GateRegistry::new();
    let config = DebugConfig { debugging: true };
    let machine = StateMachine::new();
    assert!(!registry.set_runs(SystemSetLabel::GameSet, ScheduleLabel::Update, &machine, &config));
}

#[test]
fn debug_gates_follow_build_flag() {
    let mut registry = GateRegistry::new();
    install_debug_gates(&mut registry);
    let machine = StateMachine::new();
    let on = DebugConfig { debugging: true };
    let off = DebugConfig { debugging: false };
    assert!(registry.set_runs(SystemSetLabel::ValidationSet, ScheduleLabel::PostUpdate, &machine, &on));
    assert!(registry.set_runs(SystemSetLabel::DebugDisplaySet, ScheduleLabel::Update, &machine, &on));
    assert!(!registry.set_runs(SystemSetLabel::ValidationSet, ScheduleLabel::PostUpdate, &machine, &off));
    assert!(!registry.set_runs(SystemSetLabel::DebugDisplaySet, ScheduleLabel::Update, &machine, &off));
    // The groups are only registered under their own scheduling phases.
    assert!(!registry.set_runs(SystemSetLabel::ValidationSet, ScheduleLabel::Update, &machine, &on));
    let _ = ValidationSystemSet.label();
    let _ = DebugDisplaySystemSet.label();
}

#[test]
fn toggler_mirrors_flag_onto_marked_entities() {
    let mut entities = vec![
        DebugEntity {
            marker: Some(DebugMarker),
            enabled: Some(DebugEnabled(true)),
            visibility: Visibility::Hidden,
        },
        DebugEntity {
            marker: Some(DebugMarker),
            enabled: Some(DebugEnabled(false)),
            visibility: Visibility::Visible,
        },
        DebugEntity {
            marker: Some(DebugMarker),
            enabled: None,
            visibility: Visibility::Inherited,
        },
        DebugEntity {
            marker: None,
            enabled: Some(DebugEnabled(true)),
            visibility: Visibility::Inherited,
        },
    ];
    manage_visibility1(&mut entities);
    assert_eq!(entities[0].visibility, Visibility::Visible);
    assert_eq!(entities[1].visibility, Visibility::Hidden);
    assert_eq!(entities[2].visibility, Visibility::Hidden);
    // Entities lacking the marker are untouched.
    assert_eq!(entities[3].visibility, Visibility::Inherited);
}

#[test]
fn toggler_never_runs_with_debugging_disabled() {
    let config = DebugConfig { debugging: false };
    let mode = initial_debug_mode(&config);
    assert_eq!(mode, DebugMode(false));
    let before = vec![
        DebugEntity {
            marker: Some(DebugMarker),
            enabled: Some(DebugEnabled(true)),
            visibility: Visibility::Hidden,
        },
        DebugEntity {
            marker: Some(DebugMarker),
            enabled: Some(DebugEnabled(false)),
            visibility: Visibility::Visible,
        },
    ];
    let mut entities = before.clone();
    debug_display_cycle(mode, &mut entities);
    // Entities keep whatever visibility they last had.
    assert_eq!(entities, before);
}

#[test]
fn toggler_runs_with_debugging_enabled() {
    let config = DebugConfig { debugging: true };
    let mode = initial_debug_mode(&config);
    assert_eq!(mode, DebugMode(true));
    let mut entities = vec![DebugEntity {
        marker: Some(DebugMarker),
        enabled: Some(DebugEnabled(true)),
        visibility: Visibility::Hidden,
    }];
    debug_display_cycle(mode, &mut entities);
    assert_eq!(entities[0].visibility, Visibility::Visible);
}
