//! The hierarchical state machine: a top-level phase plus one nested
//! sub-state per phase. A sub-state exists only while its owning phase is
//! current; leaving the phase discards it and re-entering re-initializes it
//! to its default.

use vstd::prelude::*;

verus! {

/// Top-level application phase; exactly one is current at any time.
#[derive(Copy, Clone, Eq, PartialEq, Hash, Debug, Structural)]
pub enum GameState {
    Loading,
    MainMenu,
    InGame,
    Closing,
}

impl Default for GameState {
    fn default() -> (r: Self)
        ensures
            r == GameState::Loading,
    {
        GameState::Loading
    }
}

/// Sub-state nested under the main-menu phase.
#[derive(Copy, Clone, Eq, PartialEq, Hash, Debug, Structural)]
pub enum MenuPage {
    TitleScreen,
    SettingsPage,
    FileSelect,
    Credits,
}

impl Default for MenuPage {
    fn default() -> (r: Self)
        ensures
            r == MenuPage::TitleScreen,
    {
        MenuPage::TitleScreen
    }
}

/// Why gameplay is paused.
#[derive(Copy, Clone, Eq, PartialEq, Hash, Debug, Structural)]
pub enum PauseReason {
    PauseMenu,
    Unfocused,
    InCutscene,
    InInventory,
}

/// Sub-state nested under the in-game phase.
#[derive(Copy, Clone, Eq, PartialEq, Hash, Debug, Structural)]
pub enum PlayingState {
    Playing,
    Paused { reason: PauseReason },
}

impl Default for PlayingState {
    fn default() -> (r: Self)
        ensures
            r == PlayingState::Playing,
    {
        PlayingState::Playing
    }
}

/// The machine owning the current phase and, for the phases that declare
/// one, the current sub-state. A sub-state value is present exactly while
/// its owning phase is current.
#[derive(Copy, Clone, PartialEq, Eq, Debug, Structural)]
pub struct StateMachine {
    pub phase: GameState,
    pub menu_page: Option<MenuPage>,
    pub playing_state: Option<PlayingState>,
}

impl StateMachine {
    /// The nesting invariant: each sub-state is held exactly while its
    /// owning phase is current, so a reader that checks the phase can
    /// trust the sub-state it finds.
    pub open spec fn inv(self) -> bool {
        &&& self.menu_page is Some <==> self.phase == GameState::MainMenu
        &&& self.playing_state is Some <==> self.phase == GameState::InGame
    }

    /// The machine after a requested transition to `p`: a request for the
    /// current phase is skipped; otherwise the old phase's sub-state is
    /// discarded and the new phase's sub-state, if it declares one, is
    /// re-initialized to its default.
    pub open spec fn spec_transition(self, p: GameState) -> StateMachine {
        if p == self.phase {
            self
        } else {
            StateMachine {
                phase: p,
                menu_page: if p == GameState::MainMenu {
                    Some(MenuPage::TitleScreen)
                } else {
                    None
                },
                playing_state: if p == GameState::InGame {
                    Some(PlayingState::Playing)
                } else {
                    None
                },
            }
        }
    }

    /// The machine after a request to set the main-menu sub-state: honored
    /// while the main-menu phase is current, a no-op otherwise.
    pub open spec fn spec_set_menu_page(self, page: MenuPage) -> StateMachine {
        if self.phase == GameState::MainMenu {
            StateMachine { phase: self.phase, menu_page: Some(page), playing_state: self.playing_state }
        } else {
            self
        }
    }

    /// The machine after a request to set the in-game sub-state: honored
    /// while the in-game phase is current, a no-op otherwise.
    pub open spec fn spec_set_playing_state(self, s: PlayingState) -> StateMachine {
        if self.phase == GameState::InGame {
            StateMachine { phase: self.phase, menu_page: self.menu_page, playing_state: Some(s) }
        } else {
            self
        }
    }

    /// The initial machine: the default phase with no sub-state held.
    pub fn new() -> (r: StateMachine)
        ensures
            r.inv(),
            r.phase == GameState::Loading,
            r.menu_page is None,
            r.playing_state is None,
    {
        StateMachine { phase: GameState::Loading, menu_page: None, playing_state: None }
    }

    /// Requests a transition of the top-level phase. Transitions are the
    /// only way the phase changes; the old phase's sub-state is torn down
    /// and the new phase's sub-state starts over at its default.
    pub fn set_phase(&mut self, p: GameState)
        ensures
            *final(self) == old(self).spec_transition(p),
            old(self).inv() ==> final(self).inv(),
    {
        if p != self.phase {
            self.phase = p;
            self.menu_page = if p == GameState::MainMenu {
                Some(MenuPage::TitleScreen)
            } else {
                None
            };
            self.playing_state = if p == GameState::InGame {
                Some(PlayingState::Playing)
            } else {
                None
            };
        }
    }

    /// Requests a main-menu sub-state. Against any other phase the request
    /// is a no-op, never an error.
    pub fn set_menu_page(&mut self, page: MenuPage)
        ensures
            *final(self) == old(self).spec_set_menu_page(page),
            old(self).inv() ==> final(self).inv(),
    {
        if self.phase == GameState::MainMenu {
            self.menu_page = Some(page);
        }
    }

    /// Requests an in-game sub-state. Against any other phase the request
    /// is a no-op, never an error.
    pub fn set_playing_state(&mut self, s: PlayingState)
        ensures
            *final(self) == old(self).spec_set_playing_state(s),
            old(self).inv() ==> final(self).inv(),
    {
        if self.phase == GameState::InGame {
            self.playing_state = Some(s);
        }
    }

    /// The current phase.
    pub fn current_phase(&self) -> (r: GameState)
        ensures
            r == self.phase,
    {
        self.phase
    }

    /// The current main-menu sub-state: absent whenever the main-menu
    /// phase is not current.
    pub fn current_menu_page(&self) -> (r: Option<MenuPage>)
        ensures
            r == self.menu_page,
            self.inv() ==> (r is Some <==> self.phase == GameState::MainMenu),
    {
        self.menu_page
    }

    /// The current in-game sub-state: absent whenever the in-game phase is
    /// not current.
    pub fn current_playing_state(&self) -> (r: Option<PlayingState>)
        ensures
            r == self.playing_state,
            self.inv() ==> (r is Some <==> self.phase == GameState::InGame),
    {
        self.playing_state
    }
}

/// Law: leaving a phase resets its sub-state. Transitioning away from the
/// in-game phase, whatever in-game sub-state was held, and then back into
/// it yields the default sub-state, not the one held before.
pub proof fn lemma_reentry_resets(m: StateMachine, away: GameState)
    requires
        m.phase == GameState::InGame,
        away != GameState::InGame,
    ensures
        m.spec_transition(away).playing_state is None,
        m.spec_transition(away).spec_transition(GameState::InGame).playing_state == Some(
            PlayingState::Playing,
        ),
{
}

} // verus!
