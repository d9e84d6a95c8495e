use vstd::prelude::*;

verus! {

/// The screen the session is on. Exactly one is active.
#[derive(Clone, Copy, Debug, PartialEq, Eq, Structural)]
pub enum GameState {
    Main,
    Settings,
    Controls,
    Playing,
}

/// Whether play runs or stands still; meaningful while `GameState::Playing`.
#[derive(Clone, Copy, Debug, PartialEq, Eq, Structural)]
pub enum PausedState {
    Playing,
    Paused,
}

impl PausedState {
    pub open spec fn flipped(self) -> PausedState {
        match self {
            PausedState::Playing => PausedState::Paused,
            PausedState::Paused => PausedState::Playing,
        }
    }

    pub fn flip(&self) -> (r: PausedState)
        ensures
            r == self.flipped(),
    {
        match self {
            PausedState::Playing => PausedState::Paused,
            PausedState::Paused => PausedState::Playing,
        }
    }
}

/// The systems of the main menu run on the main screen.
pub struct MainSet;

/// The systems of the settings menu run on the settings screen.
pub struct SettingsSet;

/// The systems of the controls menu run on the controls screen.
pub struct ControlsSet;

/// The simulation runs while playing and not paused.
pub struct PlayingSet;

/// The pause menu runs while playing and paused.
pub struct PausedSet;

impl MainSet {
    pub fn runs_in(&self, mode: GameState, paused: PausedState) -> (r: bool)
        ensures
            r == (mode == GameState::Main),
    {
        mode == GameState::Main
    }
}

impl SettingsSet {
    pub fn runs_in(&self, mode: GameState, paused: PausedState) -> (r: bool)
        ensures
            r == (mode == GameState::Settings),
    {
        mode == GameState::Settings
    }
}

impl ControlsSet {
    pub fn runs_in(&self, mode: GameState, paused: PausedState) -> (r: bool)
        ensures
            r == (mode == GameState::Controls),
    {
        mode == GameState::Controls
    }
}

impl PlayingSet {
    pub fn runs_in(&self, mode: GameState, paused: PausedState) -> (r: bool)
        ensures
            r == (mode == GameState::Playing && paused == PausedState::Playing),
    {
        mode == GameState::Playing && paused == PausedState::Playing
    }
}

impl PausedSet {
    pub fn runs_in(&self, mode: GameState, paused: PausedState) -> (r: bool)
        ensures
            r == (mode == GameState::Playing && paused == PausedState::Paused),
    {
        mode == GameState::Playing && paused == PausedState::Paused
    }
}

} // verus!
