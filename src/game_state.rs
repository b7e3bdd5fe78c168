//! Top-level game states and the decisions that move between them.
use vstd::prelude::*;

verus! {

/// Directory of the game's assets.
pub const ASSET_DIR: &'static str = "asset";

#[derive(Clone, Copy, Debug, PartialEq, Eq, Structural)]
pub enum CoreGameState {
    PrimaryLoad,
    Hub,
    LoadCustomLevel,
    InGame,
}

impl CoreGameState {
    /// The state the game starts in.
    pub fn initial() -> (r: CoreGameState)
        ensures
            r == CoreGameState::PrimaryLoad,
    {
        CoreGameState::PrimaryLoad
    }
}

/// Actions bound to keys at the top level of the game.
#[derive(Clone, Copy, Debug, PartialEq, Eq, Structural)]
pub enum CoreAction {
    InGameMenu,
}

#[derive(Clone, Copy, Debug, PartialEq, Eq, Structural)]
pub enum KnownLevel {
    Hub,
}

/// How a level to load is named.
#[derive(Clone, Debug, PartialEq, Eq)]
pub enum LevelCode {
    /// A level file under the asset directory, named without extension.
    Path(String),
    /// A level to fetch from a URL.
    Url(String),
    /// A level built into the game.
    Known(KnownLevel),
}

#[derive(Clone, Copy, Debug, PartialEq, Eq, Structural)]
pub enum LevelError {
    /// The named level file does not exist.
    NotFound,
    /// Levels cannot be fetched from a URL.
    Unsupported,
}

/// The state a request to load `code` leads to; `level_file_exists` tells
/// whether the file of a `Path` level is present.
pub fn level_transition(code: &LevelCode, level_file_exists: bool) -> (r: Result<
    CoreGameState,
    LevelError,
>)
    ensures
        match code {
            LevelCode::Path(_) => r == if level_file_exists {
                Ok::<CoreGameState, LevelError>(CoreGameState::LoadCustomLevel)
            } else {
                Err::<CoreGameState, LevelError>(LevelError::NotFound)
            },
            LevelCode::Url(_) => r == Err::<CoreGameState, LevelError>(LevelError::Unsupported),
            LevelCode::Known(KnownLevel::Hub) => r == Ok::<CoreGameState, LevelError>(
                CoreGameState::Hub,
            ),
        },
{
    match code {
        LevelCode::Path(_) => if level_file_exists {
            Ok(CoreGameState::LoadCustomLevel)
        } else {
            Err(LevelError::NotFound)
        },
        LevelCode::Url(_) => Err(LevelError::Unsupported),
        LevelCode::Known(KnownLevel::Hub) => Ok(CoreGameState::Hub),
    }
}

#[derive(Clone, Copy, Debug, PartialEq, Eq, Structural)]
pub enum MapState {
    Menu,
    Arena,
}

impl MapState {
    /// The state's display name.
    pub fn name(&self) -> (r: &'static str)
        ensures
            *self == MapState::Menu ==> r@ == "Menu"@,
            *self == MapState::Arena ==> r@ == "Arena"@,
    {
        match self {
            MapState::Menu => "Menu",
            MapState::Arena => "Arena",
        }
    }
}

/// Whether the window captures the mouse.
#[derive(Clone, Copy, Debug, PartialEq, Eq, Structural)]
pub enum MouseGrabState {
    Enable,
    Disable,
}

impl MouseGrabState {
    /// Switches to the other state and returns the new one.
    pub fn toggle(&mut self) -> (r: MouseGrabState)
        ensures
            *old(self) == MouseGrabState::Enable ==> *final(self) == MouseGrabState::Disable,
            *old(self) == MouseGrabState::Disable ==> *final(self) == MouseGrabState::Enable,
            r == *final(self),
    {
        match self {
            MouseGrabState::Enable => *self = MouseGrabState::Disable,
            MouseGrabState::Disable => *self = MouseGrabState::Enable,
        }
        *self
    }
}

#[derive(Clone, Copy, Debug, PartialEq, Eq, Structural)]
pub enum UiState {
    Menu,
    GameMenu,
}

/// Installs the in-game menu binding.
#[derive(Clone, Copy, Debug, PartialEq, Eq, Structural)]
pub struct ControlsPlugins;

/// Installs the loading of custom levels.
#[derive(Clone, Copy, Debug, PartialEq, Eq, Structural)]
pub struct CustomPlugins;

} // verus!
