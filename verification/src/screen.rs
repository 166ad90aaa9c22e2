//! Screens of the game and the states computed from them.
use vstd::prelude::*;

verus! {

/// What the pause menu shows.
#[derive(Clone, Copy, Debug, PartialEq, Eq, Structural)]
pub enum PauseState {
    Pause,
    Settings,
}

/// What the main menu shows.
#[derive(Clone, Copy, Debug, PartialEq, Eq, Structural)]
pub enum MainMenuState {
    Title,
    Settings,
    Credits,
}

/// The screen shown; during gameplay, the pause menu it shows, if any.
#[derive(Clone, Copy, Debug, PartialEq, Eq, Structural)]
pub enum Screen {
    Splash,
    MainMenu(MainMenuState),
    Loading,
    Gameplay { pause: Option<PauseState> },
}

impl Default for Screen {
    fn default() -> (r: Self)
        ensures
            r == Screen::Splash,
    {
        Screen::Splash
    }
}

impl Screen {
    pub fn title() -> (r: Screen)
        ensures
            r == Screen::MainMenu(MainMenuState::Title),
    {
        Screen::MainMenu(MainMenuState::Title)
    }

    pub fn playing() -> (r: Screen)
        ensures
            r == (Screen::Gameplay { pause: None }),
    {
        Screen::Gameplay { pause: None }
    }

    pub fn paused() -> (r: Screen)
        ensures
            r == (Screen::Gameplay { pause: Some(PauseState::Pause) }),
    {
        Screen::Gameplay { pause: Some(PauseState::Pause) }
    }
}

/// The state that holds during gameplay, paused or not.
#[derive(Clone, Copy, Debug, PartialEq, Eq, Structural)]
pub struct Gameplay;

/// The state that holds while gameplay is paused.
#[derive(Clone, Copy, Debug, PartialEq, Eq, Structural)]
pub struct Paused;

/// The state that holds while gameplay runs.
#[derive(Clone, Copy, Debug, PartialEq, Eq, Structural)]
pub struct Playing;

impl Gameplay {
    pub fn compute(screen: Screen) -> (r: Option<Gameplay>)
        ensures
            r is Some <==> screen is Gameplay,
    {
        match screen {
            Screen::Gameplay { .. } => Some(Gameplay),
            _ => None,
        }
    }
}

impl Paused {
    pub fn compute(screen: Screen) -> (r: Option<Paused>)
        ensures
            r is Some <==> (screen matches Screen::Gameplay { pause } && pause is Some),
    {
        match screen {
            Screen::Gameplay { pause: Some(_) } => Some(Paused),
            _ => None,
        }
    }
}

impl Playing {
    pub fn compute(screen: Screen) -> (r: Option<Playing>)
        ensures
            r is Some <==> (screen matches Screen::Gameplay { pause } && pause is None),
    {
        match screen {
            Screen::Gameplay { pause: None } => Some(Playing),
            _ => None,
        }
    }
}

/// During gameplay the game is either paused or playing, never both; outside gameplay it is
/// neither.
pub proof fn lemma_paused_or_playing(screen: Screen)
    ensures
        (screen is Gameplay) <==> ((screen matches Screen::Gameplay { pause } && pause is Some)
            || (screen matches Screen::Gameplay { pause } && pause is None)),
        !((screen matches Screen::Gameplay { pause } && pause is Some) && (screen matches Screen::Gameplay { pause } && pause is None)),
{
}

/// The screen the settings menu goes back to: the title from a main menu page, the pause menu
/// from gameplay; `None` where there is nothing to go back to.
pub fn go_back(screen: Screen) -> (r: Option<Screen>)
    ensures
        r == (match screen {
            Screen::MainMenu(s) => if s != MainMenuState::Title {
                Some(Screen::MainMenu(MainMenuState::Title))
            } else {
                None
            },
            Screen::Gameplay { pause: Some(_) } => Some(Screen::Gameplay { pause: Some(PauseState::Pause) }),
            _ => None,
        }),
{
    match screen {
        Screen::MainMenu(main_menu_state) => if main_menu_state != MainMenuState::Title {
            Some(Screen::title())
        } else {
            None
        },
        Screen::Gameplay { pause: Some(_) } => Some(Screen::paused()),
        _ => None,
    }
}

} // verus!
