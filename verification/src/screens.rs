use vstd::prelude::*;
use crate::health::RunStats;

verus! {

/// Top-level game screen.
#[derive(Clone, Copy, Debug, PartialEq, Eq, Hash, Structural)]
pub enum Screen {
    Title,
    Gameplay,
    GameOver,
}

impl Default for Screen {
    fn default() -> (s: Screen)
        ensures
            s == Screen::Title,
    {
        Screen::Title
    }
}

/// The screen to switch to from the title screen: play starts the game.
pub fn title_next_screen(play_pressed: bool) -> (r: Option<Screen>)
    ensures
        r == (if play_pressed {
            Some(Screen::Gameplay)
        } else {
            None
        }),
{
    if play_pressed {
        Some(Screen::Gameplay)
    } else {
        None
    }
}

/// The screen to switch to from the game-over screen. Retry starts a new
/// run and title goes back to the title screen; when both are pressed in
/// the same frame the title button, handled last, wins.
pub fn gameover_next_screen(retry_pressed: bool, title_pressed: bool) -> (r: Option<Screen>)
    ensures
        r == (if title_pressed {
            Some(Screen::Title)
        } else if retry_pressed {
            Some(Screen::Gameplay)
        } else {
            None
        }),
{
    let mut next: Option<Screen> = None;
    if retry_pressed {
        next = Some(Screen::Gameplay);
    }
    if title_pressed {
        next = Some(Screen::Title);
    }
    next
}

/// What the game-over screen shows: the height reached, the enemies killed
/// and whether the height is a new best, or nothing achieved when no run
/// was recorded.
pub fn gameover_summary(stats: Option<RunStats>) -> (r: (i32, u32, bool))
    ensures
        r == (match stats {
            Some(s) => (s.height_meters, s.enemies_killed, s.is_new_best),
            None => (0i32, 0u32, false),
        }),
{
    match stats {
        Some(s) => (s.height_meters, s.enemies_killed, s.is_new_best),
        None => (0, 0, false),
    }
}

} // verus!
