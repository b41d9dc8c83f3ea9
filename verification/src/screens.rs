//! The screens of the launcher.

use vstd::prelude::*;

verus! {

/// The screens of the launcher.
#[derive(Clone, Copy, Debug, PartialEq, Eq, Structural)]
pub enum GridStatus {
    GamesGrid,
    GlobalSettings,
    AddGame,
    GamesSettings,
    Logs,
}

/// The screen with the given number, counted from zero in the order of
/// their declaration; an error for a number that no screen has.
pub open spec fn screen_at(value: usize) -> Result<GridStatus, ()> {
    if value == 0 {
        Ok(GridStatus::GamesGrid)
    } else if value == 1 {
        Ok(GridStatus::GlobalSettings)
    } else if value == 2 {
        Ok(GridStatus::AddGame)
    } else if value == 3 {
        Ok(GridStatus::GamesSettings)
    } else if value == 4 {
        Ok(GridStatus::Logs)
    } else {
        Err(())
    }
}

impl vstd::std_specs::convert::TryFromSpecImpl<usize> for GridStatus {
    open spec fn obeys_try_from_spec() -> bool {
        true
    }

    open spec fn try_from_spec(value: usize) -> Result<Self, ()> {
        screen_at(value)
    }
}

impl TryFrom<usize> for GridStatus {
    type Error = ();

    /// The screen with the given number.
    fn try_from(value: usize) -> (r: Result<Self, ()>)
        ensures
            r == screen_at(value),
    {
        match value {
            0 => Ok(GridStatus::GamesGrid),
            1 => Ok(GridStatus::GlobalSettings),
            2 => Ok(GridStatus::AddGame),
            3 => Ok(GridStatus::GamesSettings),
            4 => Ok(GridStatus::Logs),
            _ => Err(()),
        }
    }
}

impl GridStatus {
    /// The number of the screen.
    pub fn index(self) -> (r: usize)
        ensures
            screen_at(r) == Ok::<GridStatus, ()>(self),
    {
        match self {
            GridStatus::GamesGrid => 0,
            GridStatus::GlobalSettings => 1,
            GridStatus::AddGame => 2,
            GridStatus::GamesSettings => 3,
            GridStatus::Logs => 4,
        }
    }

    /// How long to wait between two polls of the running games, in
    /// milliseconds: short while their output is on screen, long otherwise.
    pub fn poll_interval_ms(self) -> (r: u64)
        ensures
            r == (if self == GridStatus::Logs {
                17u64
            } else {
                1000u64
            }),
    {
        match self {
            GridStatus::Logs => 17,
            _ => 1000,
        }
    }
}

/// The colour scheme of the launcher.
#[derive(Debug, PartialEq, Eq, Clone, Copy, Structural)]
pub enum ThemeType {
    Light,
    Dark,
}

} // verus!
