//! The shared application state and the delegate that applies commands.
//!
//! Background tasks never mutate the state directly: they send a command
//! carrying their result through a serialized channel, and the single
//! state owner applies it here. A failed task therefore surfaces its error
//! through its completion command instead of being swallowed, and the busy
//! flag clears either way.

use vstd::prelude::*;
use crate::error::Error;

verus! {

/// The state shared with the interactive layer.
pub struct State {
    /// The saved-games root, absent until one is configured or selected.
    pub saved_games_path: Option<String>,
    /// The archive root.
    pub archived_games_path: String,
    /// The known saved games, regenerated wholesale on every refresh.
    pub saved_games: Vec<String>,
    /// The known archive entries, regenerated wholesale on every refresh.
    pub archived_games: Vec<String>,
    /// The saved game the user points at, if any.
    pub selected_saved_game: Option<String>,
    /// The archive entry the user points at, if any.
    pub selected_archived_game: Option<String>,
    /// Whether an archive task is outstanding.
    pub archiving: bool,
    /// Whether a restore task is outstanding.
    pub restoring: bool,
}

/// A command delivered to the delegate over the serialized channel.
pub enum AppCommand {
    /// An archive task finished, carrying the archive name it produced or
    /// the error it failed with.
    FinishArchiving(Result<String, Error>),
    /// A restore task finished, carrying the game name it restored or the
    /// error it failed with.
    FinishRestoring(Result<String, Error>),
    /// The user selected a new saved-games root.
    SavedGamesDirSelected(String),
}

/// The follow-up work the surrounding layer owes after a command.
#[derive(Debug, PartialEq, Eq)]
pub enum DelegateEffect {
    /// Nothing further.
    NoEffect,
    /// Surface the error of a failed background task to the user.
    ShowError(Error),
    /// Persist the newly selected saved-games root in the configuration,
    /// start watching it, and refresh both game lists from disk.
    RewatchSavedGames(String),
}

/// The single owner of the shared state, applying commands serially.
pub struct Delegate;

impl Delegate {
    /// Applies one command to the state. A finished task clears its busy
    /// flag whether it succeeded or failed, and its error, if any, is
    /// handed back to be shown; a newly selected saved-games root is
    /// recorded and handed back to be persisted and watched. No other
    /// field changes.
    pub fn command(&self, state: &mut State, cmd: AppCommand) -> (effect: DelegateEffect)
        ensures
            match cmd {
                AppCommand::FinishArchiving(res) => {
                    &&& *final(state) == (State { archiving: false, ..*old(state) })
                    &&& effect == match res {
                        Ok(_) => DelegateEffect::NoEffect,
                        Err(e) => DelegateEffect::ShowError(e),
                    }
                },
                AppCommand::FinishRestoring(res) => {
                    &&& *final(state) == (State { restoring: false, ..*old(state) })
                    &&& effect == match res {
                        Ok(_) => DelegateEffect::NoEffect,
                        Err(e) => DelegateEffect::ShowError(e),
                    }
                },
                AppCommand::SavedGamesDirSelected(path) => {
                    &&& *final(state) == (State {
                        saved_games_path: Some(path),
                        ..*old(state)
                    })
                    &&& effect == DelegateEffect::RewatchSavedGames(path)
                },
            },
    {
        match cmd {
            AppCommand::FinishArchiving(res) => {
                state.archiving = false;
                match res {
                    Ok(_) => DelegateEffect::NoEffect,
                    Err(e) => DelegateEffect::ShowError(e),
                }
            },
            AppCommand::FinishRestoring(res) => {
                state.restoring = false;
                match res {
                    Ok(_) => DelegateEffect::NoEffect,
                    Err(e) => DelegateEffect::ShowError(e),
                }
            },
            AppCommand::SavedGamesDirSelected(path) => {
                let effect = DelegateEffect::RewatchSavedGames(path.clone());
                state.saved_games_path = Some(path);
                effect
            },
        }
    }
}

/// Replaces the known saved games, as the saved-games watcher's refresh
/// demands; nothing else changes.
pub fn set_saved_games(state: &mut State, games: Vec<String>)
    ensures
        *final(state) == (State { saved_games: games, ..*old(state) }),
{
    state.saved_games = games;
}

/// Replaces the known archive entries, as the archive watcher's refresh
/// demands; nothing else changes.
pub fn set_archived_games(state: &mut State, games: Vec<String>)
    ensures
        *final(state) == (State { archived_games: games, ..*old(state) }),
{
    state.archived_games = games;
}

/// The state the application starts from. With an existing saved-games
/// root the listings are taken as given; without one no saved-games root
/// is recorded and both listings start empty. Nothing is selected and no
/// task is outstanding.
pub fn get_initial_state(
    saved_games_dir: String,
    dir_exists: bool,
    archived_games_dir: String,
    saved_games: Vec<String>,
    archived_games: Vec<String>,
) -> (s: State)
    ensures
        dir_exists ==> s == (State {
            saved_games_path: Some(saved_games_dir),
            archived_games_path: archived_games_dir,
            saved_games,
            archived_games,
            selected_saved_game: None,
            selected_archived_game: None,
            archiving: false,
            restoring: false,
        }),
        !dir_exists ==> {
            &&& s.saved_games_path is None
            &&& s.archived_games_path == archived_games_dir
            &&& s.saved_games@ == Seq::<String>::empty()
            &&& s.archived_games@ == Seq::<String>::empty()
            &&& s.selected_saved_game is None
            &&& s.selected_archived_game is None
            &&& s.archiving == false
            &&& s.restoring == false
        },
{
    if dir_exists {
        State {
            saved_games_path: Some(saved_games_dir),
            archived_games_path: archived_games_dir,
            saved_games,
            archived_games,
            selected_saved_game: None,
            selected_archived_game: None,
            archiving: false,
            restoring: false,
        }
    } else {
        let empty_saved: Vec<String> = Vec::new();
        let empty_archived: Vec<String> = Vec::new();
        State {
            saved_games_path: None,
            archived_games_path: archived_games_dir,
            saved_games: empty_saved,
            archived_games: empty_archived,
            selected_saved_game: None,
            selected_archived_game: None,
            archiving: false,
            restoring: false,
        }
    }
}

} // verus!
