//! The editor's commands, as far as they decide anything: which of them
//! can be started by hand, and with what.

use vstd::prelude::*;

verus! {

/// Why a command was turned away before anything was done.
#[derive(Debug, Clone, Copy, PartialEq, Eq, Structural)]
pub enum CommandError {
    /// The command needs a target that only the editor's own views supply.
    /// No command is built and nothing is sent.
    NotManual,
}

/// The text of a command error.
pub open spec fn command_error_text(error: CommandError) -> Seq<char> {
    match error {
        CommandError::NotManual => "This command cannot be activated manually"@,
    }
}

impl CommandError {
    /// The error as one line of text.
    pub fn message(&self) -> (text: &'static str)
        ensures
            text@ == command_error_text(*self),
    {
        match self {
            CommandError::NotManual => "This command cannot be activated manually",
        }
    }
}

/// Accepts or turns away the editor's commands.
#[derive(Debug, Clone, Copy, PartialEq, Eq, Structural)]
pub struct CommandHandler {}

impl CommandHandler {
    pub fn new() -> (handler: Self) {
        CommandHandler {  }
    }

    /// Switches the extension on for the workspace. Always accepted.
    pub fn enable(&self) -> (accepted: Result<(), CommandError>)
        ensures
            accepted is Ok,
    {
        Ok(())
    }

    /// Opens the editor of the localize dictionary. Always accepted.
    pub fn open_localize_dict_editor(&self) -> (accepted: Result<(), CommandError>)
        ensures
            accepted is Ok,
    {
        Ok(())
    }

    /// Opens the lyrics editor for a song. Accepted exactly where the song
    /// is given.
    pub fn open_lyrics_editor(&self, song_index: Option<String>) -> (accepted: Result<
        (),
        CommandError,
    >)
        ensures
            song_index is Some ==> accepted is Ok,
            song_index is None ==> accepted == Err::<(), CommandError>(CommandError::NotManual),
    {
        match song_index {
            Some(_) => Ok(()),
            None => Err(CommandError::NotManual),
        }
    }

    /// Opens the database editor for a table. Accepted exactly where the
    /// table is given.
    pub fn open_mdb_editor(&self, table_name: Option<String>) -> (accepted: Result<
        (),
        CommandError,
    >)
        ensures
            table_name is Some ==> accepted is Ok,
            table_name is None ==> accepted == Err::<(), CommandError>(CommandError::NotManual),
    {
        match table_name {
            Some(_) => Ok(()),
            None => Err(CommandError::NotManual),
        }
    }

    /// Opens the story editor for a story. Accepted exactly where both the
    /// kind of story and its identifier are given.
    pub fn open_story_editor(&self, story_type: Option<String>, story_id: Option<String>) -> (accepted:
        Result<(), CommandError>)
        ensures
            story_type is Some && story_id is Some ==> accepted is Ok,
            story_type is None || story_id is None ==> accepted == Err::<(), CommandError>(
                CommandError::NotManual,
            ),
    {
        match (story_type, story_id) {
            (Some(_), Some(_)) => Ok(()),
            _ => Err(CommandError::NotManual),
        }
    }

    /// Has the game read its localized data again. Always accepted.
    pub fn reload_localized_data(&self) -> (accepted: Result<(), CommandError>)
        ensures
            accepted is Ok,
    {
        Ok(())
    }

    /// Points the game at another directory of localized data. Always
    /// accepted.
    pub fn set_localized_data_dir(&self) -> (accepted: Result<(), CommandError>)
        ensures
            accepted is Ok,
    {
        Ok(())
    }

    /// Points the game back at its own directory of localized data. Always
    /// accepted.
    pub fn revert_localized_data_dir(&self) -> (accepted: Result<(), CommandError>)
        ensures
            accepted is Ok,
    {
        Ok(())
    }

    /// Empties the cache. Always accepted.
    pub fn clear_cache(&self) -> (accepted: Result<(), CommandError>)
        ensures
            accepted is Ok,
    {
        Ok(())
    }
}

impl Default for CommandHandler {
    fn default() -> (handler: Self) {
        CommandHandler::new()
    }
}

} // verus!
