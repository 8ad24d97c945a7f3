//! Where the application keeps its settings and its chat history.

use std::path::PathBuf;
use vstd::prelude::*;

verus! {

/// Name of the settings document inside the data directory.
pub const SETTINGS_FILE: &'static str = "settings.json";

/// Name of the chat-history document inside the data directory.
pub const CHAT_HISTORY_FILE: &'static str = "ephemeral-chat-history.json";

/// The location of the settings store.
pub struct SettingsState {
    data_dir: PathBuf,
}

impl SettingsState {
    /// The directory that holds both documents.
    pub closed spec fn dir(&self) -> PathBuf {
        self.data_dir
    }

    /// A store whose documents live in `data_dir`.
    pub fn new(data_dir: PathBuf) -> (state: Self)
        ensures
            state.dir() == data_dir,
    {
        Self { data_dir }
    }

    /// The directory that holds both documents.
    pub fn data_dir(&self) -> (dir: &PathBuf)
        ensures
            *dir == self.dir(),
    {
        &self.data_dir
    }
}

} // verus!
