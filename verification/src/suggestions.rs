//! Where the application keeps its suggestions.

use std::path::PathBuf;
use vstd::prelude::*;

verus! {

/// Name of the suggestions document inside the data directory.
pub const SUGGESTIONS_FILE: &'static str = "suggestions.json";

/// The location of the suggestions store.
pub struct SuggestionsState {
    data_dir: PathBuf,
}

impl SuggestionsState {
    /// The directory that holds the document.
    pub closed spec fn dir(&self) -> PathBuf {
        self.data_dir
    }

    /// A store whose document lives in `data_dir`.
    pub fn new(data_dir: PathBuf) -> (state: Self)
        ensures
            state.dir() == data_dir,
    {
        Self { data_dir }
    }

    /// The directory that holds the document.
    pub fn data_dir(&self) -> (dir: &PathBuf)
        ensures
            *dir == self.dir(),
    {
        &self.data_dir
    }
}

} // verus!
