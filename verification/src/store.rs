//! The token store as the host reports it: what reading, writing and
//! removing the stored document came to, and what each report means.

use vstd::prelude::*;
use crate::error::{AuthError, AuthErrorView};
use crate::record::{decoded_record, record_view, TokenData, TokenDataView};

verus! {

/// Name of the stored document inside the data directory.
pub const TOKENS_FILE: &'static str = "tokens.json";

/// What reading the stored document came to.
#[derive(Debug, Clone, PartialEq, Eq)]
pub enum ReadOutcome {
    /// The document exists; carries its text.
    Found(String),
    /// There is no document.
    Missing,
    /// The document could not be read; carries the reason.
    Failed(String),
}

/// Mathematical model of a [`ReadOutcome`].
pub enum ReadOutcomeView {
    Found(Seq<char>),
    Missing,
    Failed(Seq<char>),
}

impl View for ReadOutcome {
    type V = ReadOutcomeView;

    open spec fn view(&self) -> ReadOutcomeView {
        match self {
            ReadOutcome::Found(document) => ReadOutcomeView::Found(document@),
            ReadOutcome::Missing => ReadOutcomeView::Missing,
            ReadOutcome::Failed(reason) => ReadOutcomeView::Failed(reason@),
        }
    }
}

/// What writing the stored document came to.
#[derive(Debug, Clone, PartialEq, Eq)]
pub enum WriteOutcome {
    Written,
    /// The document could not be written; carries the reason.
    Failed(String),
}

/// Mathematical model of a [`WriteOutcome`].
pub enum WriteOutcomeView {
    Written,
    Failed(Seq<char>),
}

impl View for WriteOutcome {
    type V = WriteOutcomeView;

    open spec fn view(&self) -> WriteOutcomeView {
        match self {
            WriteOutcome::Written => WriteOutcomeView::Written,
            WriteOutcome::Failed(reason) => WriteOutcomeView::Failed(reason@),
        }
    }
}

/// What removing the stored document came to.
#[derive(Debug, Clone, PartialEq, Eq)]
pub enum RemoveOutcome {
    Removed,
    /// There was no document to remove.
    Missing,
    /// The document could not be removed; carries the reason.
    Failed(String),
}

/// Mathematical model of a [`RemoveOutcome`].
pub enum RemoveOutcomeView {
    Removed,
    Missing,
    Failed(Seq<char>),
}

impl View for RemoveOutcome {
    type V = RemoveOutcomeView;

    open spec fn view(&self) -> RemoveOutcomeView {
        match self {
            RemoveOutcome::Removed => RemoveOutcomeView::Removed,
            RemoveOutcome::Missing => RemoveOutcomeView::Missing,
            RemoveOutcome::Failed(reason) => RemoveOutcomeView::Failed(reason@),
        }
    }
}

/// Model of a loaded record, or the failure to load.
pub open spec fn load_view(result: Result<Option<TokenData>, AuthError>) -> Result<
    Option<TokenDataView>,
    AuthErrorView,
> {
    match result {
        Ok(record) => Ok(record_view(record)),
        Err(error) => Err(error@),
    }
}

/// Model of a completed store operation, or its failure.
pub open spec fn done_view(result: Result<(), AuthError>) -> Result<(), AuthErrorView> {
    match result {
        Ok(done) => Ok(()),
        Err(error) => Err(error@),
    }
}

/// What a read means: a missing document is the logged-out state, not a
/// failure; a document that does not decode to a record is a decode
/// failure, never taken for a missing one.
pub open spec fn load_outcome(outcome: ReadOutcomeView) -> Result<
    Option<TokenDataView>,
    AuthErrorView,
> {
    match outcome {
        ReadOutcomeView::Found(document) => match decoded_record(document) {
            Some(record) => Ok(Some(record)),
            None => Err(AuthErrorView::Decode),
        },
        ReadOutcomeView::Missing => Ok(None),
        ReadOutcomeView::Failed(reason) => Err(AuthErrorView::Io(reason)),
    }
}

/// What a write means.
pub open spec fn save_outcome(outcome: WriteOutcomeView) -> Result<(), AuthErrorView> {
    match outcome {
        WriteOutcomeView::Written => Ok(()),
        WriteOutcomeView::Failed(reason) => Err(AuthErrorView::Io(reason)),
    }
}

/// What a removal means: removing a document that is not there succeeds.
pub open spec fn clear_outcome(outcome: RemoveOutcomeView) -> Result<(), AuthErrorView> {
    match outcome {
        RemoveOutcomeView::Removed => Ok(()),
        RemoveOutcomeView::Missing => Ok(()),
        RemoveOutcomeView::Failed(reason) => Err(AuthErrorView::Io(reason)),
    }
}

/// Reads the report of a load: the record, `None` where nothing is stored,
/// or the failure.
pub fn interpret_read(outcome: ReadOutcome) -> (result: Result<Option<TokenData>, AuthError>)
    ensures
        load_view(result) == load_outcome(outcome@),
{
    match outcome {
        ReadOutcome::Found(document) => match TokenData::from_json(document.as_str()) {
            Some(record) => Ok(Some(record)),
            None => Err(AuthError::Decode),
        },
        ReadOutcome::Missing => Ok(None),
        ReadOutcome::Failed(reason) => Err(AuthError::Io(reason)),
    }
}

/// Reads the report of a save.
pub fn interpret_write(outcome: WriteOutcome) -> (result: Result<(), AuthError>)
    ensures
        done_view(result) == save_outcome(outcome@),
{
    match outcome {
        WriteOutcome::Written => Ok(()),
        WriteOutcome::Failed(reason) => Err(AuthError::Io(reason)),
    }
}

/// Reads the report of a removal.
pub fn interpret_remove(outcome: RemoveOutcome) -> (result: Result<(), AuthError>)
    ensures
        done_view(result) == clear_outcome(outcome@),
{
    match outcome {
        RemoveOutcome::Removed => Ok(()),
        RemoveOutcome::Missing => Ok(()),
        RemoveOutcome::Failed(reason) => Err(AuthError::Io(reason)),
    }
}

} // verus!
