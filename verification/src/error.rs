//! The ways in which playing a queue fails.

use vstd::prelude::*;

verus! {

/// Why a run was abandoned. The first failure ends the run: nothing is
/// retried and no later item is attempted.
#[derive(Debug)]
pub enum PlayError {
    /// The resolver could not be started.
    ResolverUnavailable,
    /// The resolver ran and ended in failure; holds what it wrote to its
    /// standard error.
    ResolverError(String),
    /// The resolver ran and printed nothing: the query matched no item.
    NotFound,
    /// The item's audio could not be fetched into the cache; holds the
    /// fetcher's report.
    FetchFailed(String),
    /// The renderer could not be started; holds the reason.
    RenderSpawnFailed(String),
    /// The scheduler was handed an event that does not answer the action it
    /// last asked for.
    OutOfTurn,
}

/// The short message that tells the user of a failure: a fixed sentence, or
/// the report that the failure holds.
pub open spec fn message_text(error: PlayError) -> Seq<char> {
    match error {
        PlayError::ResolverUnavailable => "Failed to execute 'yt-dlp'."@,
        PlayError::ResolverError(report) => report@,
        PlayError::NotFound => "Unable to find video on YouTube."@,
        PlayError::FetchFailed(report) => report@,
        PlayError::RenderSpawnFailed(report) => report@,
        PlayError::OutOfTurn => "Event out of turn."@,
    }
}

impl PlayError {
    /// The short message that tells the user of this failure.
    pub fn message(&self) -> (out: String)
        ensures
            out@ == message_text(*self),
    {
        match self {
            PlayError::ResolverUnavailable => "Failed to execute 'yt-dlp'.".to_owned(),
            PlayError::ResolverError(report) => report.clone(),
            PlayError::NotFound => "Unable to find video on YouTube.".to_owned(),
            PlayError::FetchFailed(report) => report.clone(),
            PlayError::RenderSpawnFailed(report) => report.clone(),
            PlayError::OutOfTurn => "Event out of turn.".to_owned(),
        }
    }
}

} // verus!
