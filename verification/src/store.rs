//! What the aggregation layer asks of the store, and what the store answers.

use crate::models::episode_number::EpisodeNumber;
use crate::models::pka_episode::PkaEpisode;
use crate::models::pka_event::PkaEvent;
use crate::models::pka_youtube_details::PkaYoutubeDetails;
use vstd::prelude::*;

verus! {

/// A lookup that the store is asked to run.
#[derive(Debug, Clone, Copy, PartialEq, Eq, Structural)]
pub enum StoreQuery {
    /// The episode with the given number.
    Episode(EpisodeNumber),
    /// The video details of the episode with the given number.
    YoutubeDetails(EpisodeNumber),
    /// The events of the episode with the given number, in the order in which
    /// they start.
    Events(EpisodeNumber),
}

/// What the store answers to a lookup.
#[derive(Debug)]
pub enum StoreReply {
    /// The answer to `StoreQuery::Episode`: the one episode with the number, or
    /// the error of a row that was not found where there is none.
    Episode(Result<PkaEpisode, StoreError>),
    /// The answer to `StoreQuery::YoutubeDetails`: the video details of the
    /// episode, or the error of a row that was not found where there are none.
    YoutubeDetails(Result<PkaYoutubeDetails, StoreError>),
    /// The answer to `StoreQuery::Events`: the events of the episode in the order
    /// in which they start, none where the episode has none.
    Events(Result<Vec<PkaEvent>, StoreError>),
}

/// Why a lookup in the store failed.
#[derive(Debug)]
pub enum StoreError {
    /// The lookup ran and matched no row.
    RowNotFound,
    /// The lookup could not be run or its rows could not be read: the connection
    /// was lost, the pool timed out, the query failed. The text is the store's own
    /// description of the failure, kept for the server's log.
    Unavailable(String),
}

} // verus!
