use crate::models::episode_number::EpisodeNumber;
use crate::models::sqlx_types::SqliteI32;
use vstd::prelude::*;

verus! {

/// What the hosting platform tells of the video of one episode.
#[derive(Debug)]
pub struct PkaYoutubeDetails {
    pub video_id: String,
    /// The number of the episode that the video belongs to.
    pub episode_number: EpisodeNumber,
    pub title: String,
    pub length_seconds: SqliteI32,
}

/// What is published of the video of an episode: all of it but the number of
/// the episode, which is published with the episode itself.
#[derive(Debug)]
pub struct PublishedYoutubeDetails {
    pub video_id: String,
    pub title: String,
    pub length_seconds: SqliteI32,
}

impl PkaYoutubeDetails {
    pub fn new(
        video_id: String,
        episode_number: EpisodeNumber,
        title: String,
        length_seconds: i32,
    ) -> (details: PkaYoutubeDetails)
        ensures
            details.video_id == video_id,
            details.episode_number == episode_number,
            details.title == title,
            details.length_seconds@ == length_seconds,
    {
        PkaYoutubeDetails {
            video_id,
            episode_number,
            title,
            length_seconds: SqliteI32(length_seconds),
        }
    }

    /// What is published of the video details.
    pub open spec fn published(&self) -> PublishedYoutubeDetails {
        PublishedYoutubeDetails {
            video_id: self.video_id,
            title: self.title,
            length_seconds: self.length_seconds,
        }
    }

    /// Computes `published()`.
    pub fn publish(&self) -> (published: PublishedYoutubeDetails)
        ensures
            published == self.published(),
    {
        PublishedYoutubeDetails {
            video_id: self.video_id.clone(),
            title: self.title.clone(),
            length_seconds: self.length_seconds,
        }
    }
}

} // verus!
