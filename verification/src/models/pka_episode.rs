use crate::models::episode_number::EpisodeNumber;
use vstd::prelude::*;

verus! {

/// An entry of the catalog.
///
/// The link is the raw address of the video on the hosting platform. It is part
/// of the record and not of what is published about the episode: only a request
/// for the link itself hands it out.
#[derive(Debug)]
pub struct PkaEpisode {
    pub number: EpisodeNumber,
    pub name: String,
    pub youtube_link: String,
    /// Seconds since the Unix epoch.
    pub upload_date: i64,
}

/// What is published of an episode: all of it but the link.
#[derive(Debug)]
pub struct PublishedEpisode {
    pub number: EpisodeNumber,
    pub name: String,
    /// Seconds since the Unix epoch.
    pub upload_date: i64,
}

impl PkaEpisode {
    pub fn new(
        number: EpisodeNumber,
        name: String,
        youtube_link: String,
        upload_date: i64,
    ) -> (episode: PkaEpisode)
        ensures
            episode.number == number,
            episode.name == name,
            episode.youtube_link == youtube_link,
            episode.upload_date == upload_date,
    {
        PkaEpisode { number, name, youtube_link, upload_date }
    }

    /// What is published of the episode.
    pub open spec fn published(&self) -> PublishedEpisode {
        PublishedEpisode { number: self.number, name: self.name, upload_date: self.upload_date }
    }

    /// Computes `published()`.
    pub fn publish(&self) -> (published: PublishedEpisode)
        ensures
            published == self.published(),
    {
        PublishedEpisode {
            number: self.number,
            name: self.name.clone(),
            upload_date: self.upload_date,
        }
    }
}

/// The link of an episode is not published: two episodes that differ in nothing
/// but their links are published as the same.
pub proof fn link_is_not_published(episode: PkaEpisode, link: String)
    ensures
        (PkaEpisode { youtube_link: link, ..episode }).published() == episode.published(),
{
}

} // verus!
