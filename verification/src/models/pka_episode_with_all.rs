use crate::models::episode_number::EpisodeNumber;
use crate::models::pka_episode::{PkaEpisode, PublishedEpisode};
use crate::models::pka_event::{belong_to, in_order, PkaEvent, PublishedEvent};
use crate::models::pka_youtube_details::{PkaYoutubeDetails, PublishedYoutubeDetails};
use vstd::prelude::*;

verus! {

/// An episode together with the details of its video and the events of its
/// timeline.
#[derive(Debug)]
pub struct PkaEpisodeWithAll {
    pub episode: PkaEpisode,
    pub youtube_details: PkaYoutubeDetails,
    pub events: Vec<PkaEvent>,
}

/// What is published of an aggregate: what is published of each of its parts,
/// the events in the order in which the aggregate holds them.
#[derive(Debug)]
pub struct PublishedEpisodeWithAll {
    pub episode: PublishedEpisode,
    pub youtube_details: PublishedYoutubeDetails,
    pub events: Vec<PublishedEvent>,
}

/// The three parts are about one episode, and the events stand in the order in
/// which they start.
pub open spec fn parts_agree(
    episode: PkaEpisode,
    youtube_details: PkaYoutubeDetails,
    events: Seq<PkaEvent>,
) -> bool {
    &&& youtube_details.episode_number == episode.number
    &&& belong_to(events, episode.number)
    &&& in_order(events)
}

impl PkaEpisodeWithAll {
    /// The number of the episode that the aggregate is about.
    pub open spec fn number(&self) -> EpisodeNumber {
        self.episode.number
    }

    /// The parts of the aggregate agree.
    pub open spec fn well_formed(&self) -> bool {
        parts_agree(self.episode, self.youtube_details, self.events@)
    }

    /// Composes three parts that agree into one aggregate.
    pub fn new(
        episode: PkaEpisode,
        youtube_details: PkaYoutubeDetails,
        events: Vec<PkaEvent>,
    ) -> (all: PkaEpisodeWithAll)
        requires
            parts_agree(episode, youtube_details, events@),
        ensures
            all.episode == episode,
            all.youtube_details == youtube_details,
            all.events == events,
            all.well_formed(),
    {
        PkaEpisodeWithAll { episode, youtube_details, events }
    }

    /// What is published of the events of the aggregate, in their order.
    pub open spec fn published_events(&self) -> Seq<PublishedEvent> {
        Seq::new(self.events@.len(), |i: int| self.events@[i].published())
    }

    /// What is published of the aggregate: of the episode all but its link, of
    /// the video details and of each event all but what ties them to the
    /// episode inside the store. The events keep their order.
    pub fn publish(&self) -> (published: PublishedEpisodeWithAll)
        ensures
            published.episode == self.episode.published(),
            published.youtube_details == self.youtube_details.published(),
            published.events@ == self.published_events(),
    {
        let mut events: Vec<PublishedEvent> = Vec::new();
        let mut i: usize = 0;
        while i < self.events.len()
            invariant
                i <= self.events.len(),
                events@.len() == i,
                forall|k: int|
                    0 <= k < i ==> events@[k] == (#[trigger] self.events@[k]).published(),
            decreases self.events.len() - i,
        {
            events.push(self.events[i].publish());
            i = i + 1;
        }
        PublishedEpisodeWithAll {
            episode: self.episode.publish(),
            youtube_details: self.youtube_details.publish(),
            events,
        }
    }
}

/// The events of a well-formed aggregate are published in the order in which
/// they start.
pub proof fn published_events_are_in_order(all: PkaEpisodeWithAll, i: int, j: int)
    requires
        all.well_formed(),
        0 <= i <= j < all.events@.len(),
    ensures
        all.published_events().len() == all.events@.len(),
        all.published_events()[i].timestamp@ <= all.published_events()[j].timestamp@,
{
}

} // verus!
