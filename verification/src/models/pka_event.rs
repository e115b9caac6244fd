use crate::models::episode_number::EpisodeNumber;
use crate::models::sqlx_types::SqliteI32;
use vstd::prelude::*;

verus! {

/// Something that happens at some point of an episode.
#[derive(Debug)]
pub struct PkaEvent {
    /// The identifier of the event inside the store.
    pub event_id: String,
    /// The number of the episode in which the event happens.
    pub episode_number: EpisodeNumber,
    /// Where in the episode the event starts, in seconds from its beginning.
    pub timestamp: SqliteI32,
    pub description: String,
    pub length_seconds: SqliteI32,
    /// Seconds since the Unix epoch.
    pub upload_date: i64,
}

/// What is published of an event: all of it but its identifier inside the
/// store and the number of its episode, which is published with the episode.
#[derive(Debug)]
pub struct PublishedEvent {
    /// Where in the episode the event starts, in seconds from its beginning.
    pub timestamp: SqliteI32,
    pub description: String,
    pub length_seconds: SqliteI32,
    /// Seconds since the Unix epoch.
    pub upload_date: i64,
}

impl PkaEvent {
    pub fn new(
        event_id: String,
        episode_number: EpisodeNumber,
        timestamp: i32,
        description: String,
        length_seconds: i32,
        upload_date: i64,
    ) -> (event: PkaEvent)
        ensures
            event.event_id == event_id,
            event.episode_number == episode_number,
            event.timestamp@ == timestamp,
            event.description == description,
            event.length_seconds@ == length_seconds,
            event.upload_date == upload_date,
    {
        PkaEvent {
            event_id,
            episode_number,
            timestamp: SqliteI32(timestamp),
            description,
            length_seconds: SqliteI32(length_seconds),
            upload_date,
        }
    }

    /// What is published of the event.
    pub open spec fn published(&self) -> PublishedEvent {
        PublishedEvent {
            timestamp: self.timestamp,
            description: self.description,
            length_seconds: self.length_seconds,
            upload_date: self.upload_date,
        }
    }

    /// Computes `published()`.
    pub fn publish(&self) -> (published: PublishedEvent)
        ensures
            published == self.published(),
    {
        PublishedEvent {
            timestamp: self.timestamp,
            description: self.description.clone(),
            length_seconds: self.length_seconds,
            upload_date: self.upload_date,
        }
    }
}

/// The identifier of an event is not published: two events that differ in
/// nothing but their identifiers are published as the same.
pub proof fn event_id_is_not_published(event: PkaEvent, event_id: String)
    ensures
        (PkaEvent { event_id, ..event }).published() == event.published(),
{
}

/// Every event of `events` happens in the episode numbered `number`.
pub open spec fn belong_to(events: Seq<PkaEvent>, number: EpisodeNumber) -> bool {
    forall|i: int| 0 <= i < events.len() ==> (#[trigger] events[i]).episode_number == number
}

/// No event of `events` starts before one that stands earlier in the sequence.
pub open spec fn in_order(events: Seq<PkaEvent>) -> bool {
    forall|i: int, j: int|
        #![trigger events[i], events[j]]
        0 <= i <= j < events.len() ==> events[i].timestamp@ <= events[j].timestamp@
}

/// Tells whether every event of `events` happens in the episode numbered
/// `number`.
pub fn all_belong_to(events: &Vec<PkaEvent>, number: EpisodeNumber) -> (all: bool)
    ensures
        all == belong_to(events@, number),
{
    let mut i: usize = 0;
    while i < events.len()
        invariant
            i <= events.len(),
            forall|k: int| 0 <= k < i ==> (#[trigger] events@[k]).episode_number == number,
        decreases events.len() - i,
    {
        if events[i].episode_number != number {
            return false;
        }
        i = i + 1;
    }
    true
}

/// Tells whether the events of `events` stand in the order in which they start.
pub fn all_in_order(events: &Vec<PkaEvent>) -> (ordered: bool)
    ensures
        ordered == in_order(events@),
{
    let mut i: usize = 1;
    while i < events.len()
        invariant
            1 <= i,
            forall|a: int, b: int|
                #![trigger events@[a], events@[b]]
                0 <= a <= b < i && b < events@.len() ==> events@[a].timestamp@
                    <= events@[b].timestamp@,
        decreases events.len() - i,
    {
        if events[i - 1].timestamp.0 > events[i].timestamp.0 {
            return false;
        }
        i = i + 1;
    }
    true
}

} // verus!
