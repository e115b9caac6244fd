use crate::error::ApiError;
use crate::models::episode_number::EpisodeNumber;
use crate::models::pka_episode::PkaEpisode;
use crate::models::pka_episode_with_all::PkaEpisodeWithAll;
use crate::models::pka_event::{all_belong_to, all_in_order, belong_to, in_order, PkaEvent};
use crate::models::pka_youtube_details::PkaYoutubeDetails;
use crate::store::{StoreError, StoreQuery, StoreReply};
use rand::seq::SliceRandom;
use vstd::prelude::*;

verus! {

/// The cause of the internal error that ends an aggregation when the store
/// answers another lookup than the one it was asked to run.
pub const UNEXPECTED_REPLY: &'static str = "The store answered a lookup that was not asked.";

/// The cause of the internal error that ends an operation when the store answers
/// with a record of another episode than the one asked for.
pub const FOREIGN_RECORD: &'static str = "The store returned a record of another episode.";

/// The cause of the internal error that ends an aggregation when the store
/// returns events that do not stand in the order in which they start.
pub const UNORDERED_EVENTS: &'static str = "The store returned events out of order.";

/// `result` is an internal error with the given cause.
pub open spec fn is_internal_error<T>(result: Result<T, ApiError>, cause: Seq<char>) -> bool {
    result matches Err(ApiError::InternalServerError(text)) && text@ == cause
}

/// The aggregation of one episode in progress: the number asked for, and the
/// parts that the store has returned so far.
///
/// The episode is looked up first, then its video details, then its events, and
/// every part held is a record of the episode asked for.
#[derive(Debug)]
pub struct FindWithAll {
    number: EpisodeNumber,
    episode: Option<PkaEpisode>,
    youtube_details: Option<PkaYoutubeDetails>,
}

/// What is to be done next for an aggregation.
#[derive(Debug)]
pub enum Progress {
    /// The store is to run the lookup, and its answer is to be handed to
    /// `find_with_all` together with the aggregation.
    Ask(FindWithAll, StoreQuery),
    /// The aggregation has ended, with the aggregate or with the error.
    Done(Result<PkaEpisodeWithAll, ApiError>),
}

impl FindWithAll {
    #[verifier::type_invariant]
    spec fn parts_are_of_the_episode(self) -> bool {
        &&& self.episode matches Some(episode) ==> episode.number == self.number
        &&& self.youtube_details matches Some(details) ==> details.episode_number == self.number
            && self.episode is Some
    }

    /// The number of the episode asked for.
    pub closed spec fn number(&self) -> EpisodeNumber {
        self.number
    }

    /// The episode, once the store has returned it.
    pub closed spec fn episode(&self) -> Option<PkaEpisode> {
        self.episode
    }

    /// The video details, once the store has returned them.
    pub closed spec fn youtube_details(&self) -> Option<PkaYoutubeDetails> {
        self.youtube_details
    }

    /// The lookup whose answer the aggregation waits for.
    pub open spec fn awaits(&self) -> StoreQuery {
        if self.episode() is None {
            StoreQuery::Episode(self.number())
        } else if self.youtube_details() is None {
            StoreQuery::YoutubeDetails(self.number())
        } else {
            StoreQuery::Events(self.number())
        }
    }

    /// Begins the aggregation of the episode numbered `number`: nothing is held
    /// yet, and the episode is the first lookup.
    pub fn begin(number: EpisodeNumber) -> (progress: Progress)
        ensures
            progress matches Progress::Ask(state, query) && state.number() == number
                && state.episode() is None && state.youtube_details() is None && query
                == StoreQuery::Episode(number),
    {
        Progress::Ask(
            FindWithAll { number, episode: None, youtube_details: None },
            StoreQuery::Episode(number),
        )
    }
}

/// What `find_with_all` makes of the answer `reply` to the lookup that `state`
/// waits for.
///
/// A failed lookup ends the aggregation with the store's error, unchanged. A
/// record of the episode asked for is kept, and the next lookup is asked; once
/// the events are in, the three parts are the aggregate. An answer to another
/// lookup, a record of another episode, and events out of order each end the
/// aggregation with an internal error.
pub open spec fn follows(state: FindWithAll, reply: StoreReply, progress: Progress) -> bool {
    match (state.awaits(), reply) {
        (StoreQuery::Episode(number), StoreReply::Episode(row)) => match row {
            Err(error) => progress == Progress::Done(Err(ApiError::DatabaseError(error))),
            Ok(episode) => if episode.number == number {
                &&& progress matches Progress::Ask(next, query)
                &&& next.number() == number
                &&& next.episode() == Some(episode)
                &&& next.youtube_details() is None
                &&& query == StoreQuery::YoutubeDetails(number)
            } else {
                progress matches Progress::Done(result) && is_internal_error(
                    result,
                    FOREIGN_RECORD@,
                )
            },
        },
        (StoreQuery::YoutubeDetails(number), StoreReply::YoutubeDetails(row)) => match row {
            Err(error) => progress == Progress::Done(Err(ApiError::DatabaseError(error))),
            Ok(details) => if details.episode_number == number {
                &&& progress matches Progress::Ask(next, query)
                &&& next.number() == number
                &&& next.episode() == state.episode()
                &&& next.youtube_details() == Some(details)
                &&& query == StoreQuery::Events(number)
            } else {
                progress matches Progress::Done(result) && is_internal_error(
                    result,
                    FOREIGN_RECORD@,
                )
            },
        },
        (StoreQuery::Events(number), StoreReply::Events(rows)) => match rows {
            Err(error) => progress == Progress::Done(Err(ApiError::DatabaseError(error))),
            Ok(events) => if !belong_to(events@, number) {
                progress matches Progress::Done(result) && is_internal_error(
                    result,
                    FOREIGN_RECORD@,
                )
            } else if !in_order(events@) {
                progress matches Progress::Done(result) && is_internal_error(
                    result,
                    UNORDERED_EVENTS@,
                )
            } else {
                &&& progress matches Progress::Done(Ok(all))
                &&& state.episode() == Some(all.episode)
                &&& state.youtube_details() == Some(all.youtube_details)
                &&& all.events == events
            },
        },
        _ => progress matches Progress::Done(result) && is_internal_error(
            result,
            UNEXPECTED_REPLY@,
        ),
    }
}

/// The end of an aggregation with an internal error caused by `cause`.
fn broken_off(cause: &'static str) -> (progress: Progress)
    ensures
        progress matches Progress::Done(result) && is_internal_error(result, cause@),
{
    Progress::Done(Err(ApiError::InternalServerError(cause.to_owned())))
}

/// Takes the aggregation `state` one step further with the store's answer to the
/// lookup that it waits for.
///
/// The first failing lookup ends the aggregation with its error, and no part
/// that was already returned is handed out. An aggregate that is handed out is
/// about the episode asked for in all its parts, and its events stand in the
/// order in which they start.
pub fn find_with_all(state: FindWithAll, reply: StoreReply) -> (progress: Progress)
    ensures
        follows(state, reply, progress),
        progress matches Progress::Ask(next, query) ==> query == next.awaits(),
        progress matches Progress::Done(Ok(all)) ==> all.well_formed() && all.number()
            == state.number(),
{
    proof {
        use_type_invariant(&state);
    }
    let FindWithAll { number, episode, youtube_details } = state;
    match episode {
        None => match reply {
            StoreReply::Episode(Ok(row)) => {
                if row.number == number {
                    Progress::Ask(
                        FindWithAll { number, episode: Some(row), youtube_details: None },
                        StoreQuery::YoutubeDetails(number),
                    )
                } else {
                    broken_off(FOREIGN_RECORD)
                }
            },
            StoreReply::Episode(Err(error)) => Progress::Done(Err(ApiError::from(error))),
            _ => broken_off(UNEXPECTED_REPLY),
        },
        Some(episode) => match youtube_details {
            None => match reply {
                StoreReply::YoutubeDetails(Ok(row)) => {
                    if row.episode_number == number {
                        Progress::Ask(
                            FindWithAll {
                                number,
                                episode: Some(episode),
                                youtube_details: Some(row),
                            },
                            StoreQuery::Events(number),
                        )
                    } else {
                        broken_off(FOREIGN_RECORD)
                    }
                },
                StoreReply::YoutubeDetails(Err(error)) => Progress::Done(
                    Err(ApiError::from(error)),
                ),
                _ => broken_off(UNEXPECTED_REPLY),
            },
            Some(details) => match reply {
                StoreReply::Events(Ok(events)) => {
                    if !all_belong_to(&events, number) {
                        broken_off(FOREIGN_RECORD)
                    } else if !all_in_order(&events) {
                        broken_off(UNORDERED_EVENTS)
                    } else {
                        Progress::Done(Ok(PkaEpisodeWithAll::new(episode, details, events)))
                    }
                },
                StoreReply::Events(Err(error)) => Progress::Done(Err(ApiError::from(error))),
                _ => broken_off(UNEXPECTED_REPLY),
            },
        },
    }
}

/// An aggregation begun for an episode that the store holds, and answered with
/// the records of that episode, asks three lookups and ends with the aggregate of
/// exactly what the store returned.
pub proof fn held_episode_is_aggregated(
    begun: FindWithAll,
    episode: PkaEpisode,
    youtube_details: PkaYoutubeDetails,
    events: Vec<PkaEvent>,
    first: Progress,
    second: Progress,
    third: Progress,
)
    requires
        begun.episode() is None,
        begun.youtube_details() is None,
        episode.number == begun.number(),
        youtube_details.episode_number == begun.number(),
        belong_to(events@, begun.number()),
        in_order(events@),
        follows(begun, StoreReply::Episode(Ok(episode)), first),
        first matches Progress::Ask(state, _) ==> follows(
            state,
            StoreReply::YoutubeDetails(Ok(youtube_details)),
            second,
        ),
        second matches Progress::Ask(state, _) ==> follows(
            state,
            StoreReply::Events(Ok(events)),
            third,
        ),
    ensures
        first matches Progress::Ask(_, query) && query == StoreQuery::YoutubeDetails(
            begun.number(),
        ),
        second matches Progress::Ask(_, query) && query == StoreQuery::Events(begun.number()),
        third matches Progress::Done(Ok(all)) && all.episode == episode && all.youtube_details
            == youtube_details && all.events == events,
{
}

/// A lookup that matches no row, be it the first of an aggregation or a later
/// one, ends the aggregation with an error that is answered with 404 and the
/// sentence "This data was not found in the database.", and that is not logged.
pub proof fn missing_row_is_answered_with_404(
    state: FindWithAll,
    reply: StoreReply,
    progress: Progress,
)
    requires
        follows(state, reply, progress),
        match state.awaits() {
            StoreQuery::Episode(_) => reply == StoreReply::Episode(Err(StoreError::RowNotFound)),
            StoreQuery::YoutubeDetails(_) => reply == StoreReply::YoutubeDetails(
                Err(StoreError::RowNotFound),
            ),
            StoreQuery::Events(_) => reply == StoreReply::Events(Err(StoreError::RowNotFound)),
        },
    ensures
        progress matches Progress::Done(Err(error)) && error.status() == 404
            && error.client_message() == "This data was not found in the database."@
            && error.log_line() is None,
{
}

/// `latest` is one of `known` and none of `known` is greater.
pub open spec fn is_latest(known: Seq<EpisodeNumber>, latest: EpisodeNumber) -> bool {
    &&& known.contains(latest)
    &&& forall|i: int| 0 <= i < known.len() ==> (#[trigger] known[i])@ <= latest@
}

/// A catalog has at most one latest number, so `is_latest` leaves
/// `latest_number` no choice.
pub proof fn latest_is_unique(
    known: Seq<EpisodeNumber>,
    one: EpisodeNumber,
    other: EpisodeNumber,
)
    requires
        is_latest(known, one),
        is_latest(known, other),
    ensures
        one == other,
{
    let i = choose|i: int| 0 <= i < known.len() && known[i] == one;
    let j = choose|j: int| 0 <= j < known.len() && known[j] == other;
    assert(known[i]@ <= other@);
    assert(known[j]@ <= one@);
}

/// The greatest of the numbers of all episodes, which `numbers` is the store's
/// answer for.
///
/// A failed lookup is handed on unchanged, and a catalog without episodes has no
/// latest one: that is the error of a row that was not found.
pub fn latest_number(
    numbers: Result<Vec<EpisodeNumber>, StoreError>,
) -> (latest: Result<EpisodeNumber, ApiError>)
    ensures
        match numbers {
            Err(error) => latest == Err::<EpisodeNumber, ApiError>(ApiError::DatabaseError(error)),
            Ok(known) => if known@.len() == 0 {
                latest == Err::<EpisodeNumber, ApiError>(
                    ApiError::DatabaseError(StoreError::RowNotFound),
                )
            } else {
                latest matches Ok(number) && is_latest(known@, number)
            },
        },
{
    let known = match numbers {
        Ok(known) => known,
        Err(error) => {
            return Err(ApiError::from(error));
        },
    };
    if known.len() == 0 {
        return Err(ApiError::from(StoreError::RowNotFound));
    }
    let mut latest = known[0];
    let mut i: usize = 1;
    while i < known.len()
        invariant
            1 <= i <= known.len(),
            exists|k: int| 0 <= k < i && known@[k] == latest,
            forall|k: int| 0 <= k < i ==> (#[trigger] known@[k])@ <= latest@,
        decreases known.len() - i,
    {
        if known[i].thousandths > latest.thousandths {
            latest = known[i];
        }
        i = i + 1;
    }
    Ok(latest)
}

/// The number drawn from the catalog, where one was drawn, and zero where the
/// catalog had none to draw.
pub fn drawn_or_zero(choice: Option<EpisodeNumber>) -> (number: EpisodeNumber)
    ensures
        number == match choice {
            Some(drawn) => drawn,
            None => (EpisodeNumber { thousandths: 0 }),
        },
{
    match choice {
        Some(drawn) => drawn,
        None => EpisodeNumber::zero(),
    }
}

/// A number drawn at random, each as likely as any other, from the numbers of
/// all episodes, which `numbers` is the store's answer for.
///
/// A failed lookup is handed on unchanged. From a catalog without episodes zero
/// is drawn, though no episode need have that number.
pub fn random_number(
    numbers: Result<Vec<EpisodeNumber>, StoreError>,
) -> (drawn: Result<EpisodeNumber, ApiError>)
    ensures
        match numbers {
            Err(error) => drawn == Err::<EpisodeNumber, ApiError>(ApiError::DatabaseError(error)),
            Ok(known) => drawn matches Ok(number) && if known@.len() == 0 {
                number@ == 0
            } else {
                known@.contains(number)
            },
        },
{
    match numbers {
        Ok(known) => Ok(drawn_or_zero(draw(&known))),
        Err(error) => Err(ApiError::from(error)),
    }
}

/// Calls `rand::seq::SliceRandom::choose` on the numbers, with the generator of
/// `rand::thread_rng`.
///
/// Trusted: from no numbers nothing is chosen, and from some numbers one of them
/// is. Which one differs from call to call, so nothing more is claimed.
/// `thread_rng` panics where the system gives it no seed.
#[verifier::external_body]
fn draw(numbers: &Vec<EpisodeNumber>) -> (choice: Option<EpisodeNumber>)
    ensures
        numbers@.len() == 0 ==> choice is None,
        numbers@.len() > 0 ==> choice is Some,
        choice matches Some(number) ==> numbers@.contains(number),
{
    numbers.choose(&mut rand::thread_rng()).copied()
}

/// What `youtube_link` makes of the store's answer `row` to the lookup of the
/// episode numbered `number`.
///
/// A failed lookup is handed on unchanged, the link of the episode asked for is
/// handed out as the record holds it, and a record of another episode is an
/// internal error.
pub open spec fn is_link_of(
    number: EpisodeNumber,
    row: Result<PkaEpisode, StoreError>,
    link: Result<String, ApiError>,
) -> bool {
    match row {
        Err(error) => link == Err::<String, ApiError>(ApiError::DatabaseError(error)),
        Ok(episode) => if episode.number == number {
            link == Ok::<String, ApiError>(episode.youtube_link)
        } else {
            is_internal_error(link, FOREIGN_RECORD@)
        },
    }
}

/// The link to the video of the episode numbered `number`, which `row` is the
/// store's answer for. No other operation hands the link out.
pub fn youtube_link(
    number: EpisodeNumber,
    row: Result<PkaEpisode, StoreError>,
) -> (link: Result<String, ApiError>)
    ensures
        is_link_of(number, row, link),
{
    match row {
        Ok(episode) => {
            if episode.number == number {
                Ok(episode.youtube_link)
            } else {
                Err(ApiError::InternalServerError(FOREIGN_RECORD.to_owned()))
            }
        },
        Err(error) => Err(ApiError::from(error)),
    }
}

/// The link of an episode that the store holds is handed out, and it is not
/// empty where the record's link is not.
pub proof fn held_link_is_handed_out(
    number: EpisodeNumber,
    episode: PkaEpisode,
    link: Result<String, ApiError>,
)
    requires
        episode.number == number,
        episode.youtube_link@.len() > 0,
        is_link_of(number, Ok(episode), link),
    ensures
        link matches Ok(text) && text@.len() > 0,
{
}

} // verus!
