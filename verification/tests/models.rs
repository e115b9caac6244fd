use pka_index_backend::models::custom_path::{
    CustomPath, PathErrorKind, PathRejection, PathRejectionKind,
};
use pka_index_backend::error::ApiError;
use pka_index_backend::models::episode_number::EpisodeNumber;
use pka_index_backend::models::json_response::JsonResponse;
use pka_index_backend::models::pka_episode::PkaEpisode;
use pka_index_backend::models::pka_episode_with_all::PkaEpisodeWithAll;
use pka_index_backend::models::pka_event::{all_belong_to, all_in_order, PkaEvent};
use pka_index_backend::models::pka_youtube_details::PkaYoutubeDetails;
use pka_index_backend::models::sqlx_types::SqliteI32;

fn event(id: &str, number: i64, timestamp: i32) -> PkaEvent {
    PkaEvent::new(
        id.to_string(),
        EpisodeNumber::from_thousandths(number),
        timestamp,
        format!("event {}", id),
        30,
        1_600_000_000,
    )
}

#[test]
fn success_wraps_the_data_with_status_200() {
    let response = JsonResponse::success(String::from("https://youtu.be/abc"));
    assert_eq!(response.status, 200);
    assert_eq!(response.data, "https://youtu.be/abc");
}

#[test]
fn with_status_keeps_the_status_given() {
    let response = JsonResponse::with_status(201, 7u32);
    assert_eq!(response.status, 201);
    assert_eq!(response.data, 7);
}

#[test]
fn episode_number_holds_thousandths() {
    let special = EpisodeNumber::from_thousandths(100_500);
    assert_eq!(special.thousandths, 100_500);
    assert_eq!(special, EpisodeNumber { thousandths: 100_500 });
    assert_ne!(special, EpisodeNumber::from_thousandths(100_000));
    assert_eq!(EpisodeNumber::from_thousandths(i64::MIN).thousandths, i64::MIN);
    assert_eq!(EpisodeNumber::from_thousandths(i64::MAX).thousandths, i64::MAX);
}

#[test]
fn zero_is_the_number_zero() {
    assert_eq!(EpisodeNumber::zero(), EpisodeNumber::from_thousandths(0));
}

#[test]
fn episode_keeps_its_fields() {
    let episode = PkaEpisode::new(
        EpisodeNumber::from_thousandths(100_500),
        "Special".to_string(),
        "https://youtu.be/special".to_string(),
        1_500_000_000,
    );
    assert_eq!(episode.number, EpisodeNumber::from_thousandths(100_500));
    assert_eq!(episode.name, "Special");
    assert_eq!(episode.youtube_link, "https://youtu.be/special");
    assert_eq!(episode.upload_date, 1_500_000_000);
}

#[test]
fn youtube_details_keep_their_fields() {
    let details = PkaYoutubeDetails::new(
        "dQw4w9WgXcQ".to_string(),
        EpisodeNumber::from_thousandths(7_000),
        "Episode 7".to_string(),
        14_400,
    );
    assert_eq!(details.video_id, "dQw4w9WgXcQ");
    assert_eq!(details.episode_number, EpisodeNumber::from_thousandths(7_000));
    assert_eq!(details.title, "Episode 7");
    assert_eq!(details.length_seconds, SqliteI32(14_400));
}

#[test]
fn event_keeps_its_fields() {
    let event = PkaEvent::new(
        "ev-1".to_string(),
        EpisodeNumber::from_thousandths(7_000),
        125,
        "A story".to_string(),
        90,
        1_600_000_000,
    );
    assert_eq!(event.event_id, "ev-1");
    assert_eq!(event.episode_number, EpisodeNumber::from_thousandths(7_000));
    assert_eq!(event.timestamp, SqliteI32(125));
    assert_eq!(event.description, "A story");
    assert_eq!(event.length_seconds, SqliteI32(90));
    assert_eq!(event.upload_date, 1_600_000_000);
}

#[test]
fn events_of_one_episode_all_belong_to_it() {
    let events = vec![event("a", 7_000, 10), event("b", 7_000, 5)];
    assert!(all_belong_to(&events, EpisodeNumber::from_thousandths(7_000)));
    assert!(!all_belong_to(&events, EpisodeNumber::from_thousandths(7_500)));
}

#[test]
fn one_foreign_event_is_noticed_wherever_it_stands() {
    let number = EpisodeNumber::from_thousandths(7_000);
    let first = vec![event("a", 8_000, 1), event("b", 7_000, 2), event("c", 7_000, 3)];
    let middle = vec![event("a", 7_000, 1), event("b", 8_000, 2), event("c", 7_000, 3)];
    let last = vec![event("a", 7_000, 1), event("b", 7_000, 2), event("c", 8_000, 3)];
    assert!(!all_belong_to(&first, number));
    assert!(!all_belong_to(&middle, number));
    assert!(!all_belong_to(&last, number));
}

#[test]
fn no_events_belong_to_every_episode_and_are_in_order() {
    let events: Vec<PkaEvent> = Vec::new();
    assert!(all_belong_to(&events, EpisodeNumber::from_thousandths(1)));
    assert!(all_in_order(&events));
}

#[test]
fn events_in_order_may_start_together() {
    let events = vec![event("a", 1, -5), event("b", 1, 0), event("c", 1, 0), event("d", 1, 40)];
    assert!(all_in_order(&events));
    assert!(all_in_order(&vec![event("a", 1, 3)]));
}

#[test]
fn events_out_of_order_are_noticed_wherever_they_stand() {
    assert!(!all_in_order(&vec![event("a", 1, 2), event("b", 1, 1), event("c", 1, 3)]));
    assert!(!all_in_order(&vec![event("a", 1, 1), event("b", 1, 3), event("c", 1, 2)]));
    assert!(!all_in_order(&vec![event("a", 1, i32::MAX), event("b", 1, i32::MIN)]));
}

#[test]
fn aggregate_holds_its_three_parts() {
    let number = EpisodeNumber::from_thousandths(7_000);
    let episode = PkaEpisode::new(number, "Seven".to_string(), "https://youtu.be/7".to_string(), 1);
    let details = PkaYoutubeDetails::new("v7".to_string(), number, "Seven".to_string(), 3_600);
    let all = PkaEpisodeWithAll::new(episode, details, vec![event("a", 7_000, 1), event("b", 7_000, 2)]);
    assert_eq!(all.episode.number, number);
    assert_eq!(all.youtube_details.video_id, "v7");
    assert_eq!(all.events.len(), 2);
    assert_eq!(all.events[0].event_id, "a");
    assert_eq!(all.events[1].event_id, "b");
}

#[test]
fn extracted_value_becomes_a_custom_path() {
    let extracted: Result<i64, PathRejection> = Ok(100_500);
    match CustomPath::from_extraction(extracted) {
        Ok(CustomPath(value)) => assert_eq!(value, 100_500),
        Err(error) => panic!("unexpected error {:?}", error),
    }
}

#[test]
fn rejection_becomes_a_path_rejection_error() {
    let rejection = PathRejection {
        kind: PathRejectionKind::FailedToDeserializePathParams(PathErrorKind::ParseError),
        message: "Cannot parse `\"abc\"` to a `f32`".to_string(),
    };
    let extracted: Result<i64, PathRejection> = Err(rejection);
    match CustomPath::from_extraction(extracted) {
        Err(ApiError::PathRejection(held)) => {
            assert_eq!(
                held.kind,
                PathRejectionKind::FailedToDeserializePathParams(PathErrorKind::ParseError)
            );
            assert_eq!(held.message, "Cannot parse `\"abc\"` to a `f32`");
        }
        other => panic!("unexpected result {:?}", other),
    }
}

#[test]
fn published_episode_holds_all_but_the_link() {
    let episode = PkaEpisode::new(
        EpisodeNumber::from_thousandths(100_500),
        "Special".to_string(),
        "https://youtu.be/secret-link".to_string(),
        1_500_000_000,
    );
    let published = episode.publish();
    assert_eq!(published.number, EpisodeNumber::from_thousandths(100_500));
    assert_eq!(published.name, "Special");
    assert_eq!(published.upload_date, 1_500_000_000);
    assert!(!format!("{:?}", published).contains("secret-link"));
    assert_eq!(episode.youtube_link, "https://youtu.be/secret-link");
}

#[test]
fn published_details_hold_the_video() {
    let details = PkaYoutubeDetails::new(
        "dQw4w9WgXcQ".to_string(),
        EpisodeNumber::from_thousandths(7_000),
        "Episode 7".to_string(),
        14_400,
    );
    let published = details.publish();
    assert_eq!(published.video_id, "dQw4w9WgXcQ");
    assert_eq!(published.title, "Episode 7");
    assert_eq!(published.length_seconds, SqliteI32(14_400));
}

#[test]
fn published_event_holds_all_but_its_identifier() {
    let event = PkaEvent::new(
        "internal-id-17".to_string(),
        EpisodeNumber::from_thousandths(7_000),
        125,
        "A story".to_string(),
        90,
        1_600_000_000,
    );
    let published = event.publish();
    assert_eq!(published.timestamp, SqliteI32(125));
    assert_eq!(published.description, "A story");
    assert_eq!(published.length_seconds, SqliteI32(90));
    assert_eq!(published.upload_date, 1_600_000_000);
    assert!(!format!("{:?}", published).contains("internal-id-17"));
}

#[test]
fn published_aggregate_keeps_the_events_in_their_order() {
    let number = EpisodeNumber::from_thousandths(7_000);
    let episode =
        PkaEpisode::new(number, "Seven".to_string(), "https://youtu.be/secret-link".to_string(), 1);
    let details = PkaYoutubeDetails::new("v7".to_string(), number, "Seven".to_string(), 3_600);
    let events = vec![event("a", 7_000, 10), event("b", 7_000, 20), event("c", 7_000, 20)];
    let published = PkaEpisodeWithAll::new(episode, details, events).publish();
    assert_eq!(published.episode.number, number);
    assert_eq!(published.episode.name, "Seven");
    assert_eq!(published.youtube_details.video_id, "v7");
    let shown: Vec<(i32, &str)> = published
        .events
        .iter()
        .map(|event| (event.timestamp.0, event.description.as_str()))
        .collect();
    assert_eq!(shown, vec![(10, "event a"), (20, "event b"), (20, "event c")]);
    assert!(!format!("{:?}", published).contains("secret-link"));
}

#[test]
fn published_aggregate_without_events_has_none() {
    let number = EpisodeNumber::from_thousandths(1_000);
    let episode = PkaEpisode::new(number, "One".to_string(), "https://youtu.be/1".to_string(), 1);
    let details = PkaYoutubeDetails::new("v1".to_string(), number, "One".to_string(), 60);
    let published = PkaEpisodeWithAll::new(episode, details, Vec::new()).publish();
    assert!(published.events.is_empty());
}

#[test]
fn order_check_agrees_with_a_comparison_of_neighbours() {
    let mut seed = 5u64;
    for size in 0usize..40 {
        let mut stamps: Vec<i32> = Vec::new();
        for _ in 0..size {
            seed = seed.wrapping_mul(6_364_136_223_846_793_005).wrapping_add(1_442_695_040_888_963_407);
            stamps.push(((seed >> 40) % 7) as i32);
        }
        let shuffled: Vec<PkaEvent> = stamps.iter().map(|stamp| event("e", 1, *stamp)).collect();
        let expected = stamps.windows(2).all(|pair| pair[0] <= pair[1]);
        assert_eq!(all_in_order(&shuffled), expected);
        stamps.sort();
        let sorted: Vec<PkaEvent> = stamps.iter().map(|stamp| event("e", 1, *stamp)).collect();
        assert!(all_in_order(&sorted));
    }
}
