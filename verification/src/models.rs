//! The records of the catalog and the shapes in which they are answered.

pub mod custom_path;
pub mod episode_number;
pub mod json_response;
pub mod pka_episode;
pub mod pka_episode_with_all;
pub mod pka_event;
pub mod pka_youtube_details;
pub mod sqlx_types;
