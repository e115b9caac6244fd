//! The episode aggregation and selection core of the PKA index.
//!
//! The crate composes an episode, the details of its video and the events of
//! its timeline into one aggregate, picks the latest or a random episode number,
//! wraps what succeeded in an envelope, and turns every failure into a status
//! code and an error body for the client. Everything in it is verified.
//!
//! The crate performs no I/O. The store is asked by the caller: an operation
//! names the lookup that it needs as a [`store::StoreQuery`], the caller runs it
//! and hands the answer back as a [`store::StoreReply`], and the operation says
//! what comes next. The aggregation of one episode needs three lookups in turn
//! and is therefore a value of its own, [`conduit::pka_episode::FindWithAll`],
//! which [`conduit::pka_episode::find_with_all`] takes from one answer to the
//! next. The selection of a number and the lookup of a link need one answer
//! each and are plain functions of it.
//!
//! An episode number is held in thousandths, as an integer, so that numbers
//! compare exactly: see [`models::episode_number::EpisodeNumber`].

pub mod conduit;
pub mod error;
pub mod models;
pub mod status;
pub mod store;
