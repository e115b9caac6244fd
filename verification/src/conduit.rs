//! The operations on episodes, each as the decisions that are made between the
//! lookups in the store.

pub mod pka_episode;
