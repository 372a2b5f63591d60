//! A verified data-access layer for content posts and per-user likes.
//!
//! The store itself is modeled as a value of type [`db::Db`]: two tables,
//! one id counter per table, and the store clock. The two capability
//! contracts, [`crud::Crud`] for lifecycle operations and [`crud::Likeable`]
//! for vote records addressed by their composite key, are stated once,
//! generically, and implemented by the entity pairs in [`post`].

pub mod crud;
pub mod db;
pub mod laws;
pub mod post;
pub mod record;
