//! Verified core of the PostgreSQL experiments: the decisions that the
//! seeding programs and the HTTP handlers make around their database work.
//!
//! Everything that talks to PostgreSQL, to the network, to the clock or to a
//! random number generator lives in the program crate around this library;
//! this crate computes what is sent and what is answered.

pub mod db;
pub mod events;
pub mod movies;
pub mod seeds;
pub mod session;
pub mod sql;
pub mod text;
pub mod time;
pub mod users;
pub mod videos;

