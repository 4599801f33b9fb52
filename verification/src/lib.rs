//! A virtual pet that lives in a source repository and feeds on commits.
//!
//! The pet's state is plain data ([`state`]). What a commit or the mere passing
//! of time does to it is written down once as mathematics ([`rules`]) and the
//! executable transitions ([`game`]) are proved to compute exactly that.

pub mod art;
pub mod game;
pub mod laws;
pub mod rules;
pub mod state;
pub mod time;
