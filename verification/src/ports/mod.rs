//! Data and error shapes that cross the boundary to the two collaborators the
//! core consumes: the member directory and the loyalty store.

pub mod database;
pub mod member;
