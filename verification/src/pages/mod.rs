//! Client pages.

pub mod chatroom;
pub mod dashboard;
