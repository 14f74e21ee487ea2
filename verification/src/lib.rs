//! Request handling and page state of a chat service with rooms.
//!
//! `routes::room` decides, for each room endpoint of the HTTP API, which
//! database query to run next and which reply to send.  `pages::chatroom`
//! and `pages::dashboard` hold the state of the two client pages and decide,
//! for each event, the next state and the side effect to perform.
//! Performing queries, network traffic and rendering is left to the caller.

pub mod pages;
pub mod response;
pub mod routes;
