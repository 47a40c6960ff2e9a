//! The control surface: the requests that a controller sends, the answers it
//! gets, and the handlers that turn the one into the other.

pub mod client;
pub mod handlers;
pub mod requests;
pub mod responses;
