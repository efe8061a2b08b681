//! Client-side session and link management for a URL-shortener backend.
//!
//! The library holds the decisions of the client: how the stored session is
//! read, how a login is checked, which request each link operation sends,
//! how a reply is turned into a result, and how the forms are parsed. The
//! host performs what the decisions ask for (storage, dialogs, navigation,
//! HTTP) and hands back what happened.

pub mod client;
pub mod dto;
pub mod form;
pub mod host;
pub mod json;
pub mod laws;
pub mod number;
pub mod session;
pub mod text;
pub mod time;
pub mod views;
pub mod walk;
