//! A client for the Reddit API: OAuth2 authentication with transparent token
//! refresh, and lazy cursor-paginated feeds of posts and comments.
//!
//! The transport (HTTP, JSON decoding, the local redirect server of the code
//! flow) is driven by the caller; this crate decides what to request, how to
//! read each answer, and what state to keep between requests.
pub mod auth;
pub mod client;
pub mod content;
pub mod feed;
pub mod raw;
pub mod reddit;
pub mod text;
pub mod things;
