//! Records as the API sends them, before they are mapped to the crate's own
//! types.
use vstd::prelude::*;

verus! {

/// The cursors around a page of a listing.
#[derive(Debug, Clone)]
pub struct Pagination {
    pub after: Option<String>,
    pub before: Option<String>,
}

/// A listing envelope: `{ data: { after, before, children } }`.
#[derive(Debug)]
pub struct RawListing<T> {
    pub data: RawListingData<T>,
}

#[derive(Debug)]
pub struct RawListingData<T> {
    pub pagination: Pagination,
    pub children: Vec<T>,
}

/// A record together with its kind tag: `{ kind, data }`.
#[derive(Debug)]
pub struct RawKind<T> {
    pub data: T,
    pub kind: String,
}

/// The fields of a post record that this crate reads.
#[derive(Debug)]
pub struct RawPostData {
    pub title: String,
    pub score: i32,
    pub url: String,
    pub author: String,
    pub subreddit: String,
    pub selftext: String,
    pub num_comments: u32,
    pub is_self: bool,
    pub nsfw: bool,
    pub id: String,
}

/// The fields of a comment record that this crate reads.
#[derive(Debug)]
pub struct RawCommentData {
    pub body: String,
    pub id: String,
}

/// A record whose content is discarded unread.
#[derive(Debug)]
pub struct Empty {}

} // verus!
