use snew::raw::{
    Empty, Pagination, RawCommentData, RawKind, RawListing, RawListingData, RawPostData,
};
use snew::reddit::ApiError;
use snew::things::{Comment, Post, PostFeed, Subreddit, Transpose};

fn raw_post(id: &str, title: &str) -> RawKind<RawPostData> {
    RawKind {
        kind: String::from("t3"),
        data: RawPostData {
            title: String::from(title),
            score: 10,
            url: format!("https://example.com/{}", id),
            author: String::from("someone"),
            subreddit: String::from("rust"),
            selftext: String::from("body text"),
            num_comments: 3,
            is_self: false,
            nsfw: false,
            id: String::from(id),
        },
    }
}

fn page(after: Option<&str>, ids: &[&str]) -> RawListing<RawKind<RawPostData>> {
    RawListing {
        data: RawListingData {
            pagination: Pagination { after: after.map(String::from), before: None },
            children: ids.iter().map(|id| raw_post(id, &format!("post {}", id))).collect(),
        },
    }
}

fn query_of(feed: &PostFeed) -> Vec<(String, String)> {
    feed.query()
}

fn pair(k: &str, v: &str) -> (String, String) {
    (String::from(k), String::from(v))
}

/// Pulls one item, fetching from `server` (counting the fetches and
/// recording each query) when nothing is pending.
fn pull(
    feed: &mut PostFeed,
    server: &mut Vec<RawListing<RawKind<RawPostData>>>,
    queries: &mut Vec<Vec<(String, String)>>,
) -> Option<Result<Post, ApiError>> {
    if let Some(p) = feed.next_cached() {
        return Some(Ok(p));
    }
    queries.push(query_of(feed));
    let next = server.remove(0);
    feed.receive(Ok(next))
}

#[test]
fn page_size_two_yields_three_posts_in_two_fetches() {
    let mut feed = Subreddit::create("rust").hot();
    feed.limit = 2;
    let mut server = vec![page(Some("c1"), &["A", "B"]), page(None, &["C"]), page(None, &[])];
    let mut queries = Vec::new();
    let mut ids = Vec::new();
    for _ in 0..3 {
        let post = pull(&mut feed, &mut server, &mut queries).unwrap().unwrap();
        ids.push(post.id);
    }
    assert_eq!(ids, vec!["A", "B", "C"]);
    assert_eq!(queries.len(), 2);
    assert!(pull(&mut feed, &mut server, &mut queries).is_none());
    assert_eq!(queries.len(), 3);
    assert_eq!(queries[0], vec![pair("limit", "2"), pair("after", "")]);
    assert_eq!(queries[1], vec![pair("limit", "2"), pair("after", "c1")]);
    assert_eq!(queries[2], vec![pair("limit", "2"), pair("after", "c1")]);
}

#[test]
fn pages_concatenate_in_order_until_an_empty_page() {
    let mut feed = Subreddit::create("rust").new();
    let mut server = vec![
        page(Some("x1"), &["1", "2", "3"]),
        page(Some("x2"), &["4"]),
        page(Some("x3"), &["5", "6"]),
        page(None, &[]),
    ];
    let mut queries = Vec::new();
    let mut ids = Vec::new();
    while let Some(item) = pull(&mut feed, &mut server, &mut queries) {
        ids.push(item.unwrap().id);
    }
    assert_eq!(ids, vec!["1", "2", "3", "4", "5", "6"]);
    let afters: Vec<String> = queries.iter().map(|q| q[1].1.clone()).collect();
    assert_eq!(afters, vec!["", "x1", "x2", "x3"]);
    assert!(queries.iter().all(|q| q[0] == pair("limit", "100")));
}

#[test]
fn failed_page_leaves_cursor_and_resumes() {
    let mut feed = Subreddit::create("rust").top();
    feed.limit = 2;
    assert!(feed.next_cached().is_none());
    let first = feed.receive(Ok(page(Some("c1"), &["A"]))).unwrap().unwrap();
    assert_eq!(first.id, "A");
    assert!(feed.next_cached().is_none());
    let parse_error = serde_json::from_str::<u8>("not json").unwrap_err();
    let failed = feed.receive(Err(ApiError::APIParseError(parse_error)));
    assert!(matches!(failed, Some(Err(ApiError::APIParseError(_)))));
    assert_eq!(feed.query(), vec![pair("limit", "2"), pair("after", "c1")]);
    assert!(feed.next_cached().is_none());
    let resumed = feed.receive(Ok(page(Some("c2"), &["B", "C"]))).unwrap().unwrap();
    assert_eq!(resumed.id, "B");
    assert_eq!(feed.next_cached().unwrap().id, "C");
    assert_eq!(feed.query(), vec![pair("limit", "2"), pair("after", "c2")]);
}

#[test]
fn page_without_cursor_keeps_the_last_one() {
    let mut feed = Subreddit::create("rust").rising();
    feed.receive(Ok(page(Some("k"), &["A"]))).unwrap().unwrap();
    feed.receive(Ok(page(None, &["B"]))).unwrap().unwrap();
    assert_eq!(feed.query()[1], pair("after", "k"));
}

#[test]
fn empty_first_page_ends_the_feed() {
    let mut feed = Subreddit::create("rust").best();
    assert!(feed.receive(Ok(page(None, &[]))).is_none());
    assert!(feed.next_cached().is_none());
}

#[test]
fn negative_limit_is_sent_as_written() {
    let mut feed = Subreddit::create("rust").random();
    feed.limit = -3;
    assert_eq!(feed.query()[0], pair("limit", "-3"));
}

#[test]
fn post_identity_is_kind_and_id_as_given() {
    let mut raw = raw_post("AbC_9", "t");
    raw.kind = String::from("t3");
    let post = Post::from(raw);
    assert_eq!(post.kind, "t3");
    assert_eq!(post.id, "AbC_9");
    assert_eq!(post.fullname(), "t3AbC_9");
}

#[test]
fn link_post_drops_its_text() {
    let post = Post::from(raw_post("a", "link"));
    assert_eq!(post.selftext, None);
    assert!(!post.is_self);
    assert_eq!(post.title, "link");
    assert_eq!(post.score, 10);
    assert_eq!(post.url, "https://example.com/a");
    assert_eq!(post.author, "someone");
    assert_eq!(post.subreddit, "rust");
    assert_eq!(post.num_comments, 3);
    assert!(!post.nsfw);
}

#[test]
fn self_post_keeps_its_text() {
    let mut raw = raw_post("a", "self");
    raw.data.is_self = true;
    let post = Post::from(raw);
    assert_eq!(post.selftext.as_deref(), Some("body text"));
    let copy = post.clone();
    assert_eq!(copy.selftext, post.selftext);
    assert_eq!(copy.id, post.id);
}

#[test]
fn subreddit_and_feed_urls() {
    let sub = Subreddit::create("rust");
    assert_eq!(sub.name, "rust");
    assert_eq!(sub.url, "https://oauth.reddit.com/r/rust");
    assert_eq!(sub.hot().url(), "https://oauth.reddit.com/r/rust/hot");
    assert_eq!(sub.new().url(), "https://oauth.reddit.com/r/rust/new");
    assert_eq!(sub.random().url(), "https://oauth.reddit.com/r/rust/random");
    assert_eq!(sub.rising().url(), "https://oauth.reddit.com/r/rust/rising");
    assert_eq!(sub.top().url(), "https://oauth.reddit.com/r/rust/top");
    assert_eq!(sub.best().url(), "https://oauth.reddit.com/r/rust/best");
    assert_eq!(sub.hot().limit, 100);
    let front = Subreddit::frontpage();
    assert_eq!(front.name, "frontpage");
    assert_eq!(front.best().url(), "https://oauth.reddit.com/best");
}

fn raw_comment(id: &str, body: &str) -> RawKind<RawCommentData> {
    RawKind {
        kind: String::from("t1"),
        data: RawCommentData { body: String::from(body), id: String::from(id) },
    }
}

#[test]
fn comment_feed_reads_the_second_listing() {
    let post = Post::from(raw_post("p1", "t"));
    let mut feed = post.comments();
    assert_eq!(feed.url(), "https://oauth.reddit.com/r/rust/comments/p1");
    assert_eq!(feed.query(), vec![pair("limit", "100"), pair("after", "")]);
    let listing = RawListing {
        data: RawListingData {
            pagination: Pagination { after: None, before: None },
            children: vec![raw_comment("c1", "first"), raw_comment("c2", "second")],
        },
    };
    let first = feed.receive(Ok((Empty {}, listing))).unwrap().unwrap();
    assert_eq!(first.body, "first");
    assert_eq!(first.id, "c1");
    let second: Comment = feed.next_cached().unwrap();
    assert_eq!(second.body, "second");
    assert!(feed.next_cached().is_none());
    let parse_error = serde_json::from_str::<u8>("[").unwrap_err();
    assert!(matches!(
        feed.receive(Err(ApiError::APIParseError(parse_error))),
        Some(Err(ApiError::APIParseError(_)))
    ));
}

#[test]
fn transpose_prefers_what_is_there() {
    let there: Option<Result<u8, ApiError>> = Some(Ok(1));
    let r = there.or_else_transpose(|| Ok(Some(2)));
    assert!(matches!(r, Some(Ok(1))));
    let empty: Option<Result<u8, ApiError>> = None;
    assert!(matches!(empty.or_else_transpose(|| Ok(Some(2))), Some(Ok(2))));
    let empty: Option<Result<u8, ApiError>> = None;
    assert!(empty.or_else_transpose(|| Ok(None)).is_none());
    let empty: Option<Result<u8, ApiError>> = None;
    assert!(matches!(
        empty.or_else_transpose(|| Err(ApiError::NotLoggedInError)),
        Some(Err(ApiError::NotLoggedInError))
    ));
}

#[test]
fn pull_all_serves_pages_until_an_empty_one() {
    let mut feed = Subreddit::create("rust").hot();
    let pages = std::collections::VecDeque::from(vec![
        page(Some("c1"), &["A", "B"]),
        page(Some("c2"), &["C"]),
        page(None, &[]),
        page(None, &["never"]),
    ]);
    let (posts, ended) = feed.pull_all(pages);
    let ids: Vec<String> = posts.into_iter().map(|p| p.id).collect();
    assert_eq!(ids, vec!["A", "B", "C"]);
    assert!(ended);
    assert_eq!(feed.query()[1], pair("after", "c2"));
}

#[test]
fn pull_all_stops_when_pages_run_out() {
    let mut feed = Subreddit::create("rust").hot();
    let pages = std::collections::VecDeque::from(vec![page(Some("c1"), &["A"])]);
    let (posts, ended) = feed.pull_all(pages);
    assert_eq!(posts.len(), 1);
    assert!(!ended);
}
