//! Reddit 'things': subreddits, posts, comments, and the feeds that page
//! through them.
use crate::feed::{
    accept_spec, drain, lemma_feed_yields_pages_in_order, page_model, FeedBuffer, PageModel,
};
use crate::raw::{Empty, RawCommentData, RawKind, RawListing, RawPostData};
use crate::reddit::{ApiError, Result, URL};
use crate::text::{i64_decimal, int_decimal, pair_view};
use std::collections::VecDeque;
use vstd::prelude::*;
use vstd::string::*;

verus! {

/// Page size a new feed asks for: the most the API hands out at once.
pub const DEFAULT_LIMIT: i32 = 100;

/// A handle to a subreddit (or to the front page).
#[derive(Debug)]
pub struct Subreddit {
    pub name: String,
    pub url: String,
}

impl Subreddit {
    /// The subreddit called `name`.
    pub fn create(name: &str) -> (r: Self)
        ensures
            r.name@ == name@,
            r.url@ == URL@ + "/r/"@ + name@,
    {
        Subreddit {
            name: String::from_str(name),
            url: String::from_str(URL).concat("/r/").concat(name),
        }
    }

    /// The front page, which lists posts from all subscribed subreddits.
    pub fn frontpage() -> (r: Self)
        ensures
            r.name@ == "frontpage"@,
            r.url@ == URL@,
    {
        Subreddit { name: String::from_str("frontpage"), url: String::from_str(URL) }
    }

    pub fn hot(&self) -> (r: PostFeed)
        ensures
            r.is_fresh(self.url@ + "/"@ + "hot"@),
            r.limit == DEFAULT_LIMIT,
    {
        self.posts_sorted("hot")
    }

    pub fn new(&self) -> (r: PostFeed)
        ensures
            r.is_fresh(self.url@ + "/"@ + "new"@),
            r.limit == DEFAULT_LIMIT,
    {
        self.posts_sorted("new")
    }

    pub fn random(&self) -> (r: PostFeed)
        ensures
            r.is_fresh(self.url@ + "/"@ + "random"@),
            r.limit == DEFAULT_LIMIT,
    {
        self.posts_sorted("random")
    }

    pub fn rising(&self) -> (r: PostFeed)
        ensures
            r.is_fresh(self.url@ + "/"@ + "rising"@),
            r.limit == DEFAULT_LIMIT,
    {
        self.posts_sorted("rising")
    }

    pub fn top(&self) -> (r: PostFeed)
        ensures
            r.is_fresh(self.url@ + "/"@ + "top"@),
            r.limit == DEFAULT_LIMIT,
    {
        self.posts_sorted("top")
    }

    pub fn best(&self) -> (r: PostFeed)
        ensures
            r.is_fresh(self.url@ + "/"@ + "best"@),
            r.limit == DEFAULT_LIMIT,
    {
        self.posts_sorted("best")
    }

    fn posts_sorted(&self, sort: &str) -> (r: PostFeed)
        ensures
            r.is_fresh(self.url@ + "/"@ + sort@),
            r.limit == DEFAULT_LIMIT,
    {
        PostFeed {
            limit: DEFAULT_LIMIT,
            url: self.url.clone().concat("/").concat(sort),
            buffer: FeedBuffer::new(),
        }
    }
}

/// A post.
#[derive(Debug)]
pub struct Post {
    pub title: String,
    /// Upvotes minus downvotes.
    pub score: i32,
    /// The linked page, or the post's own comment page for a self post.
    pub url: String,
    pub author: String,
    /// The text of a self post; none for a link.
    pub selftext: Option<String>,
    /// The name of the subreddit the post belongs to.
    pub subreddit: String,
    pub num_comments: u32,
    pub is_self: bool,
    /// Marked over 18.
    pub nsfw: bool,
    /// The post's base-36 id.
    pub id: String,
    /// The kind tag the server gave the record (`t3` for posts).
    pub kind: String,
}

impl Clone for Post {
    fn clone(&self) -> (r: Self)
        ensures
            r == *self,
    {
        Post {
            title: self.title.clone(),
            score: self.score,
            url: self.url.clone(),
            author: self.author.clone(),
            selftext: match &self.selftext {
                Some(t) => Some(t.clone()),
                None => None,
            },
            subreddit: self.subreddit.clone(),
            num_comments: self.num_comments,
            is_self: self.is_self,
            nsfw: self.nsfw,
            id: self.id.clone(),
            kind: self.kind.clone(),
        }
    }
}

/// The post a raw record describes: the text is kept only for a self post,
/// and the kind tag and id are kept as the server gave them.
pub open spec fn post_of(raw: RawKind<RawPostData>) -> Post {
    Post {
        title: raw.data.title,
        score: raw.data.score,
        url: raw.data.url,
        author: raw.data.author,
        selftext: if raw.data.is_self {
            Some(raw.data.selftext)
        } else {
            None
        },
        subreddit: raw.data.subreddit,
        num_comments: raw.data.num_comments,
        is_self: raw.data.is_self,
        nsfw: raw.data.nsfw,
        id: raw.data.id,
        kind: raw.kind,
    }
}

impl From<RawKind<RawPostData>> for Post {
    fn from(raw: RawKind<RawPostData>) -> (r: Self)
        ensures
            r == post_of(raw),
    {
        let selftext = if raw.data.is_self {
            Some(raw.data.selftext)
        } else {
            None
        };
        Post {
            title: raw.data.title,
            score: raw.data.score,
            url: raw.data.url,
            author: raw.data.author,
            selftext,
            subreddit: raw.data.subreddit,
            num_comments: raw.data.num_comments,
            is_self: raw.data.is_self,
            nsfw: raw.data.nsfw,
            id: raw.data.id,
            kind: raw.kind,
        }
    }
}

impl vstd::std_specs::convert::FromSpecImpl<RawKind<RawPostData>> for Post {
    open spec fn obeys_from_spec() -> bool {
        true
    }

    open spec fn from_spec(raw: RawKind<RawPostData>) -> Post {
        post_of(raw)
    }
}

pub open spec fn fullname_spec(post: Post) -> Seq<char> {
    post.kind@ + post.id@
}

/// The full name of the post a record maps to is the record's kind tag
/// followed by its id, exactly as the server sent them.
pub proof fn lemma_fullname_of_record(raw: RawKind<RawPostData>)
    ensures
        fullname_spec(post_of(raw)) == raw.kind@ + raw.data.id@,
{
}

pub open spec fn comments_url_spec(subreddit: Seq<char>, id: Seq<char>) -> Seq<char> {
    URL@ + "/r/"@ + subreddit + "/comments/"@ + id
}

impl Post {
    /// The post's full name: its kind tag followed by its id, as given.
    pub fn fullname(&self) -> (r: String)
        ensures
            r@ == fullname_spec(*self),
    {
        self.kind.clone().concat(self.id.as_str())
    }

    /// The comments under this post. Builds the feed only; nothing is
    /// fetched until it is pulled.
    pub fn comments(&self) -> (r: CommentFeed)
        ensures
            r.is_fresh(comments_url_spec(self.subreddit@, self.id@)),
            r.limit == DEFAULT_LIMIT,
    {
        let url = String::from_str(URL).concat("/r/").concat(self.subreddit.as_str()).concat(
            "/comments/",
        ).concat(self.id.as_str());
        CommentFeed { limit: DEFAULT_LIMIT, url, buffer: FeedBuffer::new() }
    }
}

/// The query of a page request: the page size and the cursor.
pub open spec fn page_query_spec(limit: i32, cursor: Seq<char>) -> Seq<(Seq<char>, Seq<char>)> {
    seq![("limit"@, int_decimal(limit as int)), ("after"@, cursor)]
}

fn page_query(limit: i32, cursor: &str) -> (r: Vec<(String, String)>)
    ensures
        r@.map_values(|p: (String, String)| pair_view(p)) == page_query_spec(limit, cursor@),
{
    let mut r = Vec::new();
    r.push((String::from_str("limit"), i64_decimal(limit as i64)));
    r.push((String::from_str("after"), String::from_str(cursor)));
    assert(r@.map_values(|p: (String, String)| pair_view(p)) =~= page_query_spec(limit, cursor@));
    r
}

/// The posts of a listing, one after the other. Each pull hands out the next
/// fetched post; when none is left, the caller fetches the next page (see
/// `url` and `query`) and hands the outcome to `receive`.
#[derive(Debug)]
pub struct PostFeed {
    /// How many posts to ask for per page. It bounds one request, not the
    /// feed: the feed asks for more pages as long as they come.
    pub limit: i32,
    /// The listing the pages come from.
    pub url: String,
    /// The cursor and the posts fetched and not yet handed out.
    pub buffer: FeedBuffer<Post>,
}

/// Listings as the feed sees them: each page's declared cursor, and its
/// records mapped to posts.
pub open spec fn post_pages(pages: Seq<RawListing<RawKind<RawPostData>>>) -> Seq<PageModel<Post>> {
    pages.map_values(
        |l: RawListing<RawKind<RawPostData>>|
            page_model(
                l.data.pagination.after,
                l.data.children@.map_values(|c: RawKind<RawPostData>| post_of(c)),
            ),
    )
}

/// A post feed served listings that each declare a non-empty next cursor, up
/// to a final empty listing, hands out exactly the posts of those listings,
/// concatenated in server order, and then ends (see `PostFeed::pull_all`,
/// which pulls a feed as a caller does and is held to `drain`).
pub proof fn lemma_post_feed_yields_listings_in_order(
    cursor: Seq<char>,
    pages: Seq<RawListing<RawKind<RawPostData>>>,
)
    requires
        pages.len() > 0,
        forall|i: int|
            0 <= i < pages.len() - 1 ==> (#[trigger] pages[i]).data.children@.len() > 0 && (
            pages[i].data.pagination.after matches Some(a) && a@.len() > 0),
        pages[pages.len() - 1].data.children@.len() == 0,
    ensures
        drain(cursor, Seq::empty(), post_pages(pages)).yielded == pages.map_values(
            |l: RawListing<RawKind<RawPostData>>|
                l.data.children@.map_values(|c: RawKind<RawPostData>| post_of(c)),
        ).flatten(),
        drain(cursor, Seq::empty(), post_pages(pages)).ended,
{
    let models = post_pages(pages);
    assert forall|i: int| 0 <= i < models.len() - 1 implies (#[trigger] models[i]).items.len() > 0
        && (models[i].after matches Some(a) && a.len() > 0) by {
        assert(pages[i].data.children@.len() > 0);
    }
    lemma_feed_yields_pages_in_order(cursor, models);
    assert(models.map_values(|p: PageModel<Post>| p.items) =~= pages.map_values(
        |l: RawListing<RawKind<RawPostData>>|
            l.data.children@.map_values(|c: RawKind<RawPostData>| post_of(c)),
    ));
}

/// What `PostFeed::receive` does, stated over the feed before and after:
/// the url and page size stay; a failure is handed out and changes nothing
/// else; a page is taken in as `accept_spec` says, its records mapped by
/// `post_of`.
pub open spec fn post_feed_receives(
    before: PostFeed,
    page: Result<RawListing<RawKind<RawPostData>>>,
    after: PostFeed,
    r: Option<Result<Post>>,
) -> bool {
    &&& after.url == before.url
    &&& after.limit == before.limit
    &&& match page {
        Err(e) => r == Some(Err::<Post, ApiError>(e)) && after.cursor() == before.cursor()
            && after.pending() == before.pending(),
        Ok(listing) => {
            let (cursor, pending, item) = accept_spec(
                before.cursor(),
                page_model(
                    listing.data.pagination.after,
                    listing.data.children@.map_values(|c: RawKind<RawPostData>| post_of(c)),
                ),
            );
            &&& after.cursor() == cursor
            &&& after.pending() == pending
            &&& r == match item {
                Some(p) => Some(Ok::<Post, ApiError>(p)),
                None => None,
            }
        },
    }
}

/// A page fetch that fails leaves the feed where it was: the next request
/// goes out with the same page size and cursor, and a page taken in after
/// the failure gives exactly what it would have given without it.
pub proof fn lemma_failed_fetch_resumes(
    feed: PostFeed,
    error: ApiError,
    failed: PostFeed,
    r: Option<Result<Post>>,
    listing: RawListing<RawKind<RawPostData>>,
    next: PostFeed,
    item: Option<Result<Post>>,
)
    requires
        post_feed_receives(feed, Err(error), failed, r),
    ensures
        r == Some(Err::<Post, ApiError>(error)),
        page_query_spec(failed.limit, failed.cursor()) == page_query_spec(feed.limit, feed.cursor()),
        failed.url == feed.url,
        failed.pending() == feed.pending(),
        post_feed_receives(failed, Ok(listing), next, item) <==> post_feed_receives(
            feed,
            Ok(listing),
            next,
            item,
        ),
{
}

impl PostFeed {
    /// The cursor sent with the next page request.
    pub open spec fn cursor(&self) -> Seq<char> {
        self.buffer.cursor()
    }

    /// The posts fetched and not yet handed out, in server order.
    pub open spec fn pending(&self) -> Seq<Post> {
        self.buffer.pending()
    }

    /// A feed of the listing at `url`, at its first page, with nothing
    /// pending.
    pub open spec fn is_fresh(&self, url: Seq<char>) -> bool {
        &&& self.url@ == url
        &&& self.cursor() == Seq::<char>::empty()
        &&& self.pending() == Seq::<Post>::empty()
    }

    pub fn url(&self) -> (r: &str)
        ensures
            r@ == self.url@,
    {
        self.url.as_str()
    }

    /// The query of the next page request.
    pub fn query(&self) -> (r: Vec<(String, String)>)
        ensures
            r@.map_values(|p: (String, String)| pair_view(p)) == page_query_spec(
                self.limit,
                self.cursor(),
            ),
    {
        page_query(self.limit, self.buffer.after())
    }

    /// Hands out the next fetched post, if one is left; none means that the
    /// next page must be fetched.
    pub fn next_cached(&mut self) -> (r: Option<Post>)
        ensures
            final(self).url@ == old(self).url@,
            final(self).limit == old(self).limit,
            final(self).cursor() == old(self).cursor(),
            old(self).pending().len() > 0 ==> r == Some(old(self).pending()[0])
                && final(self).pending() == old(self).pending().drop_first(),
            old(self).pending().len() == 0 ==> r is None && final(self).pending() == old(
                self,
            ).pending(),
    {
        self.buffer.pop()
    }

    /// Takes in the outcome of fetching the next page. A page moves the
    /// cursor to the one it declares (if any), keeps its posts pending, and
    /// hands out the first; an empty page hands out nothing, which ends the
    /// feed. A failure is handed out as it is and leaves the feed untouched,
    /// so the same page can be fetched again.
    pub fn receive(&mut self, page: Result<RawListing<RawKind<RawPostData>>>) -> (r: Option<
        Result<Post>,
    >)
        requires
            old(self).pending().len() == 0,
        ensures
            post_feed_receives(*old(self), page, *final(self), r),
    {
        match page {
            Err(e) => Some(Err(e)),
            Ok(listing) => {
                let ghost children = listing.data.children@;
                let mut raws = listing.data.children;
                let mut reversed: Vec<Post> = Vec::new();
                let n = raws.len();
                while raws.len() > 0
                    invariant
                        n == children.len(),
                        raws@ == children.take(raws@.len() as int),
                        raws@.len() + reversed@.len() == n,
                        forall|j: int|
                            0 <= j < reversed@.len() ==> #[trigger] reversed@[j] == post_of(
                                children[n - 1 - j],
                            ),
                    decreases raws@.len(),
                {
                    let raw = raws.pop().unwrap();
                    reversed.push(Post::from(raw));
                    assert(raws@ =~= children.take(raws@.len() as int));
                }
                assert(reversed@.reverse() =~= children.map_values(|c: RawKind<RawPostData>| post_of(c)));
                match self.buffer.accept_reversed(listing.data.pagination.after, reversed) {
                    Some(x) => Some(Ok(x)),
                    None => None,
                }
            },
        }
    }
    /// Pulls the feed until it ends, serving `pages` in order whenever the
    /// next page is needed, with `next_cached` and `receive` as a caller
    /// does. Returns the posts handed out, and whether an empty page ended
    /// the feed (rather than the pages running out).
    pub fn pull_all(&mut self, pages: VecDeque<RawListing<RawKind<RawPostData>>>) -> (r: (
        Vec<Post>,
        bool,
    ))
        ensures
            r.0@ == drain(old(self).cursor(), old(self).pending(), post_pages(pages@)).yielded,
            r.1 == drain(old(self).cursor(), old(self).pending(), post_pages(pages@)).ended,
    {
        let ghost start = drain(self.cursor(), self.pending(), post_pages(pages@));
        let mut queue = pages;
        let mut out: Vec<Post> = Vec::new();
        loop
            invariant
                start == drain(old(self).cursor(), old(self).pending(), post_pages(pages@)),
                out@ + drain(self.cursor(), self.pending(), post_pages(queue@)).yielded
                    == start.yielded,
                drain(self.cursor(), self.pending(), post_pages(queue@)).ended == start.ended,
            decreases queue@.len(), self.pending().len(),
        {
            let ghost cursor = self.cursor();
            let ghost pending = self.pending();
            let ghost models = post_pages(queue@);
            match self.next_cached() {
                Some(p) => {
                    assert(out@.push(p) + drain(cursor, pending.drop_first(), models).yielded
                        =~= out@ + drain(cursor, pending, models).yielded);
                    out.push(p);
                },
                None => {
                    match queue.pop_front() {
                        None => {
                            assert(out@ =~= start.yielded);
                            return (out, false);
                        },
                        Some(page) => {
                            assert(post_pages(queue@) =~= models.drop_first());
                            match self.receive(Ok(page)) {
                                Some(Ok(p)) => {
                                    assert(out@.push(p) + drain(
                                        self.cursor(),
                                        self.pending(),
                                        post_pages(queue@),
                                    ).yielded =~= out@ + drain(cursor, pending, models).yielded);
                                    out.push(p);
                                },
                                Some(Err(_)) => {
                                    assert(false);
                                    return (out, false);
                                },
                                None => {
                                    assert(out@ =~= start.yielded);
                                    return (out, true);
                                },
                            }
                        },
                    }
                },
            }
        }
    }
}

/// A comment.
#[derive(Debug)]
pub struct Comment {
    pub body: String,
    pub id: String,
}

pub open spec fn comment_of(raw: RawKind<RawCommentData>) -> Comment {
    Comment { body: raw.data.body, id: raw.data.id }
}

impl From<RawKind<RawCommentData>> for Comment {
    fn from(raw: RawKind<RawCommentData>) -> (r: Self)
        ensures
            r == comment_of(raw),
    {
        Comment { id: raw.data.id, body: raw.data.body }
    }
}

impl vstd::std_specs::convert::FromSpecImpl<RawKind<RawCommentData>> for Comment {
    open spec fn obeys_from_spec() -> bool {
        true
    }

    open spec fn from_spec(raw: RawKind<RawCommentData>) -> Comment {
        comment_of(raw)
    }
}

/// The comments under a post, one after the other, paged like `PostFeed`.
#[derive(Debug)]
pub struct CommentFeed {
    /// How many comments to ask for per page.
    pub limit: i32,
    /// The comment page of the post.
    pub url: String,
    /// The cursor and the comments fetched and not yet handed out.
    pub buffer: FeedBuffer<Comment>,
}

impl CommentFeed {
    /// The cursor sent with the next page request.
    pub open spec fn cursor(&self) -> Seq<char> {
        self.buffer.cursor()
    }

    /// The comments fetched and not yet handed out, in server order.
    pub open spec fn pending(&self) -> Seq<Comment> {
        self.buffer.pending()
    }

    pub open spec fn is_fresh(&self, url: Seq<char>) -> bool {
        &&& self.url@ == url
        &&& self.cursor() == Seq::<char>::empty()
        &&& self.pending() == Seq::<Comment>::empty()
    }

    pub fn url(&self) -> (r: &str)
        ensures
            r@ == self.url@,
    {
        self.url.as_str()
    }

    /// The query of the next page request.
    pub fn query(&self) -> (r: Vec<(String, String)>)
        ensures
            r@.map_values(|p: (String, String)| pair_view(p)) == page_query_spec(
                self.limit,
                self.cursor(),
            ),
    {
        page_query(self.limit, self.buffer.after())
    }

    /// Hands out the next fetched comment, if one is left; none means that
    /// the next page must be fetched.
    pub fn next_cached(&mut self) -> (r: Option<Comment>)
        ensures
            final(self).url@ == old(self).url@,
            final(self).limit == old(self).limit,
            final(self).cursor() == old(self).cursor(),
            old(self).pending().len() > 0 ==> r == Some(old(self).pending()[0])
                && final(self).pending() == old(self).pending().drop_first(),
            old(self).pending().len() == 0 ==> r is None && final(self).pending() == old(
                self,
            ).pending(),
    {
        self.buffer.pop()
    }

    /// Takes in the outcome of fetching the next page. The response holds two
    /// listings: the post itself, discarded unread, and then its comments,
    /// which are taken in as `PostFeed::receive` takes in posts.
    pub fn receive(&mut self, page: Result<(Empty, RawListing<RawKind<RawCommentData>>)>) -> (r:
        Option<Result<Comment>>)
        requires
            old(self).pending().len() == 0,
        ensures
            final(self).url@ == old(self).url@,
            final(self).limit == old(self).limit,
            match page {
                Err(e) => r == Some(Err::<Comment, ApiError>(e)) && final(self).cursor() == old(
                    self,
                ).cursor() && final(self).pending() == old(self).pending(),
                Ok((_, listing)) => {
                    let (cursor, pending, item) = accept_spec(
                        old(self).cursor(),
                        page_model(
                            listing.data.pagination.after,
                            listing.data.children@.map_values(
                                |c: RawKind<RawCommentData>| comment_of(c),
                            ),
                        ),
                    );
                    &&& final(self).cursor() == cursor
                    &&& final(self).pending() == pending
                    &&& r == match item {
                        Some(c) => Some(Ok::<Comment, ApiError>(c)),
                        None => None,
                    }
                },
            },
    {
        match page {
            Err(e) => Some(Err(e)),
            Ok((_, listing)) => {
                let ghost children = listing.data.children@;
                let mut raws = listing.data.children;
                let mut reversed: Vec<Comment> = Vec::new();
                let n = raws.len();
                while raws.len() > 0
                    invariant
                        n == children.len(),
                        raws@ == children.take(raws@.len() as int),
                        raws@.len() + reversed@.len() == n,
                        forall|j: int|
                            0 <= j < reversed@.len() ==> #[trigger] reversed@[j] == comment_of(
                                children[n - 1 - j],
                            ),
                    decreases raws@.len(),
                {
                    let raw = raws.pop().unwrap();
                    reversed.push(Comment::from(raw));
                    assert(raws@ =~= children.take(raws@.len() as int));
                }
                assert(reversed@.reverse() =~= children.map_values(|c: RawKind<RawCommentData>| comment_of(c)));
                match self.buffer.accept_reversed(listing.data.pagination.after, reversed) {
                    Some(x) => Some(Ok(x)),
                    None => None,
                }
            },
        }
    }
}

/// Information about the authenticated account.
#[derive(Debug)]
pub struct Me {
    pub name: String,
    pub total_karma: i32,
    pub link_karma: i32,
    pub comment_karma: i32,
    pub verified: bool,
}

/// What a `Result<Option<T>>` reads as an item of a feed: a value is an
/// item, nothing is the end, an error is handed out as an item.
pub open spec fn transposed<T>(v: Result<Option<T>>) -> Option<Result<T>> {
    match v {
        Ok(Some(x)) => Some(Ok(x)),
        Ok(None) => None,
        Err(e) => Some(Err(e)),
    }
}

/// Falls back to a fallible computation of the next item.
pub trait Transpose<T>: Sized {
    /// `self` when it holds something; else what `f` computes, with its
    /// `Result` and `Option` swapped.
    fn or_else_transpose<F: FnOnce() -> Result<Option<T>>>(self, f: F) -> (r: Option<Result<T>>)
        requires
            f.requires(()),
    ;
}

impl<T> Transpose<T> for Option<Result<T>> {
    fn or_else_transpose<F: FnOnce() -> Result<Option<T>>>(self, f: F) -> (r: Option<Result<T>>)
        ensures
            self is Some ==> r == self,
            self is None ==> exists|v: Result<Option<T>>| f.ensures((), v) && r == transposed(v),
    {
        match self {
            Some(x) => Some(x),
            None => {
                let v = f();
                let ghost seen = v;
                let r = match v {
                    Ok(Some(x)) => Some(Ok(x)),
                    Ok(None) => None,
                    Err(e) => Some(Err(e)),
                };
                assert(f.ensures((), seen) && r == transposed(seen));
                r
            },
        }
    }
}

} // verus!
