//! The state a lazy, cursor-paginated feed keeps between pulls: the cursor of
//! the next page, and the items of the current page not yet handed out.
use vstd::prelude::*;
use vstd::string::*;

verus! {

/// A page as a feed sees it: the cursor it declares for the next page, if
/// any, and its items in the order the server sent them.
pub struct PageModel<T> {
    pub after: Option<Seq<char>>,
    pub items: Seq<T>,
}

pub open spec fn page_model<T>(after: Option<String>, items: Seq<T>) -> PageModel<T> {
    PageModel {
        after: match after {
            Some(a) => Some(a@),
            None => None,
        },
        items,
    }
}

/// What a feed with nothing pending makes of a fetched page: the cursor it
/// keeps (the page's own, else the one it had), the items left pending, and
/// the item it hands out (none when the page is empty, which ends the feed).
pub open spec fn accept_spec<T>(cursor: Seq<char>, page: PageModel<T>) -> (Seq<char>, Seq<T>, Option<T>) {
    let next = match page.after {
        Some(a) => a,
        None => cursor,
    };
    if page.items.len() == 0 {
        (next, Seq::empty(), None)
    } else {
        (next, page.items.drop_first(), Some(page.items[0]))
    }
}

/// The cursor and pending items of a feed. Items are kept in reverse, so
/// that handing out the next one is a pop from the end.
#[derive(Debug)]
pub struct FeedBuffer<T> {
    after: String,
    cached: Vec<T>,
}

impl<T> FeedBuffer<T> {
    /// The cursor sent with the next page request.
    pub closed spec fn cursor(&self) -> Seq<char> {
        self.after@
    }

    /// The items fetched and not yet handed out, in the order they came.
    pub closed spec fn pending(&self) -> Seq<T> {
        self.cached@.reverse()
    }

    /// A feed at its first page, with nothing pending.
    pub fn new() -> (r: Self)
        ensures
            r.cursor() == Seq::<char>::empty(),
            r.pending() == Seq::<T>::empty(),
    {
        let r = FeedBuffer { after: String::new(), cached: Vec::new() };
        assert(r.pending() =~= Seq::<T>::empty());
        r
    }

    pub fn after(&self) -> (r: &str)
        ensures
            r@ == self.cursor(),
    {
        self.after.as_str()
    }

    /// Hands out the next pending item, if there is one.
    pub fn pop(&mut self) -> (r: Option<T>)
        ensures
            final(self).cursor() == old(self).cursor(),
            old(self).pending().len() > 0 ==> r == Some(old(self).pending()[0])
                && final(self).pending() == old(self).pending().drop_first(),
            old(self).pending().len() == 0 ==> r is None && final(self).pending() == old(
                self,
            ).pending(),
    {
        let r = self.cached.pop();
        proof {
            if old(self).cached@.len() > 0 {
                assert(self.pending() =~= old(self).pending().drop_first());
            }
        }
        r
    }

    /// Takes in a fetched page, given by its declared cursor and its items
    /// last first, and hands out the page's first item.
    pub fn accept_reversed(&mut self, after: Option<String>, reversed: Vec<T>) -> (r: Option<T>)
        requires
            old(self).pending().len() == 0,
        ensures
            (final(self).cursor(), final(self).pending(), r) == accept_spec(
                old(self).cursor(),
                page_model(after, reversed@.reverse()),
            ),
    {
        if let Some(a) = after {
            self.after = a;
        }
        let ghost page = reversed@.reverse();
        self.cached = reversed;
        let r = self.cached.pop();
        proof {
            if page.len() > 0 {
                assert(self.pending() =~= page.drop_first());
            } else {
                assert(self.pending() =~= Seq::<T>::empty());
            }
        }
        r
    }
}

/// The outcome of pulling a feed dry against pages served in order: the
/// cursor of each page request, the items handed out, and whether an empty
/// page ended the feed (rather than the pages running out).
pub struct FeedRun<T> {
    pub requested: Seq<Seq<char>>,
    pub yielded: Seq<T>,
    pub ended: bool,
}

/// Pulls a feed repeatedly: a pending item is handed out first; with none
/// pending, the next page is requested with the cursor in effect and taken
/// in as `FeedBuffer::accept_reversed` does.
pub open spec fn drain<T>(cursor: Seq<char>, pending: Seq<T>, pages: Seq<PageModel<T>>) -> FeedRun<T>
    decreases pages.len(), pending.len(),
{
    if pending.len() > 0 {
        let rest = drain(cursor, pending.drop_first(), pages);
        FeedRun { requested: rest.requested, yielded: seq![pending[0]] + rest.yielded, ended: rest.ended }
    } else if pages.len() == 0 {
        FeedRun { requested: Seq::empty(), yielded: Seq::empty(), ended: false }
    } else {
        let (next, left, item) = accept_spec(cursor, pages[0]);
        match item {
            None => FeedRun { requested: seq![cursor], yielded: Seq::empty(), ended: true },
            Some(x) => {
                let rest = drain(next, left, pages.drop_first());
                FeedRun {
                    requested: seq![cursor] + rest.requested,
                    yielded: seq![x] + rest.yielded,
                    ended: rest.ended,
                }
            },
        }
    }
}

proof fn lemma_drain_pending_first<T>(cursor: Seq<char>, pending: Seq<T>, pages: Seq<PageModel<T>>)
    ensures
        drain(cursor, pending, pages).yielded == pending + drain(cursor, Seq::empty(), pages).yielded,
        drain(cursor, pending, pages).requested == drain(cursor, Seq::empty(), pages).requested,
        drain(cursor, pending, pages).ended == drain(cursor, Seq::empty(), pages).ended,
    decreases pending.len(),
{
    if pending.len() > 0 {
        lemma_drain_pending_first(cursor, pending.drop_first(), pages);
        assert(pending =~= seq![pending[0]] + pending.drop_first());
        assert(drain(cursor, pending, pages).yielded =~= pending + drain(
            cursor,
            Seq::empty(),
            pages,
        ).yielded);
    } else {
        assert(pending =~= Seq::<T>::empty());
        assert(drain(cursor, pending, pages).yielded =~= pending + drain(
            cursor,
            Seq::empty(),
            pages,
        ).yielded);
    }
}

/// A feed served pages that each declare a non-empty next cursor, up to a
/// final empty page, hands out exactly the pages' items, concatenated in
/// order, and then ends; it requests the first page with its starting cursor
/// and each later page with the cursor that the page before declared.
pub proof fn lemma_feed_yields_pages_in_order<T>(cursor: Seq<char>, pages: Seq<PageModel<T>>)
    requires
        pages.len() > 0,
        forall|i: int|
            0 <= i < pages.len() - 1 ==> (#[trigger] pages[i]).items.len() > 0 && (
            pages[i].after matches Some(a) && a.len() > 0),
        pages[pages.len() - 1].items.len() == 0,
    ensures
        drain(cursor, Seq::empty(), pages).yielded == pages.map_values(|p: PageModel<T>| p.items).flatten(),
        drain(cursor, Seq::empty(), pages).ended,
        drain(cursor, Seq::empty(), pages).requested.len() == pages.len(),
        drain(cursor, Seq::empty(), pages).requested[0] == cursor,
        forall|i: int|
            0 < i < pages.len() ==> drain(cursor, Seq::empty(), pages).requested[i] == (
            #[trigger] pages[i - 1]).after->0,
    decreases pages.len(),
{
    let run = drain(cursor, Seq::empty(), pages);
    let flat = pages.map_values(|p: PageModel<T>| p.items);
    if pages.len() == 1 {
        assert(flat.drop_first() =~= Seq::<Seq<T>>::empty());
        assert(flat.drop_first().flatten() =~= Seq::<T>::empty());
        assert(flat[0] =~= Seq::<T>::empty());
        assert(flat.flatten() =~= Seq::<T>::empty());
    } else {
        let p = pages[0];
        let rest = pages.drop_first();
        assert(p.items.len() > 0);
        let next = p.after->0;
        assert forall|i: int| 0 <= i < rest.len() - 1 implies (#[trigger] rest[i]).items.len() > 0 && (
        rest[i].after matches Some(a) && a.len() > 0) by {
            assert(rest[i] == pages[i + 1]);
        }
        lemma_feed_yields_pages_in_order(next, rest);
        lemma_drain_pending_first(next, p.items.drop_first(), rest);
        let tail = drain(next, Seq::empty(), rest);
        assert(rest.map_values(|p: PageModel<T>| p.items) =~= flat.drop_first());
        assert(p.items =~= seq![p.items[0]] + p.items.drop_first());
        assert(run.yielded =~= flat.flatten());
        assert forall|i: int| 0 < i < pages.len() implies run.requested[i] == (
        #[trigger] pages[i - 1]).after->0 by {
            if i > 1 {
                assert(pages[i - 1] == rest[i - 2]);
            }
        }
    }
}

} // verus!
