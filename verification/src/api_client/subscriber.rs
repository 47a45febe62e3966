//! Subscriber endpoints: request paths and the decisions that page through
//! all subscribers of a blog.
use crate::api_client::dialog::{offset_limit_params, offset_limit_query};
use crate::error::{pagination_error, ApiError};
use crate::keys::{fresh_u64_ids, insert_u64_ids};
use crate::model::{Subscriber, SubscribersResponse};
use std::collections::HashSet;
use crate::text::{append_query, encode_segment, query_suffix, segment, views};
use vstd::prelude::*;

verus! {

/// Per-request page size used when paging through all subscribers.
pub const SUBSCRIBERS_PAGE_SIZE: u32 = 100;

/// The view of an optional text.
pub open spec fn opt_view(s: Option<&str>) -> Option<Seq<char>> {
    match s {
        Some(s) => Some(s@),
        None => None,
    }
}

/// The `offset` and `limit` parameters, then `sort_by` and `order`, each only when given.
pub open spec fn subscribers_params(
    limit: Option<u32>,
    offset: Option<u64>,
    sort_by: Option<Seq<char>>,
    order: Option<Seq<char>>,
) -> Seq<Seq<char>> {
    let s = match sort_by {
        Some(s) => seq!["sort_by="@ + segment(s)],
        None => Seq::empty(),
    };
    let o = match order {
        Some(o) => seq!["order="@ + segment(o)],
        None => Seq::empty(),
    };
    offset_limit_params(limit, offset) + s + o
}

/// Path of a page of a blog's subscribers.
pub open spec fn subscribers_path_spec(
    blog_name: Seq<char>,
    limit: Option<u32>,
    offset: Option<u64>,
    sort_by: Option<Seq<char>>,
    order: Option<Seq<char>>,
) -> Seq<char> {
    "blog/"@ + segment(blog_name) + "/subscribers"@ + query_suffix(
        subscribers_params(limit, offset, sort_by, order),
    )
}

/// Path of a page of a blog's subscribers (`blog/{blog}/subscribers` with
/// optional `offset`, `limit`, `sort_by` and `order`; texts are encoded).
pub fn subscribers_path(
    blog_name: &str,
    limit: Option<u32>,
    offset: Option<u64>,
    sort_by: Option<&str>,
    order: Option<&str>,
) -> (path: String)
    ensures
        path@ == subscribers_path_spec(blog_name@, limit, offset, opt_view(sort_by), opt_view(order)),
{
    let mut path = "blog/".to_owned();
    path.append(encode_segment(blog_name).as_str());
    path.append("/subscribers");
    let mut params = offset_limit_query(limit, offset);
    let ghost base = views(params@);
    if let Some(sb) = sort_by {
        let mut p = "sort_by=".to_owned();
        p.append(encode_segment(sb).as_str());
        params.push(p);
    }
    let ghost with_sort = views(params@);
    assert(with_sort =~= base + match opt_view(sort_by) {
        Some(s) => seq!["sort_by="@ + segment(s)],
        None => Seq::<Seq<char>>::empty(),
    });
    if let Some(ord) = order {
        let mut p = "order=".to_owned();
        p.append(encode_segment(ord).as_str());
        params.push(p);
    }
    assert(views(params@) =~= subscribers_params(limit, offset, opt_view(sort_by), opt_view(order)));
    append_query(&mut path, &params);
    path
}

/// One page of subscribers, as handed to the pager: the items, their
/// identifiers in the same order, and the total that the page reports.
pub struct SubscribersPage<T> {
    /// Subscribers on this page.
    pub items: Vec<T>,
    /// The identifier of each subscriber, in the same order.
    pub ids: Vec<u64>,
    /// Total number of subscribers that the page reports.
    pub total: u64,
}

impl SubscribersPage<Subscriber> {
    /// The page that a response of the subscribers endpoint makes: its
    /// subscribers, each one's `id`, and the reported total.
    pub fn from_response(resp: SubscribersResponse) -> (page: Self)
        ensures
            page.items@ == resp.data@,
            page.ids@ == resp.data@.map_values(|s: Subscriber| s.id),
            page.total == resp.total,
    {
        let mut ids: Vec<u64> = Vec::new();
        let mut i: usize = 0;
        while i < resp.data.len()
            invariant
                i <= resp.data@.len(),
                ids@ == resp.data@.subrange(0, i as int).map_values(|s: Subscriber| s.id),
            decreases resp.data@.len() - i,
        {
            ids.push(resp.data[i].id);
            assert(resp.data@.subrange(0, i + 1).map_values(|s: Subscriber| s.id) =~= ids@);
            i = i + 1;
        }
        assert(resp.data@.subrange(0, resp.data@.len() as int) =~= resp.data@);
        SubscribersPage { items: resp.data, ids, total: resp.total }
    }
}

/// A page of subscribers as plain values.
pub struct SubscribersPageView<T> {
    pub items: Seq<T>,
    pub ids: Seq<u64>,
    pub total: u64,
}

impl<T> View for SubscribersPage<T> {
    type V = SubscribersPageView<T>;

    open spec fn view(&self) -> SubscribersPageView<T> {
        SubscribersPageView { items: self.items@, ids: self.ids@, total: self.total }
    }
}

/// Pages through all subscribers of a blog by offset: it names the next
/// request, and takes each page that came back, until exactly the total of
/// the first page has been collected, or an error.
pub struct SubscribersPager<T> {
    blog_name: String,
    sort_by: Option<String>,
    order: Option<String>,
    items: Vec<T>,
    seen: HashSet<u64>,
    seen_ids: Ghost<Seq<u64>>,
    expected_total: Option<u64>,
    finished: bool,
}

/// State of a `SubscribersPager`.
pub struct SubscribersState<T> {
    pub blog_name: Seq<char>,
    pub sort_by: Option<Seq<char>>,
    pub order: Option<Seq<char>>,
    pub items: Seq<T>,
    pub seen: Seq<u64>,
    pub expected_total: Option<u64>,
    pub finished: bool,
}

/// The view of an optional string.
pub open spec fn opt_string_view(s: Option<String>) -> Option<Seq<char>> {
    match s {
        Some(s) => Some(s@),
        None => None,
    }
}

impl<T> View for SubscribersPager<T> {
    type V = SubscribersState<T>;

    closed spec fn view(&self) -> SubscribersState<T> {
        SubscribersState {
            blog_name: self.blog_name@,
            sort_by: opt_string_view(self.sort_by),
            order: opt_string_view(self.order),
            items: self.items@,
            seen: self.seen_ids@,
            expected_total: self.expected_total,
            finished: self.finished,
        }
    }
}

/// What every state of the pager keeps: one identifier per collected
/// subscriber, no identifier twice, fewer subscribers than the frozen total
/// while paging goes on, and exactly that total once it has finished.
pub open spec fn subscribers_inv<T>(s: SubscribersState<T>) -> bool {
    &&& s.seen.len() == s.items.len()
    &&& s.seen.no_duplicates()
    &&& s.finished ==> s.expected_total == Some(s.items.len() as u64)
    &&& !s.finished ==> match s.expected_total {
        Some(t) => s.items.len() < t,
        None => s.items.len() == 0,
    }
}

/// The state after taking `page`, or the error that ends the paging. The
/// first page freezes the total; a later page with another total is an
/// error. An empty page finishes the paging when the total has been
/// collected and is an error before. A repeated subscriber is an error.
/// Reaching the total finishes the paging; going past it is an error.
pub open spec fn subscribers_step<T>(s: SubscribersState<T>, page: SubscribersPageView<T>) -> Result<SubscribersState<T>, ApiError> {
    let total = match s.expected_total {
        Some(t) => t,
        None => page.total,
    };
    if page.total != total {
        Err(pagination_error("subscribers", "total changed between pages"))
    } else if page.ids.len() == 0 {
        if s.items.len() == total {
            Ok(SubscribersState { expected_total: Some(total), finished: true, ..s })
        } else {
            Err(pagination_error("subscribers", "empty page before expected total"))
        }
    } else if !(s.seen + page.ids).no_duplicates() {
        Err(pagination_error("subscribers", "duplicate item"))
    } else {
        let next = SubscribersState {
            items: s.items + page.items,
            seen: s.seen + page.ids,
            expected_total: Some(total),
            ..s
        };
        if next.items.len() == total {
            Ok(SubscribersState { finished: true, ..next })
        } else if next.items.len() > total {
            Err(pagination_error("subscribers", "page exceeded expected total"))
        } else {
            Ok(next)
        }
    }
}

/// Each step keeps the pager's invariant: no subscriber twice, and exactly
/// the frozen total once the paging has finished.
pub proof fn lemma_subscribers_step_keeps_inv<T>(s: SubscribersState<T>, page: SubscribersPageView<T>)
    requires
        subscribers_inv(s),
        !s.finished,
        page.items.len() == page.ids.len(),
    ensures
        subscribers_step(s, page) matches Ok(next) ==> subscribers_inv(next),
{
}

/// The total is frozen by the first page: every accepted page reports it.
/// Every accepted page that does not end the paging adds subscribers, and
/// the collected count never passes the total, so at most `total + 1` pages
/// are taken.
pub proof fn lemma_subscribers_progress<T>(s: SubscribersState<T>, page: SubscribersPageView<T>)
    requires
        subscribers_inv(s),
        !s.finished,
        page.items.len() == page.ids.len(),
    ensures
        subscribers_step(s, page) matches Ok(next) ==> {
            &&& next.expected_total == Some(page.total)
            &&& (s.expected_total matches Some(t) ==> t == page.total)
            &&& next.items.len() <= page.total
            &&& (next.finished || next.items.len() > s.items.len())
        },
{
}

/// A valid page is always accepted: when it reports the frozen total (or,
/// on the first page, any total), brings no identifier seen before or twice,
/// and does not carry the count past that total, the step succeeds, appends
/// exactly the page's subscribers, freezes the total, and finishes exactly
/// when the total is reached. An empty page is accepted exactly when the
/// total has been collected, and then finishes the paging.
pub proof fn lemma_subscribers_valid_page_accepted<T>(s: SubscribersState<T>, page: SubscribersPageView<T>)
    requires
        subscribers_inv(s),
        !s.finished,
        page.items.len() == page.ids.len(),
        s.expected_total is None || s.expected_total == Some(page.total),
    ensures
        page.ids.len() > 0 && (s.seen + page.ids).no_duplicates() && s.items.len() + page.items.len()
            <= page.total ==> (subscribers_step(s, page) matches Ok(next) && {
            &&& next.items == s.items + page.items
            &&& next.seen == s.seen + page.ids
            &&& next.expected_total == Some(page.total)
            &&& (next.finished <==> s.items.len() + page.items.len() == page.total)
        }),
        page.ids.len() == 0 ==> (subscribers_step(s, page) is Ok <==> s.items.len() == page.total),
        page.ids.len() == 0 && s.items.len() == page.total ==> (subscribers_step(s, page) matches Ok(
            next,
        ) && next.finished && next.items == s.items),
        s.items.len() + page.items.len() > page.total ==> subscribers_step(s, page) is Err,
{
}

/// From the start, a first page that holds its whole total of distinct
/// subscribers finishes the paging with exactly those subscribers.
pub proof fn lemma_subscribers_single_page<T>(
    blog_name: Seq<char>,
    sort_by: Option<Seq<char>>,
    order: Option<Seq<char>>,
    page: SubscribersPageView<T>,
)
    requires
        page.items.len() == page.ids.len(),
        page.ids.no_duplicates(),
        page.ids.len() == page.total,
    ensures
        subscribers_step(subscribers_start::<T>(blog_name, sort_by, order), page) matches Ok(next) && {
            &&& next.finished
            &&& next.items == page.items
            &&& next.expected_total == Some(page.total)
        },
{
    let s0 = subscribers_start::<T>(blog_name, sort_by, order);
    assert(s0.seen + page.ids =~= page.ids);
    assert(s0.items + page.items =~= page.items);
}

/// A paging that finished holds exactly the total of the first page, each
/// subscriber once.
pub proof fn lemma_subscribers_complete<T>(s: SubscribersState<T>)
    requires
        subscribers_inv(s),
        s.finished,
    ensures
        s.expected_total == Some(s.items.len() as u64),
        s.seen.len() == s.items.len(),
        s.seen.no_duplicates(),
{
}

/// The subscribers of a list of pages, in order.
pub open spec fn subscribers_of_pages<T>(pages: Seq<SubscribersPageView<T>>) -> Seq<T>
    decreases pages.len(),
{
    if pages.len() == 0 {
        Seq::empty()
    } else {
        subscribers_of_pages(pages.drop_last()) + pages.last().items
    }
}

/// The identifiers of a list of pages, in order.
pub open spec fn subscriber_ids_of_pages<T>(pages: Seq<SubscribersPageView<T>>) -> Seq<u64>
    decreases pages.len(),
{
    if pages.len() == 0 {
        Seq::empty()
    } else {
        subscriber_ids_of_pages(pages.drop_last()) + pages.last().ids
    }
}

/// The state after taking `pages` one after another, or the first error.
pub open spec fn subscribers_run<T>(s: SubscribersState<T>, pages: Seq<SubscribersPageView<T>>) -> Result<SubscribersState<T>, ApiError>
    decreases pages.len(),
{
    if pages.len() == 0 {
        Ok(s)
    } else {
        match subscribers_run(s, pages.drop_last()) {
            Ok(mid) => subscribers_step(mid, pages.last()),
            Err(e) => Err(e),
        }
    }
}

/// The state of a pager that has not taken any page yet.
pub open spec fn subscribers_start<T>(
    blog_name: Seq<char>,
    sort_by: Option<Seq<char>>,
    order: Option<Seq<char>>,
) -> SubscribersState<T> {
    SubscribersState {
        blog_name,
        sort_by,
        order,
        items: Seq::empty(),
        seen: Seq::empty(),
        expected_total: None,
        finished: false,
    }
}

/// Over a whole paging from the start, the collected subscribers are those
/// of the taken pages in the order they came, each once; every taken page
/// reported the total of the first page; and a paging that finished holds
/// exactly that total.
pub proof fn lemma_subscribers_run<T>(
    blog_name: Seq<char>,
    sort_by: Option<Seq<char>>,
    order: Option<Seq<char>>,
    pages: Seq<SubscribersPageView<T>>,
)
    requires
        forall|i: int| 0 <= i < pages.len() ==> (#[trigger] pages[i]).items.len() == pages[i].ids.len(),
    ensures
        subscribers_run(subscribers_start::<T>(blog_name, sort_by, order), pages) matches Ok(f) ==> {
            &&& f.items == subscribers_of_pages(pages)
            &&& f.seen == subscriber_ids_of_pages(pages)
            &&& subscribers_inv(f)
            &&& forall|i: int| 0 <= i < pages.len() ==> (#[trigger] pages[i]).total == pages[0].total
            &&& pages.len() > 0 ==> f.expected_total == Some(pages[0].total)
            &&& f.finished ==> f.items.len() == pages[0].total
        },
    decreases pages.len(),
{
    let s0 = subscribers_start::<T>(blog_name, sort_by, order);
    if pages.len() > 0 {
        let prefix = pages.drop_last();
        assert forall|i: int| 0 <= i < prefix.len() implies (#[trigger] prefix[i]).items.len()
            == prefix[i].ids.len() by {
            assert(prefix[i] == pages[i]);
        }
        lemma_subscribers_run(blog_name, sort_by, order, prefix);
        if let Ok(mid) = subscribers_run(s0, prefix) {
            let page = pages.last();
            assert(page == pages[pages.len() - 1]);
            if let Ok(f) = subscribers_step(mid, page) {
                assert(subscribers_of_pages(pages) =~= mid.items + page.items);
                assert(subscriber_ids_of_pages(pages) =~= mid.seen + page.ids);
                if prefix.len() > 0 {
                    assert(prefix[0] == pages[0]);
                    assert forall|i: int| 0 <= i < pages.len() implies (#[trigger] pages[i]).total
                        == pages[0].total by {
                        if i < prefix.len() {
                            assert(prefix[i] == pages[i]);
                        }
                    }
                } else {
                    assert(mid == s0);
                }
            }
        }
    }
}

/// When every page was made from a response, the identifiers the pager
/// checks are the `id`s of the collected items, in order: so the result holds
/// no two items with the same `id`.
pub proof fn lemma_subscriber_ids_of_responses(pages: Seq<SubscribersPageView<Subscriber>>)
    requires
        forall|i: int| 0 <= i < pages.len() ==> (#[trigger] pages[i]).ids == pages[i].items.map_values(|s: Subscriber| s.id),
    ensures
        subscriber_ids_of_pages(pages) == subscribers_of_pages(pages).map_values(|s: Subscriber| s.id),
    decreases pages.len(),
{
    if pages.len() > 0 {
        let prefix = pages.drop_last();
        assert forall|i: int| 0 <= i < prefix.len() implies (#[trigger] prefix[i]).ids == prefix[i].items.map_values(|s: Subscriber| s.id) by {
            assert(prefix[i] == pages[i]);
        }
        lemma_subscriber_ids_of_responses(prefix);
        let last = pages[pages.len() - 1];
        assert(last == pages.last());
        assert(subscriber_ids_of_pages(pages) =~= subscribers_of_pages(pages).map_values(|s: Subscriber| s.id));
    }
}

impl<T> SubscribersPager<T> {
    /// The hash set of identifiers holds exactly the identifiers collected.
    pub closed spec fn wf(&self) -> bool {
        self.seen@ == self.seen_ids@.to_set()
    }

    /// Starts paging through the subscribers of `blog_name`, sorted as asked.
    pub fn new(blog_name: &str, sort_by: Option<&str>, order: Option<&str>) -> (pager: Self)
        ensures
            pager@ == subscribers_start::<T>(blog_name@, opt_view(sort_by), opt_view(order)),
            subscribers_inv(pager@),
            pager.wf(),
    {
        let sort_by = match sort_by {
            Some(s) => Some(s.to_owned()),
            None => None,
        };
        let order = match order {
            Some(o) => Some(o.to_owned()),
            None => None,
        };
        let pager = SubscribersPager {
            blog_name: blog_name.to_owned(),
            sort_by,
            order,
            items: Vec::new(),
            seen: HashSet::new(),
            seen_ids: Ghost(Seq::empty()),
            expected_total: None,
            finished: false,
        };
        assert(pager.seen@ =~= Seq::<u64>::empty().to_set());
        pager
    }

    /// The path of the next page to request, or `None` once the paging has
    /// finished: a page of 100 starting at the number of subscribers collected.
    pub fn next_path(&self) -> (path: Option<String>)
        requires
            subscribers_inv(self@),
        ensures
            self@.finished ==> path is None,
            !self@.finished ==> (path matches Some(p) && p@ == subscribers_path_spec(
                self@.blog_name,
                Some(100u32),
                Some(self@.items.len() as u64),
                self@.sort_by,
                self@.order,
            )),
    {
        if self.finished {
            return None;
        }
        let offset = self.items.len() as u64;
        let path = match (&self.sort_by, &self.order) {
            (Some(s), Some(o)) => subscribers_path(
                self.blog_name.as_str(),
                Some(SUBSCRIBERS_PAGE_SIZE),
                Some(offset),
                Some(s.as_str()),
                Some(o.as_str()),
            ),
            (Some(s), None) => subscribers_path(
                self.blog_name.as_str(),
                Some(SUBSCRIBERS_PAGE_SIZE),
                Some(offset),
                Some(s.as_str()),
                None,
            ),
            (None, Some(o)) => subscribers_path(
                self.blog_name.as_str(),
                Some(SUBSCRIBERS_PAGE_SIZE),
                Some(offset),
                None,
                Some(o.as_str()),
            ),
            (None, None) => subscribers_path(
                self.blog_name.as_str(),
                Some(SUBSCRIBERS_PAGE_SIZE),
                Some(offset),
                None,
                None,
            ),
        };
        Some(path)
    }

    /// Whether the paging has finished.
    pub fn is_finished(&self) -> (finished: bool)
        ensures
            finished == self@.finished,
    {
        self.finished
    }

    /// Takes the page that the last request returned. On an error the state is unchanged.
    pub fn accept_page(&mut self, page: SubscribersPage<T>) -> (result: Result<(), ApiError>)
        requires
            subscribers_inv(old(self)@),
            old(self).wf(),
            !old(self)@.finished,
            page.items@.len() == page.ids@.len(),
        ensures
            subscribers_inv(final(self)@),
            final(self).wf(),
            match subscribers_step(old(self)@, page@) {
                Ok(next) => result is Ok && final(self)@ == next,
                Err(e) => result == Err::<(), ApiError>(e) && final(self)@ == old(self)@,
            },
    {
        let total = match self.expected_total {
            Some(t) => t,
            None => page.total,
        };
        if page.total != total {
            return Err(
                ApiError::Pagination { resource: "subscribers", reason: "total changed between pages" },
            );
        }
        let collected = self.items.len() as u64;
        if page.ids.len() == 0 {
            if collected == total {
                self.expected_total = Some(total);
                self.finished = true;
                return Ok(());
            }
            return Err(
                ApiError::Pagination { resource: "subscribers", reason: "empty page before expected total" },
            );
        }
        if !fresh_u64_ids(&self.seen, Ghost(self.seen_ids@), &page.ids) {
            return Err(ApiError::Pagination { resource: "subscribers", reason: "duplicate item" });
        }
        let SubscribersPage { mut items, ids, total: _ } = page;
        let added = items.len();
        if added as u64 > total - collected {
            return Err(
                ApiError::Pagination { resource: "subscribers", reason: "page exceeded expected total" },
            );
        }
        insert_u64_ids(&mut self.seen, Ghost(self.seen_ids@), &ids);
        self.items.append(&mut items);
        self.seen_ids = Ghost(self.seen_ids@ + ids@);
        self.expected_total = Some(total);
        if added as u64 == total - collected {
            self.finished = true;
        }
        Ok(())
    }

    /// All subscribers collected.
    pub fn into_items(self) -> (items: Vec<T>)
        ensures
            items@ == self@.items,
    {
        self.items
    }
}

} // verus!
