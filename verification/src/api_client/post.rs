//! Post endpoints: request paths and the decisions that page through a blog's posts.
use crate::api_client::DEFAULT_PAGE_SIZE;
use crate::error::{pagination_error, ApiError};
use crate::keys::fresh_string_ids;
use crate::text::{append_query, decimal, encode_segment, query_suffix, segment, u64_to_decimal, views};
use vstd::prelude::*;

verus! {

/// Path of a single post.
pub open spec fn post_path_spec(blog_name: Seq<char>, post_id: Seq<char>) -> Seq<char> {
    "blog/"@ + segment(blog_name) + "/post/"@ + segment(post_id)
}

/// Path of a single post (`blog/{blog}/post/{id}`, both segments encoded).
pub fn post_path(blog_name: &str, post_id: &str) -> (path: String)
    ensures
        path@ == post_path_spec(blog_name@, post_id@),
{
    let mut path = "blog/".to_owned();
    path.append(encode_segment(blog_name).as_str());
    path.append("/post/");
    path.append(encode_segment(post_id).as_str());
    path
}

/// The `limit` parameter, then the `offset` parameter when there is one.
pub open spec fn posts_params(limit: usize, offset: Option<Seq<char>>) -> Seq<Seq<char>> {
    let l = seq!["limit="@ + decimal(limit as nat)];
    match offset {
        Some(o) => l.push("offset="@ + segment(o)),
        None => l,
    }
}

/// Path of a page of a blog's posts.
pub open spec fn posts_page_path_spec(blog_name: Seq<char>, limit: usize, offset: Option<Seq<char>>) -> Seq<char> {
    "blog/"@ + segment(blog_name) + "/post/"@ + query_suffix(posts_params(limit, offset))
}

/// Path of a page of a blog's posts (`blog/{blog}/post/?limit={limit}` and
/// `&offset={offset}` when given; the offset is echoed from the server, so it
/// is encoded like any other input).
pub fn posts_page_path(blog_name: &str, limit: usize, offset: Option<&str>) -> (path: String)
    ensures
        path@ == posts_page_path_spec(
            blog_name@,
            limit,
            match offset {
                Some(o) => Some(o@),
                None => None,
            },
        ),
{
    let mut path = "blog/".to_owned();
    path.append(encode_segment(blog_name).as_str());
    path.append("/post/");
    let mut params: Vec<String> = Vec::new();
    let mut l = "limit=".to_owned();
    l.append(u64_to_decimal(limit as u64).as_str());
    params.push(l);
    if let Some(o) = offset {
        let mut p = "offset=".to_owned();
        p.append(encode_segment(o).as_str());
        params.push(p);
    }
    assert(views(params@) =~= posts_params(
        limit,
        match offset {
            Some(o) => Some(o@),
            None => None,
        },
    ));
    append_query(&mut path, &params);
    path
}

/// One page of posts, as handed to the pager: the items, their identifiers in
/// the same order, and the page's pagination info.
pub struct PostsPage<T> {
    /// Posts on this page.
    pub items: Vec<T>,
    /// The identifier of each post, in the same order.
    pub ids: Vec<String>,
    /// Whether this is the last page.
    pub is_last: bool,
    /// Offset to request the next page.
    pub offset: String,
}

/// A page of posts as plain values.
pub struct PostsPageView<T> {
    pub items: Seq<T>,
    pub ids: Seq<Seq<char>>,
    pub is_last: bool,
    pub offset: Seq<char>,
}

impl<T> View for PostsPage<T> {
    type V = PostsPageView<T>;

    open spec fn view(&self) -> PostsPageView<T> {
        PostsPageView { items: self.items@, ids: views(self.ids@), is_last: self.is_last, offset: self.offset@ }
    }
}

/// Pages through a blog's posts up to a limit: it names the next request, and
/// takes each page that came back, until the last page, the limit, or an error.
pub struct PostsPager<T> {
    blog_name: String,
    limit: usize,
    page_size: usize,
    offset: Option<String>,
    items: Vec<T>,
    seen: Vec<String>,
    finished: bool,
}

/// State of a `PostsPager`.
pub struct PostsState<T> {
    pub blog_name: Seq<char>,
    pub limit: usize,
    pub page_size: usize,
    pub offset: Option<Seq<char>>,
    pub items: Seq<T>,
    pub seen: Seq<Seq<char>>,
    pub finished: bool,
}

impl<T> View for PostsPager<T> {
    type V = PostsState<T>;

    closed spec fn view(&self) -> PostsState<T> {
        PostsState {
            blog_name: self.blog_name@,
            limit: self.limit,
            page_size: self.page_size,
            offset: match self.offset {
                Some(o) => Some(o@),
                None => None,
            },
            items: self.items@,
            seen: views(self.seen@),
            finished: self.finished,
        }
    }
}

/// What every state of the pager keeps: one identifier per collected post,
/// no identifier twice, and fewer posts than the limit while paging goes on.
pub open spec fn posts_inv<T>(s: PostsState<T>) -> bool {
    &&& s.seen.len() == s.items.len()
    &&& s.seen.no_duplicates()
    &&& !s.finished ==> s.items.len() < s.limit
}

/// Number of posts asked for by the next request.
pub open spec fn posts_request_limit<T>(s: PostsState<T>) -> usize {
    if s.page_size <= s.limit - s.items.len() {
        s.page_size
    } else {
        (s.limit - s.items.len()) as usize
    }
}

/// The state after taking `page`, or the error that ends the paging: a
/// repeated post is an error; a page marked last, or reaching the limit, ends
/// the paging; an empty page that is not the last, or an offset that did not
/// advance, is an error; otherwise the next request starts at the page's offset.
pub open spec fn posts_step<T>(s: PostsState<T>, page: PostsPageView<T>) -> Result<PostsState<T>, ApiError> {
    if !(s.seen + page.ids).no_duplicates() {
        Err(pagination_error("posts", "duplicate item"))
    } else {
        let next = PostsState { items: s.items + page.items, seen: s.seen + page.ids, ..s };
        if page.is_last || next.items.len() >= s.limit {
            Ok(PostsState { finished: true, ..next })
        } else if page.ids.len() == 0 {
            Err(pagination_error("posts", "empty nonterminal page"))
        } else if s.offset == Some(page.offset) {
            Err(pagination_error("posts", "offset did not advance"))
        } else {
            Ok(PostsState { offset: Some(page.offset), ..next })
        }
    }
}

/// The posts returned at the end: the collected ones, cut to the limit.
pub open spec fn posts_result<T>(s: PostsState<T>) -> Seq<T> {
    if s.items.len() <= s.limit {
        s.items
    } else {
        s.items.subrange(0, s.limit as int)
    }
}

/// Each step keeps the pager's invariant: no post twice, and fewer posts
/// than the limit while paging goes on.
pub proof fn lemma_posts_step_keeps_inv<T>(s: PostsState<T>, page: PostsPageView<T>)
    requires
        posts_inv(s),
        !s.finished,
        page.items.len() == page.ids.len(),
    ensures
        posts_step(s, page) matches Ok(next) ==> posts_inv(next),
{
}

/// An empty page that is not the last is refused; so is a page that is not
/// the last, leaves the limit unreached and repeats the offset just requested.
/// Every accepted page that does not end the paging adds posts and moves
/// the offset on.
pub proof fn lemma_posts_progress<T>(s: PostsState<T>, page: PostsPageView<T>)
    requires
        posts_inv(s),
        !s.finished,
        page.items.len() == page.ids.len(),
    ensures
        !page.is_last && page.ids.len() == 0 ==> posts_step(s, page) is Err,
        !page.is_last && s.items.len() + page.items.len() < s.limit && s.offset == Some(
            page.offset,
        ) ==> posts_step(s, page) is Err,
        posts_step(s, page) matches Ok(next) ==> (next.finished || (next.items.len()
            > s.items.len() && next.offset == Some(page.offset) && next.offset != s.offset)),
{
}

/// A page marked last that brings no identifier seen before or twice is
/// always accepted, even when empty, and ends the paging with exactly the
/// posts collected so far followed by the page's posts. The same holds for a
/// page that reaches the limit.
pub proof fn lemma_posts_last_page_accepted<T>(s: PostsState<T>, page: PostsPageView<T>)
    requires
        posts_inv(s),
        !s.finished,
        page.items.len() == page.ids.len(),
        (s.seen + page.ids).no_duplicates(),
        page.is_last || s.items.len() + page.items.len() >= s.limit,
    ensures
        posts_step(s, page) matches Ok(next) && {
            &&& next.finished
            &&& next.items == s.items + page.items
            &&& next.seen == s.seen + page.ids
        },
{
}

/// A page that is not the last and leaves the limit unreached is accepted
/// exactly when it brings new, distinct identifiers, is not empty, and moves
/// the offset on; the paging then goes on from the page's offset.
pub proof fn lemma_posts_middle_page<T>(s: PostsState<T>, page: PostsPageView<T>)
    requires
        posts_inv(s),
        !s.finished,
        page.items.len() == page.ids.len(),
        !page.is_last,
        s.items.len() + page.items.len() < s.limit,
    ensures
        posts_step(s, page) is Ok <==> ((s.seen + page.ids).no_duplicates() && page.ids.len() > 0
            && s.offset != Some(page.offset)),
        posts_step(s, page) matches Ok(next) ==> {
            &&& !next.finished
            &&& next.items == s.items + page.items
            &&& next.offset == Some(page.offset)
        },
{
}

/// Each request asks for the page size or, when fewer posts are missing to
/// reach the limit, exactly the missing number: at least one post (when the
/// page size is not 0), at most the page size, never past the limit.
pub proof fn lemma_posts_request_limit<T>(s: PostsState<T>)
    requires
        posts_inv(s),
        !s.finished,
    ensures
        posts_request_limit(s) <= s.page_size,
        s.items.len() + posts_request_limit(s) <= s.limit,
        s.page_size > 0 ==> posts_request_limit(s) > 0,
        posts_request_limit(s) == s.page_size || s.items.len() + posts_request_limit(s) == s.limit,
{
}

/// The posts of a list of pages, in order.
pub open spec fn posts_of_pages<T>(pages: Seq<PostsPageView<T>>) -> Seq<T>
    decreases pages.len(),
{
    if pages.len() == 0 {
        Seq::empty()
    } else {
        posts_of_pages(pages.drop_last()) + pages.last().items
    }
}

/// The identifiers of a list of pages, in order.
pub open spec fn post_ids_of_pages<T>(pages: Seq<PostsPageView<T>>) -> Seq<Seq<char>>
    decreases pages.len(),
{
    if pages.len() == 0 {
        Seq::empty()
    } else {
        post_ids_of_pages(pages.drop_last()) + pages.last().ids
    }
}

/// The state after taking `pages` one after another, or the first error.
pub open spec fn posts_run<T>(s: PostsState<T>, pages: Seq<PostsPageView<T>>) -> Result<PostsState<T>, ApiError>
    decreases pages.len(),
{
    if pages.len() == 0 {
        Ok(s)
    } else {
        match posts_run(s, pages.drop_last()) {
            Ok(mid) => posts_step(mid, pages.last()),
            Err(e) => Err(e),
        }
    }
}

/// Over a whole paging, the collected posts are the posts of the taken pages
/// in the order they came, no post twice, and what is returned is that list
/// cut to the limit.
pub proof fn lemma_posts_run<T>(s: PostsState<T>, pages: Seq<PostsPageView<T>>)
    requires
        s.seen.no_duplicates(),
    ensures
        posts_run(s, pages) matches Ok(f) ==> {
            &&& f.items == s.items + posts_of_pages(pages)
            &&& f.seen == s.seen + post_ids_of_pages(pages)
            &&& f.seen.no_duplicates()
            &&& f.limit == s.limit
            &&& posts_result(f).len() <= s.limit
            &&& posts_result(f) == if f.items.len() <= s.limit {
                f.items
            } else {
                f.items.subrange(0, s.limit as int)
            }
        },
    decreases pages.len(),
{
    if pages.len() > 0 {
        lemma_posts_run(s, pages.drop_last());
        if let Ok(mid) = posts_run(s, pages.drop_last()) {
            let page = pages.last();
            assert(s.items + posts_of_pages(pages) =~= mid.items + page.items);
            assert(s.seen + post_ids_of_pages(pages) =~= mid.seen + page.ids);
        }
    }
}

fn same_offset(a: &Option<String>, b: &String) -> (r: bool)
    ensures
        r == (match a {
            Some(o) => Some(o@),
            None => None,
        } == Some(b@)),
{
    match a {
        Some(o) => *o == *b,
        None => false,
    }
}

impl<T> PostsPager<T> {
    /// Starts paging through the posts of `blog_name`: at most `limit` posts,
    /// `page_size` per request (20 when not given), from `start_offset` (the
    /// first post when not given). A limit of 0 needs no request.
    pub fn new(blog_name: &str, limit: usize, page_size: Option<usize>, start_offset: Option<String>) -> (pager: Self)
        ensures
            pager@ == (PostsState::<T> {
                blog_name: blog_name@,
                limit,
                page_size: match page_size {
                    Some(p) => p,
                    None => 20,
                },
                offset: match start_offset {
                    Some(o) => Some(o@),
                    None => None,
                },
                items: Seq::empty(),
                seen: Seq::empty(),
                finished: limit == 0,
            }),
            posts_inv(pager@),
    {
        let page_size = match page_size {
            Some(p) => p,
            None => DEFAULT_PAGE_SIZE,
        };
        let pager = PostsPager {
            blog_name: blog_name.to_owned(),
            limit,
            page_size,
            offset: start_offset,
            items: Vec::new(),
            seen: Vec::new(),
            finished: limit == 0,
        };
        assert(views(pager.seen@) =~= Seq::<Seq<char>>::empty());
        pager
    }

    /// The path of the next page to request, or `None` once the paging has
    /// finished. The page asks for the page size, or fewer when fewer posts
    /// are missing to reach the limit.
    pub fn next_path(&self) -> (path: Option<String>)
        requires
            posts_inv(self@),
        ensures
            self@.finished ==> path is None,
            !self@.finished ==> (path matches Some(p) && p@ == posts_page_path_spec(
                self@.blog_name,
                posts_request_limit(self@),
                self@.offset,
            )),
    {
        if self.finished {
            return None;
        }
        let missing = self.limit - self.items.len();
        let current_limit = if self.page_size <= missing {
            self.page_size
        } else {
            missing
        };
        let path = match &self.offset {
            Some(o) => posts_page_path(self.blog_name.as_str(), current_limit, Some(o.as_str())),
            None => posts_page_path(self.blog_name.as_str(), current_limit, None),
        };
        Some(path)
    }

    /// Whether the paging has finished.
    pub fn is_finished(&self) -> (finished: bool)
        ensures
            finished == self@.finished,
    {
        self.finished
    }

    /// Takes the page that the last request returned. On an error the state is unchanged.
    pub fn accept_page(&mut self, page: PostsPage<T>) -> (result: Result<(), ApiError>)
        requires
            posts_inv(old(self)@),
            !old(self)@.finished,
            page.items@.len() == page.ids@.len(),
        ensures
            posts_inv(final(self)@),
            match posts_step(old(self)@, page@) {
                Ok(next) => result is Ok && final(self)@ == next,
                Err(e) => result == Err::<(), ApiError>(e) && final(self)@ == old(self)@,
            },
    {
        let ghost old_view = self@;
        if !fresh_string_ids(&self.seen, &page.ids) {
            return Err(ApiError::Pagination { resource: "posts", reason: "duplicate item" });
        }
        let PostsPage { mut items, mut ids, is_last, offset } = page;
        let empty = ids.len() == 0;
        let reached = items.len() >= self.limit || self.items.len() >= self.limit - items.len();
        assert(reached == (self@.items.len() + items@.len() >= self@.limit));
        if !is_last && !reached {
            if empty {
                return Err(ApiError::Pagination { resource: "posts", reason: "empty nonterminal page" });
            }
            if same_offset(&self.offset, &offset) {
                return Err(ApiError::Pagination { resource: "posts", reason: "offset did not advance" });
            }
        }
        let ghost old_ids = views(ids@);
        self.items.append(&mut items);
        self.seen.append(&mut ids);
        assert(views(self.seen@) =~= old_view.seen + old_ids);
        if is_last || reached {
            self.finished = true;
        } else {
            self.offset = Some(offset);
        }
        Ok(())
    }

    /// The collected posts, never more than the limit: a server that
    /// over-delivers is cut short.
    pub fn into_items(self) -> (posts: Vec<T>)
        ensures
            posts@ == posts_result(self@),
            posts@.len() <= self@.limit,
            posts@.len() == self@.limit || posts@.len() == self@.items.len(),
            posts@ == self@.items.subrange(0, posts@.len() as int),
    {
        let limit = self.limit;
        let mut items = self.items;
        items.truncate(limit);
        items
    }
}

} // verus!
