//! Dialog endpoints: request paths and the decisions that page through a dialog's messages.
use crate::error::{pagination_error, ApiError};
use crate::keys::{fresh_u64_ids, insert_u64_ids};
use crate::model::{Message, MessagesResponse};
use std::collections::HashSet;
use crate::text::{append_query, decimal, query_suffix, u64_to_decimal, views};
use vstd::prelude::*;

verus! {

/// The `offset` and `limit` parameters, in that order, each only when given.
pub open spec fn offset_limit_params(limit: Option<u32>, offset: Option<u64>) -> Seq<Seq<char>> {
    let o = match offset {
        Some(o) => seq!["offset="@ + decimal(o as nat)],
        None => Seq::empty(),
    };
    let l = match limit {
        Some(l) => seq!["limit="@ + decimal(l as nat)],
        None => Seq::empty(),
    };
    o + l
}

/// Builds the `offset` and `limit` parameters.
pub fn offset_limit_query(limit: Option<u32>, offset: Option<u64>) -> (params: Vec<String>)
    ensures
        views(params@) == offset_limit_params(limit, offset),
{
    let mut params: Vec<String> = Vec::new();
    if let Some(o) = offset {
        let mut p = "offset=".to_owned();
        p.append(u64_to_decimal(o).as_str());
        params.push(p);
    }
    if let Some(l) = limit {
        let mut p = "limit=".to_owned();
        p.append(u64_to_decimal(l as u64).as_str());
        params.push(p);
    }
    assert(views(params@) =~= offset_limit_params(limit, offset));
    params
}

/// Path of a page of dialogs.
pub open spec fn dialogs_path_spec(limit: Option<u32>, offset: Option<u64>) -> Seq<char> {
    "dialog/"@ + query_suffix(offset_limit_params(limit, offset))
}

/// Path of a page of the current user's dialogs (`dialog/` with optional
/// `offset` and `limit`).
pub fn dialogs_path(limit: Option<u32>, offset: Option<u64>) -> (path: String)
    ensures
        path@ == dialogs_path_spec(limit, offset),
{
    let mut path = "dialog/".to_owned();
    let params = offset_limit_query(limit, offset);
    append_query(&mut path, &params);
    path
}

/// Path of a page of messages within a dialog.
pub open spec fn dialog_messages_path_spec(dialog_id: u64, limit: Option<u32>, offset: Option<u64>) -> Seq<char> {
    "dialog/"@ + decimal(dialog_id as nat) + "/message/"@ + query_suffix(
        offset_limit_params(limit, offset),
    )
}

/// Path of a page of messages within a dialog (`dialog/{id}/message/` with
/// optional `offset` and `limit`).
pub fn dialog_messages_path(dialog_id: u64, limit: Option<u32>, offset: Option<u64>) -> (path: String)
    ensures
        path@ == dialog_messages_path_spec(dialog_id, limit, offset),
{
    let mut path = "dialog/".to_owned();
    path.append(u64_to_decimal(dialog_id).as_str());
    path.append("/message/");
    let params = offset_limit_query(limit, offset);
    append_query(&mut path, &params);
    path
}

/// One page of a dialog's messages, as handed to the pager: the items, their
/// identifiers in the same order, and the page's pagination info.
pub struct MessagesPage<T> {
    /// Messages on this page.
    pub items: Vec<T>,
    /// The identifier of each message, in the same order.
    pub ids: Vec<u64>,
    /// Whether this is the last page.
    pub is_last: bool,
    /// Offset to request the next page.
    pub offset: u64,
}

impl MessagesPage<Message> {
    /// The page that a response of the dialog messages endpoint makes: its
    /// messages, each one's `id`, and its pagination info.
    pub fn from_response(resp: MessagesResponse) -> (page: Self)
        ensures
            page.items@ == resp.data@,
            page.ids@ == resp.data@.map_values(|m: Message| m.id),
            page.is_last == resp.extra.is_last,
            page.offset == resp.extra.offset,
    {
        let mut ids: Vec<u64> = Vec::new();
        let mut i: usize = 0;
        while i < resp.data.len()
            invariant
                i <= resp.data@.len(),
                ids@ == resp.data@.subrange(0, i as int).map_values(|m: Message| m.id),
            decreases resp.data@.len() - i,
        {
            ids.push(resp.data[i].id);
            assert(resp.data@.subrange(0, i + 1).map_values(|m: Message| m.id) =~= ids@);
            i = i + 1;
        }
        assert(resp.data@.subrange(0, resp.data@.len() as int) =~= resp.data@);
        MessagesPage { items: resp.data, ids, is_last: resp.extra.is_last, offset: resp.extra.offset }
    }
}

/// A page of messages as plain values.
pub struct MessagesPageView<T> {
    pub items: Seq<T>,
    pub ids: Seq<u64>,
    pub is_last: bool,
    pub offset: u64,
}

impl<T> View for MessagesPage<T> {
    type V = MessagesPageView<T>;

    open spec fn view(&self) -> MessagesPageView<T> {
        MessagesPageView { items: self.items@, ids: self.ids@, is_last: self.is_last, offset: self.offset }
    }
}

/// Pages through all messages of a dialog: it names the next request, and
/// takes each page that came back, until the last page or an error.
pub struct DialogMessagesPager<T> {
    dialog_id: u64,
    limit: Option<u32>,
    offset: Option<u64>,
    items: Vec<T>,
    seen: HashSet<u64>,
    seen_ids: Ghost<Seq<u64>>,
    finished: bool,
}

/// State of a `DialogMessagesPager`.
pub struct DialogMessagesState<T> {
    pub dialog_id: u64,
    pub limit: Option<u32>,
    pub offset: Option<u64>,
    pub items: Seq<T>,
    pub seen: Seq<u64>,
    pub finished: bool,
}

impl<T> View for DialogMessagesPager<T> {
    type V = DialogMessagesState<T>;

    closed spec fn view(&self) -> DialogMessagesState<T> {
        DialogMessagesState {
            dialog_id: self.dialog_id,
            limit: self.limit,
            offset: self.offset,
            items: self.items@,
            seen: self.seen_ids@,
            finished: self.finished,
        }
    }
}

/// When every page was made from a response, the identifiers the pager
/// checks are the `id`s of the collected items, in order: so the result holds
/// no two items with the same `id`.
pub proof fn lemma_message_ids_of_responses(pages: Seq<MessagesPageView<Message>>)
    requires
        forall|i: int| 0 <= i < pages.len() ==> (#[trigger] pages[i]).ids == pages[i].items.map_values(|m: Message| m.id),
    ensures
        message_ids_of_pages(pages) == messages_of_pages(pages).map_values(|m: Message| m.id),
    decreases pages.len(),
{
    if pages.len() > 0 {
        let prefix = pages.drop_last();
        assert forall|i: int| 0 <= i < prefix.len() implies (#[trigger] prefix[i]).ids == prefix[i].items.map_values(|m: Message| m.id) by {
            assert(prefix[i] == pages[i]);
        }
        lemma_message_ids_of_responses(prefix);
        let last = pages[pages.len() - 1];
        assert(last == pages.last());
        assert(message_ids_of_pages(pages) =~= messages_of_pages(pages).map_values(|m: Message| m.id));
    }
}

impl<T> DialogMessagesPager<T> {
    /// The hash set of identifiers holds exactly the identifiers collected.
    pub closed spec fn wf(&self) -> bool {
        self.seen@ == self.seen_ids@.to_set()
    }
}

/// What every state of the pager keeps: one identifier per collected message,
/// and no identifier twice.
pub open spec fn messages_inv<T>(s: DialogMessagesState<T>) -> bool {
    &&& s.seen.len() == s.items.len()
    &&& s.seen.no_duplicates()
}

/// The state after taking `page`, or the error that ends the paging: a
/// repeated message is an error; a page marked last ends the paging; an
/// empty page that is not the last, or an offset that did not advance, is an
/// error; otherwise the next request starts at the page's offset.
pub open spec fn messages_step<T>(s: DialogMessagesState<T>, page: MessagesPageView<T>) -> Result<DialogMessagesState<T>, ApiError> {
    if !(s.seen + page.ids).no_duplicates() {
        Err(pagination_error("dialog messages", "duplicate item"))
    } else {
        let next = DialogMessagesState { items: s.items + page.items, seen: s.seen + page.ids, ..s };
        if page.is_last {
            Ok(DialogMessagesState { finished: true, ..next })
        } else if page.ids.len() == 0 {
            Err(pagination_error("dialog messages", "empty nonterminal page"))
        } else if s.offset == Some(page.offset) {
            Err(pagination_error("dialog messages", "offset did not advance"))
        } else {
            Ok(DialogMessagesState { offset: Some(page.offset), ..next })
        }
    }
}

/// Each step keeps the pager's invariant: no message twice.
pub proof fn lemma_messages_step_keeps_inv<T>(s: DialogMessagesState<T>, page: MessagesPageView<T>)
    requires
        messages_inv(s),
        page.items.len() == page.ids.len(),
    ensures
        messages_step(s, page) matches Ok(next) ==> messages_inv(next),
{
}

/// An empty page that is not the last is refused; so is a page whose offset
/// repeats the offset just requested. Every accepted page that does not end
/// the paging adds messages and moves the offset on.
pub proof fn lemma_messages_progress<T>(s: DialogMessagesState<T>, page: MessagesPageView<T>)
    requires
        messages_inv(s),
        page.items.len() == page.ids.len(),
    ensures
        !page.is_last && page.ids.len() == 0 ==> messages_step(s, page) is Err,
        !page.is_last && s.offset == Some(page.offset) ==> messages_step(s, page) is Err,
        messages_step(s, page) matches Ok(next) ==> (next.finished || (next.items.len()
            > s.items.len() && next.offset == Some(page.offset) && next.offset != s.offset)),
{
}

/// The paging of a dialog's messages finishes only on a page marked last,
/// whatever the page size: a page marked last that brings no identifier
/// seen before or twice is always accepted, even when empty, and finishes
/// with the messages collected so far followed by the page's messages.
pub proof fn lemma_messages_finish_only_on_last<T>(s: DialogMessagesState<T>, page: MessagesPageView<T>)
    requires
        messages_inv(s),
        !s.finished,
        page.items.len() == page.ids.len(),
    ensures
        messages_step(s, page) matches Ok(next) ==> (next.finished <==> page.is_last),
        page.is_last && (s.seen + page.ids).no_duplicates() ==> (messages_step(s, page) matches Ok(
            next,
        ) && next.finished && next.items == s.items + page.items),
        !page.is_last ==> (messages_step(s, page) is Ok <==> ((s.seen + page.ids).no_duplicates()
            && page.ids.len() > 0 && s.offset != Some(page.offset))),
        messages_step(s, page) matches Ok(next) ==> next.limit == s.limit && next.dialog_id
            == s.dialog_id,
{
}

/// The messages of a list of pages, in order.
pub open spec fn messages_of_pages<T>(pages: Seq<MessagesPageView<T>>) -> Seq<T>
    decreases pages.len(),
{
    if pages.len() == 0 {
        Seq::empty()
    } else {
        messages_of_pages(pages.drop_last()) + pages.last().items
    }
}

/// The identifiers of a list of pages, in order.
pub open spec fn message_ids_of_pages<T>(pages: Seq<MessagesPageView<T>>) -> Seq<u64>
    decreases pages.len(),
{
    if pages.len() == 0 {
        Seq::empty()
    } else {
        message_ids_of_pages(pages.drop_last()) + pages.last().ids
    }
}

/// The state after taking `pages` one after another, or the first error.
pub open spec fn messages_run<T>(s: DialogMessagesState<T>, pages: Seq<MessagesPageView<T>>) -> Result<DialogMessagesState<T>, ApiError>
    decreases pages.len(),
{
    if pages.len() == 0 {
        Ok(s)
    } else {
        match messages_run(s, pages.drop_last()) {
            Ok(mid) => messages_step(mid, pages.last()),
            Err(e) => Err(e),
        }
    }
}

/// Over a whole paging, the collected messages are those of the taken pages
/// in the order they came, each once.
pub proof fn lemma_messages_run<T>(s: DialogMessagesState<T>, pages: Seq<MessagesPageView<T>>)
    requires
        messages_inv(s),
        forall|i: int| 0 <= i < pages.len() ==> (#[trigger] pages[i]).items.len() == pages[i].ids.len(),
    ensures
        messages_run(s, pages) matches Ok(f) ==> {
            &&& f.items == s.items + messages_of_pages(pages)
            &&& f.seen == s.seen + message_ids_of_pages(pages)
            &&& messages_inv(f)
        },
    decreases pages.len(),
{
    if pages.len() > 0 {
        let prefix = pages.drop_last();
        assert forall|i: int| 0 <= i < prefix.len() implies (#[trigger] prefix[i]).items.len()
            == prefix[i].ids.len() by {
            assert(prefix[i] == pages[i]);
        }
        lemma_messages_run(s, prefix);
        if let Ok(mid) = messages_run(s, prefix) {
            let page = pages.last();
            assert(page == pages[pages.len() - 1]);
            assert(s.items + messages_of_pages(pages) =~= mid.items + page.items);
            assert(s.seen + message_ids_of_pages(pages) =~= mid.seen + page.ids);
        }
    }
}

impl<T> DialogMessagesPager<T> {
    /// Starts paging through the messages of `dialog_id`, `limit` per request.
    pub fn new(dialog_id: u64, limit: Option<u32>) -> (pager: Self)
        ensures
            pager@ == (DialogMessagesState::<T> {
                dialog_id,
                limit,
                offset: None,
                items: Seq::empty(),
                seen: Seq::empty(),
                finished: false,
            }),
            messages_inv(pager@),
            pager.wf(),
    {
        let pager = DialogMessagesPager {
            dialog_id,
            limit,
            offset: None,
            items: Vec::new(),
            seen: HashSet::new(),
            seen_ids: Ghost(Seq::empty()),
            finished: false,
        };
        assert(pager.seen@ =~= Seq::<u64>::empty().to_set());
        pager
    }

    /// The path of the next page to request, or `None` once the paging has finished.
    pub fn next_path(&self) -> (path: Option<String>)
        ensures
            self@.finished ==> path is None,
            !self@.finished ==> (path matches Some(p) && p@ == dialog_messages_path_spec(
                self@.dialog_id,
                self@.limit,
                self@.offset,
            )),
    {
        if self.finished {
            None
        } else {
            Some(dialog_messages_path(self.dialog_id, self.limit, self.offset))
        }
    }

    /// Whether the paging has finished.
    pub fn is_finished(&self) -> (finished: bool)
        ensures
            finished == self@.finished,
    {
        self.finished
    }

    /// Takes the page that the last request returned. On an error the state is unchanged.
    pub fn accept_page(&mut self, page: MessagesPage<T>) -> (result: Result<(), ApiError>)
        requires
            messages_inv(old(self)@),
            old(self).wf(),
            !old(self)@.finished,
            page.items@.len() == page.ids@.len(),
        ensures
            messages_inv(final(self)@),
            final(self).wf(),
            match messages_step(old(self)@, page@) {
                Ok(next) => result is Ok && final(self)@ == next,
                Err(e) => result == Err::<(), ApiError>(e) && final(self)@ == old(self)@,
            },
    {
        if !fresh_u64_ids(&self.seen, Ghost(self.seen_ids@), &page.ids) {
            return Err(ApiError::Pagination { resource: "dialog messages", reason: "duplicate item" });
        }
        let MessagesPage { mut items, ids, is_last, offset } = page;
        let empty = ids.len() == 0;
        if !is_last {
            if empty {
                return Err(ApiError::Pagination { resource: "dialog messages", reason: "empty nonterminal page" });
            }
            if self.offset == Some(offset) {
                return Err(ApiError::Pagination { resource: "dialog messages", reason: "offset did not advance" });
            }
        }
        insert_u64_ids(&mut self.seen, Ghost(self.seen_ids@), &ids);
        self.items.append(&mut items);
        self.seen_ids = Ghost(self.seen_ids@ + ids@);
        if is_last {
            self.finished = true;
        } else {
            self.offset = Some(offset);
        }
        Ok(())
    }

    /// All messages collected, oldest page first.
    pub fn into_items(self) -> (items: Vec<T>)
        ensures
            items@ == self@.items,
    {
        self.items
    }
}

} // verus!
