use boosty_api::api_client::dialog::{DialogMessagesPager, MessagesPage};
use boosty_api::api_client::post::{PostsPage, PostsPager};
use boosty_api::api_client::subscriber::{SubscribersPage, SubscribersPager};
use boosty_api::error::ApiError;

fn subs(ids: &[u64], total: u64) -> SubscribersPage<u64> {
    SubscribersPage { items: ids.to_vec(), ids: ids.to_vec(), total }
}

fn is_pagination(res: &Result<(), ApiError>, resource: &str, reason: &str) -> bool {
    matches!(res, Err(ApiError::Pagination { resource: r, reason: why }) if *r == resource && *why == reason)
}

#[test]
fn test_get_all_subscribers_paginates() {
    let blog = "ninitux";
    let mut pager: SubscribersPager<u64> = SubscribersPager::new(blog, None, None);
    assert_eq!(
        pager.next_path().unwrap(),
        format!("blog/{blog}/subscribers?offset=0&limit=100")
    );
    assert!(pager.accept_page(subs(&[1, 2], 3)).is_ok());
    assert!(!pager.is_finished());
    assert_eq!(
        pager.next_path().unwrap(),
        format!("blog/{blog}/subscribers?offset=2&limit=100")
    );
    assert!(pager.accept_page(subs(&[3], 3)).is_ok());
    assert!(pager.is_finished());
    assert!(pager.next_path().is_none());
    let all = pager.into_items();
    assert_eq!(all.len(), 3);
    assert_eq!(all[2], 3);
}

#[test]
fn subscribers_sorting_is_passed_on() {
    let pager: SubscribersPager<u64> = SubscribersPager::new("b", Some("on_time"), Some("gt"));
    assert_eq!(
        pager.next_path().unwrap(),
        "blog/b/subscribers?offset=0&limit=100&sort_by=on_time&order=gt"
    );
}

#[test]
fn subscribers_empty_blog_finishes() {
    let mut pager: SubscribersPager<u64> = SubscribersPager::new("b", None, None);
    assert!(pager.accept_page(subs(&[], 0)).is_ok());
    assert!(pager.is_finished());
    assert!(pager.into_items().is_empty());
}

#[test]
fn subscribers_total_change_is_refused() {
    let mut pager: SubscribersPager<u64> = SubscribersPager::new("b", None, None);
    assert!(pager.accept_page(subs(&[1, 2], 5)).is_ok());
    let res = pager.accept_page(subs(&[3], 6));
    assert!(is_pagination(&res, "subscribers", "total changed between pages"));
    // the refused page changed nothing
    assert_eq!(pager.next_path().unwrap(), "blog/b/subscribers?offset=2&limit=100");
}

#[test]
fn subscribers_early_empty_page_is_refused() {
    let mut pager: SubscribersPager<u64> = SubscribersPager::new("b", None, None);
    assert!(pager.accept_page(subs(&[1], 2)).is_ok());
    let res = pager.accept_page(subs(&[], 2));
    assert!(is_pagination(&res, "subscribers", "empty page before expected total"));
}

#[test]
fn subscribers_duplicate_is_refused() {
    let mut pager: SubscribersPager<u64> = SubscribersPager::new("b", None, None);
    assert!(pager.accept_page(subs(&[1, 2], 4)).is_ok());
    let res = pager.accept_page(subs(&[3, 2], 4));
    assert!(is_pagination(&res, "subscribers", "duplicate item"));
    let res = pager.accept_page(subs(&[3, 3], 4));
    assert!(is_pagination(&res, "subscribers", "duplicate item"));
}

#[test]
fn subscribers_overshoot_is_refused() {
    let mut pager: SubscribersPager<u64> = SubscribersPager::new("b", None, None);
    assert!(pager.accept_page(subs(&[1, 2], 3)).is_ok());
    let res = pager.accept_page(subs(&[3, 4], 3));
    assert!(is_pagination(&res, "subscribers", "page exceeded expected total"));
}

fn posts(ids: &[&str], is_last: bool, offset: &str) -> PostsPage<String> {
    PostsPage {
        items: ids.iter().map(|s| s.to_string()).collect(),
        ids: ids.iter().map(|s| s.to_string()).collect(),
        is_last,
        offset: offset.to_string(),
    }
}

#[test]
fn probe_get_posts_respects_limit() {
    let mut pager: PostsPager<String> = PostsPager::new("b", 1, None, None);
    assert_eq!(pager.next_path().unwrap(), "blog/b/post/?limit=1");
    // the server over-delivers two posts
    assert!(pager.accept_page(posts(&["p1", "p2"], false, "o1")).is_ok());
    assert!(pager.is_finished());
    let result = pager.into_items();
    assert!(result.len() <= 1);
    assert_eq!(result, vec!["p1".to_string()]);
}

#[test]
fn posts_limit_zero_needs_no_request() {
    let pager: PostsPager<String> = PostsPager::new("b", 0, None, None);
    assert!(pager.next_path().is_none());
    assert!(pager.into_items().is_empty());
}

#[test]
fn posts_follow_offsets_and_shrink_the_last_request() {
    let mut pager: PostsPager<String> = PostsPager::new("b", 5, Some(2), Some("start".to_string()));
    assert_eq!(pager.next_path().unwrap(), "blog/b/post/?limit=2&offset=start");
    assert!(pager.accept_page(posts(&["a", "b"], false, "o 1")).is_ok());
    assert_eq!(pager.next_path().unwrap(), "blog/b/post/?limit=2&offset=o%201");
    assert!(pager.accept_page(posts(&["c", "d"], false, "o2")).is_ok());
    assert_eq!(pager.next_path().unwrap(), "blog/b/post/?limit=1&offset=o2");
    assert!(pager.accept_page(posts(&["e"], false, "o3")).is_ok());
    assert!(pager.is_finished());
    assert_eq!(pager.into_items().len(), 5);
}

#[test]
fn posts_default_page_size_is_twenty() {
    let pager: PostsPager<String> = PostsPager::new("b", 100, None, None);
    assert_eq!(pager.next_path().unwrap(), "blog/b/post/?limit=20");
}

#[test]
fn posts_stop_at_last_page() {
    let mut pager: PostsPager<String> = PostsPager::new("b", 10, None, None);
    assert!(pager.accept_page(posts(&["a"], true, "x")).is_ok());
    assert!(pager.next_path().is_none());
    assert_eq!(pager.into_items(), vec!["a".to_string()]);
}

#[test]
fn posts_errors() {
    let mut pager: PostsPager<String> = PostsPager::new("b", 10, None, None);
    assert!(pager.accept_page(posts(&["a", "b"], false, "o1")).is_ok());
    assert!(is_pagination(&pager.accept_page(posts(&["c", "a"], false, "o2")), "posts", "duplicate item"));
    assert!(is_pagination(&pager.accept_page(posts(&[], false, "o2")), "posts", "empty nonterminal page"));
    assert!(is_pagination(&pager.accept_page(posts(&["c"], false, "o1")), "posts", "offset did not advance"));
    assert!(pager.accept_page(posts(&["c"], false, "o2")).is_ok());
}

fn messages(ids: &[u64], is_last: bool, offset: u64) -> MessagesPage<u64> {
    MessagesPage { items: ids.to_vec(), ids: ids.to_vec(), is_last, offset }
}

#[test]
fn test_get_all_dialog_messages_stops_at_is_last() {
    let mut pager: DialogMessagesPager<u64> = DialogMessagesPager::new(42, Some(30));
    assert_eq!(pager.next_path().unwrap(), "dialog/42/message/?limit=30");
    assert!(pager.accept_page(messages(&[7, 8], true, 7)).is_ok());
    // no second (offset) request
    assert!(pager.next_path().is_none());
    assert_eq!(pager.into_items().len(), 2);
}

#[test]
fn dialog_messages_follow_offsets() {
    let mut pager: DialogMessagesPager<u64> = DialogMessagesPager::new(42, None);
    assert!(pager.accept_page(messages(&[10, 9], false, 9)).is_ok());
    assert_eq!(pager.next_path().unwrap(), "dialog/42/message/?offset=9");
    assert!(pager.accept_page(messages(&[8], false, 8)).is_ok());
    assert!(pager.accept_page(messages(&[], true, 0)).is_ok());
    assert_eq!(pager.into_items(), vec![10, 9, 8]);
}

#[test]
fn dialog_messages_errors() {
    let mut pager: DialogMessagesPager<u64> = DialogMessagesPager::new(1, None);
    assert!(pager.accept_page(messages(&[5, 4], false, 4)).is_ok());
    let r = pager.accept_page(messages(&[4], false, 3));
    assert!(is_pagination(&r, "dialog messages", "duplicate item"));
    let r = pager.accept_page(messages(&[], false, 3));
    assert!(is_pagination(&r, "dialog messages", "empty nonterminal page"));
    let r = pager.accept_page(messages(&[3], false, 4));
    assert!(is_pagination(&r, "dialog messages", "offset did not advance"));
}
