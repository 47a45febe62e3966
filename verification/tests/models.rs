use boosty_api::api_client::dialog::{DialogMessagesPager, MessagesPage};
use boosty_api::api_client::subscriber::{SubscribersPage, SubscribersPager};
use boosty_api::model::{
    AttachmentCount, LevelFlags, MediaAttachmentCount, Message, MessageAttachments, MessagesExtra,
    MessagesResponse, Subscriber, SubscriberLevel, SubscribersResponse,
};
use std::collections::HashMap;

fn subscriber(status: &str) -> Subscriber {
    subscriber_with_id(40592781, status)
}

fn subscriber_with_id(id: u64, status: &str) -> Subscriber {
    Subscriber {
        id,
        name: "A".to_string(),
        email: "user@example.com".to_string(),
        has_avatar: false,
        avatar_url: String::new(),
        is_official: false,
        is_black_listed: false,
        is_fee_paid: false,
        can_write: true,
        subscribed: true,
        status: status.to_string(),
        on_time: 1,
        off_time: None,
        next_pay_time: None,
        price_bits: 300.5f64.to_bits(),
        payments_bits: 0f64.to_bits(),
        level: SubscriberLevel {
            id: 1,
            name: "Follower".to_string(),
            price_bits: 0f64.to_bits(),
            currency_prices: HashMap::new(),
            created_at: 1,
            owner_id: 1,
            deleted: false,
            is_hidden: false,
            is_limited: true,
            is_archived: false,
            flags: LevelFlags { is_hidden: false, is_limited: true, is_archived: false },
            data: Vec::new(),
            archived_at: None,
            parent_id: Some(2990987),
            parent: None,
        },
    }
}

#[test]
fn is_active_classification() {
    assert!(subscriber("active").is_active(), "status=active should be active");
    assert!(!subscriber("inactive").is_active(), "status=inactive should not be active");
}

#[test]
fn is_active_ignores_ascii_case() {
    assert!(subscriber("ACTIVE").is_active());
    assert!(subscriber("Active").is_active());
    assert!(!subscriber("").is_active());
    assert!(!subscriber("activ").is_active());
    assert!(!subscriber("actives").is_active());
}

#[test]
fn prices_keep_their_exact_value() {
    let s = subscriber("active");
    assert_eq!(f64::from_bits(s.price_bits), 300.5);
    assert_eq!(s.level.parent_id, Some(2990987));
    assert!(s.level.flags.is_limited);
}

fn message(id: u64) -> Message {
    let none = || AttachmentCount { count: 0 };
    Message {
        id,
        dialog_id: 3323943,
        created_at: 1783600000,
        author_id: 35206396,
        is_read: false,
        is_paid: false,
        is_deleted: false,
        is_fee_paid: false,
        price_bits: 0f64.to_bits(),
        currency_prices: serde_json::Value::Null,
        data: Vec::new(),
        teaser: Vec::new(),
        attachments: MessageAttachments {
            text: AttachmentCount { count: 1 },
            files: none(),
            audios: none(),
            images: MediaAttachmentCount { count: 0, preview_url: String::new() },
            videos: MediaAttachmentCount { count: 0, preview_url: String::new() },
        },
        preview_type: "text".to_string(),
        pay_wall: None,
        donation: None,
    }
}

#[test]
fn subscribers_page_from_response_takes_the_ids_of_its_subscribers() {
    let resp = SubscribersResponse {
        data: vec![subscriber_with_id(1, "active"), subscriber_with_id(2, "inactive")],
        total: 3,
        limit: 100,
        offset: 0,
    };
    let page = SubscribersPage::from_response(resp);
    assert_eq!(page.ids, vec![1, 2]);
    assert_eq!(page.items.len(), 2);
    assert_eq!(page.items[1].id, 2);
    assert_eq!(page.total, 3);
}

#[test]
fn subscribers_from_responses_are_collected() {
    let mut pager: SubscribersPager<Subscriber> = SubscribersPager::new("ninitux", None, None);
    let first = SubscribersResponse {
        data: vec![subscriber_with_id(1, "active"), subscriber_with_id(2, "active")],
        total: 3,
        limit: 100,
        offset: 0,
    };
    assert!(pager.accept_page(SubscribersPage::from_response(first)).is_ok());
    let again = SubscribersResponse {
        data: vec![subscriber_with_id(2, "active")],
        total: 3,
        limit: 100,
        offset: 2,
    };
    assert!(pager.accept_page(SubscribersPage::from_response(again)).is_err());
    let last = SubscribersResponse {
        data: vec![subscriber_with_id(3, "active")],
        total: 3,
        limit: 100,
        offset: 2,
    };
    assert!(pager.accept_page(SubscribersPage::from_response(last)).is_ok());
    let all = pager.into_items();
    assert_eq!(all.iter().map(|s| s.id).collect::<Vec<u64>>(), vec![1, 2, 3]);
}

#[test]
fn messages_page_from_response_takes_the_ids_of_its_messages() {
    let resp = MessagesResponse {
        data: vec![message(11), message(12)],
        extra: MessagesExtra { is_last: true, offset: 11 },
    };
    let page = MessagesPage::from_response(resp);
    assert_eq!(page.ids, vec![11, 12]);
    assert_eq!(page.items[0].id, 11);
    assert!(page.is_last);
    assert_eq!(page.offset, 11);

    let mut pager: DialogMessagesPager<Message> = DialogMessagesPager::new(3323943, Some(30));
    assert!(pager.accept_page(page).is_ok());
    assert!(pager.next_path().is_none());
    assert_eq!(pager.into_items().len(), 2);
}
