//! Subscribers of a blog.
use std::collections::HashMap;
use vstd::prelude::*;
use vstd::string::StringSliceAdditionalSpecFns;
use vstd::utf8::encode_utf8;

verus! {

/// API response containing a paginated list of a blog's subscribers.
#[derive(Debug)]
pub struct SubscribersResponse {
    /// Subscribers on this page.
    pub data: Vec<Subscriber>,
    /// Total number of subscribers.
    pub total: u64,
    /// Page size.
    pub limit: u64,
    /// Offset of the current page.
    pub offset: u64,
}

/// A single subscriber of the current user's blog.
#[derive(Debug)]
pub struct Subscriber {
    /// Unique user identifier.
    pub id: u64,
    /// Display name.
    pub name: String,
    /// Subscriber's email (may be empty).
    pub email: String,
    /// Whether the user has an avatar.
    pub has_avatar: bool,
    /// URL of the avatar.
    pub avatar_url: String,
    /// Whether this is an official account.
    pub is_official: bool,
    /// Whether the subscriber is blacklisted by the blog.
    pub is_black_listed: bool,
    /// Whether the platform fee is paid.
    pub is_fee_paid: bool,
    /// Whether the blogger can write to this subscriber.
    pub can_write: bool,
    /// Whether the user is currently subscribed.
    pub subscribed: bool,
    /// Subscription status (e.g. "active", "inactive").
    pub status: String,
    /// Subscription start timestamp (unix epoch).
    pub on_time: i64,
    /// Subscription end timestamp, if it has ended.
    pub off_time: Option<i64>,
    /// Next payment timestamp, if recurring.
    pub next_pay_time: Option<i64>,
    /// Current subscription price, as the bits of its IEEE-754 `f64` value.
    pub price_bits: u64,
    /// Total amount this subscriber has paid, as the bits of its IEEE-754 `f64` value.
    pub payments_bits: u64,
    /// The subscription level the subscriber is on.
    pub level: SubscriberLevel,
}

/// ASCII lower-casing of one byte; other bytes stay as they are.
pub open spec fn ascii_lower(b: u8) -> u8 {
    if 65 <= b <= 90 {
        (b + 32) as u8
    } else {
        b
    }
}

/// Equality of two byte strings up to ASCII case.
pub open spec fn eq_ignore_ascii_case(a: Seq<u8>, b: Seq<u8>) -> bool {
    &&& a.len() == b.len()
    &&& forall|i: int| 0 <= i < a.len() ==> ascii_lower(#[trigger] a[i]) == ascii_lower(b[i])
}

/// The bytes of `active`.
pub open spec fn active_bytes() -> Seq<u8> {
    seq![97u8, 99u8, 116u8, 105u8, 118u8, 101u8]
}

fn lower(b: u8) -> (r: u8)
    ensures
        r == ascii_lower(b),
{
    if 65 <= b && b <= 90 {
        b + 32
    } else {
        b
    }
}

impl Subscriber {
    /// Whether the subscription is currently active.
    ///
    /// Uses Boosty's own `status` field (`"active"` vs `"inactive"`), compared
    /// without regard to ASCII case: active means the subscriber should have
    /// access, inactive that access should be paused.
    pub fn is_active(&self) -> (active: bool)
        ensures
            active == eq_ignore_ascii_case(encode_utf8(self.status@), active_bytes()),
    {
        let bytes = self.status.as_str().as_bytes();
        let word: [u8; 6] = [97, 99, 116, 105, 118, 101];
        if bytes.len() != 6 {
            return false;
        }
        let mut i: usize = 0;
        while i < 6
            invariant
                bytes@ == encode_utf8(self.status@),
                bytes@.len() == 6,
                word@ == active_bytes(),
                i <= 6,
                forall|j: int| 0 <= j < i ==> ascii_lower(#[trigger] bytes@[j]) == ascii_lower(active_bytes()[j]),
            decreases 6 - i,
        {
            if lower(bytes[i]) != lower(word[i]) {
                return false;
            }
            i = i + 1;
        }
        true
    }
}

/// The subscription level attached to a subscriber.
#[derive(Debug)]
pub struct SubscriberLevel {
    /// Unique identifier.
    pub id: u64,
    /// Level name.
    pub name: String,
    /// Base price, as the bits of its IEEE-754 `f64` value.
    pub price_bits: u64,
    /// Price per currency (e.g. "RUB", "USD"), each as the bits of its IEEE-754 `f64` value.
    pub currency_prices: HashMap<String, u64>,
    /// Creation timestamp (unix epoch).
    pub created_at: i64,
    /// Owner (blog) id.
    pub owner_id: u64,
    /// Whether the level is deleted.
    pub deleted: bool,
    /// Whether the level is hidden.
    pub is_hidden: bool,
    /// Whether the level has limited availability.
    pub is_limited: bool,
    /// Whether the level is archived.
    pub is_archived: bool,
    /// Nested flag object (mirrors the top-level flags).
    pub flags: LevelFlags,
    /// Content data blocks (unstructured).
    pub data: Vec<serde_json::Value>,
    /// Archival timestamp, if archived.
    pub archived_at: Option<i64>,
    /// Parent level id, if this level was upgraded from another.
    pub parent_id: Option<u64>,
    /// Parent level payload, if present (unstructured).
    pub parent: Option<serde_json::Value>,
}

/// Nested availability flags on a `SubscriberLevel`.
#[derive(Debug, Clone, Copy, PartialEq, Eq)]
pub struct LevelFlags {
    /// Whether the level is hidden.
    pub is_hidden: bool,
    /// Whether the level has limited availability.
    pub is_limited: bool,
    /// Whether the level is archived.
    pub is_archived: bool,
}

} // verus!
